//! One request and its answer, step by step.
//!
//! The caller performs what an [`Action`] asks for and reports the result as
//! an [`Event`]; [`step`] answers with the next action. Nothing here touches
//! the network or the disk.
use vstd::prelude::*;
use bytes::Bytes;
use crate::request::{Payload, Delivery, Sink, RequestPlan, PlanModel};

verus! {

#[verifier::external_type_specification]
#[verifier::external_body]
pub struct ExBytes(bytes::Bytes);

/// `Clone::clone` on a `bytes::Bytes`: the clone is a second handle on the
/// same bytes, which is what the equality stands for.
pub assume_specification[ <bytes::Bytes as Clone>::clone ](chunk: &bytes::Bytes) -> (same:
    bytes::Bytes)
    ensures
        same == *chunk,
;

/// Where an exchange stands: what it waits for.
#[derive(Debug, Clone, Copy, PartialEq, Eq, Structural)]
pub enum Phase {
    /// The form is being built.
    Preparing,
    /// The request is on its way.
    Sending,
    /// The body is being decoded into the envelope.
    Decoding,
    /// The target file is being created.
    Creating,
    /// The next chunk of the body is being read.
    Reading,
    /// A chunk is being written to the file.
    Writing,
    /// Nothing more happens.
    Finished,
}

/// Why an exchange failed.
#[derive(Debug, Clone, Copy, PartialEq, Eq, Structural)]
pub enum Failure {
    /// The local file system refused: a form could not be built from a file,
    /// or the target file could not be created or written.
    Io,
    /// The request could not be sent, or the body broke off.
    Transport,
    /// The body is not what the envelope expects.
    Decode,
    /// The answer came with this status, which is none of success.
    Status(u16),
}

/// What the caller reports.
#[derive(Debug, Clone, PartialEq, Eq)]
pub enum Event {
    /// The form is built.
    Prepared,
    /// The form could not be built.
    PrepareFailed,
    /// The answer's head arrived, with this status.
    Responded(u16),
    /// No answer arrived.
    SendFailed,
    /// The body was decoded.
    Decoded,
    /// The body could not be decoded.
    DecodeFailed,
    /// The target file is there, and empty.
    Created,
    /// The target file could not be created.
    CreateFailed,
    /// The next chunk of the body.
    Chunk(Bytes),
    /// The body broke off.
    ChunkFailed,
    /// The body has ended.
    EndOfBody,
    /// The chunk is in the file.
    Written,
    /// The chunk could not be written.
    WriteFailed,
}

/// What the caller is asked to do next.
#[derive(Debug, Clone, PartialEq, Eq)]
pub enum Action {
    /// Build the multipart form.
    Prepare,
    /// Send the request.
    Send,
    /// Decode the body into the envelope.
    Decode,
    /// Hand the unread body to the caller of the download, as chunks.
    Expose,
    /// Create the target file, or empty it.
    Create,
    /// Read the next chunk of the body.
    Read,
    /// Append this chunk to the target file.
    Write(Bytes),
    /// Report success.
    Succeed,
    /// Report this failure.
    Fail(Failure),
}

/// The statuses of success: 200 to 299.
pub open spec fn success(status: u16) -> bool {
    200 <= status <= 299
}

/// Whether `status` is one of success.
pub fn is_success(status: u16) -> (yes: bool)
    ensures
        yes == success(status),
{
    200 <= status && status <= 299
}

/// How an exchange opens: a form is built before anything is sent, and every
/// other request is sent at once.
pub open spec fn opening(plan: PlanModel) -> (Phase, Action) {
    if plan.payload is Form {
        (Phase::Preparing, Action::Prepare)
    } else {
        (Phase::Sending, Action::Send)
    }
}

/// What follows an answer's head. An envelope is decoded whatever the status;
/// a download goes on only after a status of success.
pub open spec fn answered(plan: PlanModel, status: u16) -> (Phase, Action) {
    match plan.sink {
        Sink::Envelope => (Phase::Decoding, Action::Decode),
        Sink::Chunks => if success(status) {
            (Phase::Finished, Action::Expose)
        } else {
            (Phase::Finished, Action::Fail(Failure::Status(status)))
        },
        Sink::File(_) => if success(status) {
            (Phase::Creating, Action::Create)
        } else {
            (Phase::Finished, Action::Fail(Failure::Status(status)))
        },
    }
}

/// The next phase and action, where `event` is one that `phase` waits for.
pub open spec fn next(plan: PlanModel, phase: Phase, event: Event) -> Option<(Phase, Action)> {
    match (phase, event) {
        (Phase::Preparing, Event::Prepared) => Some((Phase::Sending, Action::Send)),
        (Phase::Preparing, Event::PrepareFailed) => Some(
            (Phase::Finished, Action::Fail(Failure::Io)),
        ),
        (Phase::Sending, Event::Responded(status)) => Some(answered(plan, status)),
        (Phase::Sending, Event::SendFailed) => Some(
            (Phase::Finished, Action::Fail(Failure::Transport)),
        ),
        (Phase::Decoding, Event::Decoded) => Some((Phase::Finished, Action::Succeed)),
        (Phase::Decoding, Event::DecodeFailed) => Some(
            (Phase::Finished, Action::Fail(Failure::Decode)),
        ),
        (Phase::Creating, Event::Created) => Some((Phase::Reading, Action::Read)),
        (Phase::Creating, Event::CreateFailed) => Some(
            (Phase::Finished, Action::Fail(Failure::Io)),
        ),
        (Phase::Reading, Event::Chunk(chunk)) => Some((Phase::Writing, Action::Write(chunk))),
        (Phase::Reading, Event::ChunkFailed) => Some(
            (Phase::Finished, Action::Fail(Failure::Transport)),
        ),
        (Phase::Reading, Event::EndOfBody) => Some((Phase::Finished, Action::Succeed)),
        (Phase::Writing, Event::Written) => Some((Phase::Reading, Action::Read)),
        (Phase::Writing, Event::WriteFailed) => Some(
            (Phase::Finished, Action::Fail(Failure::Io)),
        ),
        _ => None,
    }
}

/// Opens the exchange of `plan`.
pub fn start(plan: &RequestPlan) -> (first: (Phase, Action))
    ensures
        first == opening(plan@),
{
    match plan.payload {
        Payload::Form => (Phase::Preparing, Action::Prepare),
        _ => (Phase::Sending, Action::Send),
    }
}

/// Takes the answer's head: see [`answered`].
pub fn on_response(plan: &RequestPlan, status: u16) -> (then: (Phase, Action))
    ensures
        then == answered(plan@, status),
{
    match &plan.delivery {
        Delivery::Envelope => (Phase::Decoding, Action::Decode),
        Delivery::Chunks => if is_success(status) {
            (Phase::Finished, Action::Expose)
        } else {
            (Phase::Finished, Action::Fail(Failure::Status(status)))
        },
        Delivery::File(_) => if is_success(status) {
            (Phase::Creating, Action::Create)
        } else {
            (Phase::Finished, Action::Fail(Failure::Status(status)))
        },
    }
}

/// One step of the exchange of `plan`: from the phase it is in and what the
/// caller reports to the phase it enters and what the caller does next.
/// `None` where `phase` does not wait for `event`; the exchange then stays
/// where it is.
pub fn step(plan: &RequestPlan, phase: Phase, event: &Event) -> (then: Option<(Phase, Action)>)
    ensures
        then == next(plan@, phase, *event),
{
    match (phase, event) {
        (Phase::Preparing, Event::Prepared) => Some((Phase::Sending, Action::Send)),
        (Phase::Preparing, Event::PrepareFailed) => Some(
            (Phase::Finished, Action::Fail(Failure::Io)),
        ),
        (Phase::Sending, Event::Responded(status)) => Some(on_response(plan, *status)),
        (Phase::Sending, Event::SendFailed) => Some(
            (Phase::Finished, Action::Fail(Failure::Transport)),
        ),
        (Phase::Decoding, Event::Decoded) => Some((Phase::Finished, Action::Succeed)),
        (Phase::Decoding, Event::DecodeFailed) => Some(
            (Phase::Finished, Action::Fail(Failure::Decode)),
        ),
        (Phase::Creating, Event::Created) => Some((Phase::Reading, Action::Read)),
        (Phase::Creating, Event::CreateFailed) => Some(
            (Phase::Finished, Action::Fail(Failure::Io)),
        ),
        (Phase::Reading, Event::Chunk(chunk)) => Some(
            (Phase::Writing, Action::Write(chunk.clone())),
        ),
        (Phase::Reading, Event::ChunkFailed) => Some(
            (Phase::Finished, Action::Fail(Failure::Transport)),
        ),
        (Phase::Reading, Event::EndOfBody) => Some((Phase::Finished, Action::Succeed)),
        (Phase::Writing, Event::Written) => Some((Phase::Reading, Action::Read)),
        (Phase::Writing, Event::WriteFailed) => Some(
            (Phase::Finished, Action::Fail(Failure::Io)),
        ),
        _ => None,
    }
}

/// The whole course of an exchange: the phase it has reached and every action
/// it has asked for, the opening one first, after the caller has reported
/// `events` in this order. `None` where one of them came while the exchange
/// was not waiting for it.
pub open spec fn run(plan: PlanModel, events: Seq<Event>) -> Option<(Phase, Seq<Action>)>
    decreases events.len(),
{
    if events.len() == 0 {
        Some((opening(plan).0, seq![opening(plan).1]))
    } else {
        match run(plan, events.drop_last()) {
            None => None,
            Some((phase, actions)) => match next(plan, phase, events.last()) {
                None => None,
                Some((then, action)) => Some((then, actions.push(action))),
            },
        }
    }
}

/// The chunks among `events`, in their order.
pub open spec fn chunks(events: Seq<Event>) -> Seq<Bytes>
    decreases events.len(),
{
    if events.len() == 0 {
        Seq::empty()
    } else {
        match events.last() {
            Event::Chunk(chunk) => chunks(events.drop_last()).push(chunk),
            _ => chunks(events.drop_last()),
        }
    }
}

/// The chunks that `actions` ask to write, in their order.
pub open spec fn writes(actions: Seq<Action>) -> Seq<Bytes>
    decreases actions.len(),
{
    if actions.len() == 0 {
        Seq::empty()
    } else {
        match actions.last() {
            Action::Write(chunk) => writes(actions.drop_last()).push(chunk),
            _ => writes(actions.drop_last()),
        }
    }
}

/// Whether `action` closes an exchange.
pub open spec fn closes(action: Action) -> bool {
    action is Succeed || action is Fail || action is Expose
}

/// Whether `action` reaches for the answer's body or the target file.
pub open spec fn takes_body(action: Action) -> bool {
    action is Decode || action is Expose || action is Create || action is Read || action is Write
}

/// Whether `event` is an answer with a status of success.
pub open spec fn welcome(event: Event) -> bool {
    match event {
        Event::Responded(status) => success(status),
        _ => false,
    }
}

proof fn lemma_run_prefix(plan: PlanModel, events: Seq<Event>, n: int)
    requires
        0 <= n <= events.len(),
        run(plan, events.take(n)) is None,
    ensures
        run(plan, events) is None,
    decreases events.len() - n,
{
    if n < events.len() {
        assert(events.take(n + 1).drop_last() =~= events.take(n));
        lemma_run_prefix(plan, events, n + 1);
    } else {
        assert(events.take(n) =~= events);
    }
}

/// Runs the exchange of `plan` over a whole list of events: the phase reached
/// and the actions asked for, or `None` where an event came out of turn.
pub fn replay(plan: &RequestPlan, events: &Vec<Event>) -> (course: Option<(Phase, Vec<Action>)>)
    ensures
        match course {
            Some((phase, actions)) => run(plan@, events@) == Some((phase, actions@)),
            None => run(plan@, events@) is None,
        },
{
    let (mut phase, first) = start(plan);
    let mut actions: Vec<Action> = Vec::new();
    actions.push(first);
    let mut done: usize = 0;
    assert(events@.take(0).len() == 0);
    assert(actions@ =~= seq![opening(plan@).1]);
    while done < events.len()
        invariant
            done <= events.len(),
            run(plan@, events@.take(done as int)) == Some((phase, actions@)),
        decreases events.len() - done,
    {
        proof {
            assert(events@.take(done + 1).drop_last() =~= events@.take(done as int));
            assert(events@.take(done + 1).last() == events@[done as int]);
        }
        match step(plan, phase, &events[done]) {
            None => {
                proof {
                    lemma_run_prefix(plan@, events@, done + 1);
                }
                return None;
            },
            Some((then, action)) => {
                phase = then;
                actions.push(action);
            },
        }
        done = done + 1;
    }
    assert(events@.take(done as int) =~= events@);
    Some((phase, actions))
}

/// Every event is answered by one action: after the opening action there
/// are as many actions as events.
pub proof fn lemma_one_action_each(plan: PlanModel, events: Seq<Event>)
    requires
        run(plan, events) is Some,
    ensures
        run(plan, events).unwrap().1.len() == events.len() + 1,
    decreases events.len(),
{
    if events.len() > 0 {
        lemma_one_action_each(plan, events.drop_last());
    }
}

/// An exchange is closed by its last action and by no other: the phase is
/// `Finished` exactly when the last action closes, and no earlier one does.
pub proof fn lemma_closed_at_the_end(plan: PlanModel, events: Seq<Event>)
    requires
        run(plan, events) is Some,
    ensures
        (run(plan, events).unwrap().0 is Finished) == closes(run(plan, events).unwrap().1.last()),
        forall|k: int|
            0 <= k < run(plan, events).unwrap().1.len() - 1 ==> !closes(
                #[trigger] run(plan, events).unwrap().1[k],
            ),
    decreases events.len(),
{
    if events.len() > 0 {
        lemma_closed_at_the_end(plan, events.drop_last());
        lemma_one_action_each(plan, events.drop_last());
    }
}

/// An envelope is decoded whatever the status of the answer.
pub proof fn lemma_envelope_ignores_status(plan: PlanModel, status: u16)
    requires
        plan.sink is Envelope,
    ensures
        answered(plan, status) == (Phase::Decoding, Action::Decode),
        next(plan, Phase::Sending, Event::Responded(status)) == Some(
            (Phase::Decoding, Action::Decode),
        ),
{
}

/// A download takes nothing after a status that is none of success: the
/// exchange is closed with that status as its failure.
pub proof fn lemma_download_refuses(plan: PlanModel, status: u16)
    requires
        plan.checks_status(),
        !success(status),
    ensures
        next(plan, Phase::Sending, Event::Responded(status)) == Some(
            (Phase::Finished, Action::Fail(Failure::Status(status))),
        ),
{
}

/// A form is built before anything is sent: where the request carries a form
/// and no event says that it was built, no action asks to send.
pub proof fn lemma_no_send_without_form(plan: PlanModel, events: Seq<Event>)
    requires
        plan.payload is Form,
        run(plan, events) is Some,
        forall|i: int| 0 <= i < events.len() ==> !(#[trigger] events[i] is Prepared),
    ensures
        run(plan, events).unwrap().0 is Preparing || run(plan, events).unwrap().0 is Finished,
        forall|k: int|
            0 <= k < run(plan, events).unwrap().1.len() ==> !(#[trigger] run(
                plan,
                events,
            ).unwrap().1[k] is Send),
    decreases events.len(),
{
    if events.len() > 0 {
        let before = events.drop_last();
        assert forall|i: int| 0 <= i < before.len() implies !(#[trigger] before[i] is Prepared) by {
            assert(before[i] == events[i]);
        }
        lemma_no_send_without_form(plan, before);
        assert(!(events[events.len() - 1] is Prepared));
    }
}

/// Where building the form fails, the exchange is over: the failure is
/// reported and nothing was sent.
pub proof fn lemma_failed_form_ends(plan: PlanModel)
    requires
        plan.payload is Form,
    ensures
        run(plan, seq![Event::PrepareFailed]) == Some(
            (Phase::Finished, seq![Action::Prepare, Action::Fail(Failure::Io)]),
        ),
{
    let events = seq![Event::PrepareFailed];
    assert(events.drop_last() =~= Seq::<Event>::empty());
    assert(run(plan, events.drop_last()) == Some((Phase::Preparing, seq![Action::Prepare])));
    assert(seq![Action::Prepare].push(Action::Fail(Failure::Io)) =~= seq![
        Action::Prepare,
        Action::Fail(Failure::Io),
    ]);
}

/// Nothing is taken before a status of success, where the status is checked:
/// while no event is an answer with such a status, no action asks to hand the
/// body over, to create the target file, to read a chunk or to write one.
pub proof fn lemma_nothing_taken_before_success(plan: PlanModel, events: Seq<Event>)
    requires
        plan.checks_status(),
        run(plan, events) is Some,
        forall|i: int| 0 <= i < events.len() ==> !welcome(#[trigger] events[i]),
    ensures
        run(plan, events).unwrap().0 is Preparing || run(plan, events).unwrap().0 is Sending
            || run(plan, events).unwrap().0 is Finished,
        forall|k: int|
            0 <= k < run(plan, events).unwrap().1.len() ==> !takes_body(
                #[trigger] run(plan, events).unwrap().1[k],
            ),
    decreases events.len(),
{
    if events.len() > 0 {
        let before = events.drop_last();
        assert forall|i: int| 0 <= i < before.len() implies !welcome(#[trigger] before[i]) by {
            assert(before[i] == events[i]);
        }
        lemma_nothing_taken_before_success(plan, before);
        assert(!welcome(events[events.len() - 1]));
    }
}

/// What is written is what was received: the chunks that the actions ask to
/// write are the chunks that the events brought, each once and in the order
/// of arrival.
pub proof fn lemma_writes_are_chunks(plan: PlanModel, events: Seq<Event>)
    requires
        run(plan, events) is Some,
    ensures
        writes(run(plan, events).unwrap().1) == chunks(events),
    decreases events.len(),
{
    if events.len() == 0 {
        let first = seq![opening(plan).1];
        assert(first.drop_last() =~= Seq::<Action>::empty());
        assert(writes(first.drop_last()) =~= Seq::<Bytes>::empty());
    } else {
        lemma_writes_are_chunks(plan, events.drop_last());
        let (phase, actions) = run(plan, events.drop_last()).unwrap();
        let (then, action) = next(plan, phase, events.last()).unwrap();
        assert(actions.push(action).drop_last() =~= actions);
        assert(actions.push(action).last() == action);
    }
}

/// A download into a file that ends in success has written every chunk of the
/// body: the last action is `Succeed`, and the chunks written are all those
/// received.
pub proof fn lemma_download_complete(plan: PlanModel, events: Seq<Event>)
    requires
        plan.sink is File,
        run(plan, events) is Some,
        run(plan, events).unwrap().1.last() is Succeed,
    ensures
        events.len() > 0,
        events.last() is EndOfBody,
        writes(run(plan, events).unwrap().1) == chunks(events),
        exists|i: int| 0 <= i < events.len() && welcome(#[trigger] events[i]),
{
    lemma_writes_are_chunks(plan, events);
    lemma_file_success_needs_body(plan, events);
    if forall|i: int| 0 <= i < events.len() ==> !welcome(#[trigger] events[i]) {
        lemma_nothing_taken_before_success(plan, events);
        lemma_one_action_each(plan, events);
        assert(!takes_body(run(plan, events).unwrap().1[events.len() - 1]));
    }
}

proof fn lemma_file_success_needs_body(plan: PlanModel, events: Seq<Event>)
    requires
        plan.sink is File,
        run(plan, events) is Some,
        run(plan, events).unwrap().1.last() is Succeed,
    ensures
        events.len() > 0,
        events.last() is EndOfBody,
        events.len() >= 2 && takes_body(run(plan, events).unwrap().1[events.len() - 1]),
{
    lemma_file_phases(plan, events);
    if events.len() > 0 {
        lemma_file_phases(plan, events.drop_last());
        lemma_one_action_each(plan, events.drop_last());
        let (phase, actions) = run(plan, events.drop_last()).unwrap();
        assert(phase is Reading);
        assert(actions.last() is Read);
        assert(events.len() >= 2) by {
            if events.len() == 1 {
                assert(events.drop_last().len() == 0);
            }
        }
        assert(run(plan, events).unwrap().1[events.len() - 1] == actions.last());
    }
}

proof fn lemma_file_phases(plan: PlanModel, events: Seq<Event>)
    requires
        plan.sink is File,
        run(plan, events) is Some,
    ensures
        !(run(plan, events).unwrap().0 is Decoding),
        run(plan, events).unwrap().0 is Reading ==> run(plan, events).unwrap().1.last() is Read,
    decreases events.len(),
{
    if events.len() > 0 {
        lemma_file_phases(plan, events.drop_last());
    }
}

} // verus!
