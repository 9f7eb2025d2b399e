use bytes::Bytes;
use openai_api::exchange::{is_success, on_response, replay, start, step, Action, Event, Failure, Phase};
use openai_api::request::{
    by_url_request, download_request, download_to_file_request, form_request, get_request,
    json_request, RequestPlan,
};
use openai_api::OpenAiClient;

fn client() -> OpenAiClient {
    OpenAiClient::with_url("secret", "http://host/v1").unwrap()
}

fn to_file() -> RequestPlan {
    download_to_file_request(&client(), "/files/", "file-1", "/content", "out.json")
}

fn all_events() -> Vec<Event> {
    vec![
        Event::Prepared,
        Event::PrepareFailed,
        Event::Responded(200),
        Event::SendFailed,
        Event::Decoded,
        Event::DecodeFailed,
        Event::Created,
        Event::CreateFailed,
        Event::Chunk(Bytes::from_static(b"x")),
        Event::ChunkFailed,
        Event::EndOfBody,
        Event::Written,
        Event::WriteFailed,
    ]
}

#[test]
fn success_is_two_hundred_to_two_ninety_nine() {
    assert!(!is_success(0));
    assert!(!is_success(100));
    assert!(!is_success(199));
    assert!(is_success(200));
    assert!(is_success(204));
    assert!(is_success(299));
    assert!(!is_success(300));
    assert!(!is_success(304));
    assert!(!is_success(404));
    assert!(!is_success(500));
    assert!(!is_success(u16::MAX));
}

#[test]
fn requests_without_a_form_are_sent_at_once() {
    assert_eq!(start(&json_request(&client(), "/chat")), (Phase::Sending, Action::Send));
    assert_eq!(start(&get_request(&client(), "/models")), (Phase::Sending, Action::Send));
    assert_eq!(start(&by_url_request(&client(), "/models/", "m", "")), (Phase::Sending, Action::Send));
    assert_eq!(start(&download_request(&client(), "/files/", "f", "/content")), (Phase::Sending, Action::Send));
    assert_eq!(start(&to_file()), (Phase::Sending, Action::Send));
}

#[test]
fn a_form_is_built_first() {
    assert_eq!(start(&form_request(&client(), "/files")), (Phase::Preparing, Action::Prepare));
}

#[test]
fn an_envelope_is_decoded_whatever_the_status() {
    let plan = json_request(&client(), "/chat");
    for status in [100u16, 200, 204, 301, 400, 401, 404, 429, 500, 503] {
        assert_eq!(on_response(&plan, status), (Phase::Decoding, Action::Decode));
        assert_eq!(
            step(&plan, Phase::Sending, &Event::Responded(status)),
            Some((Phase::Decoding, Action::Decode))
        );
    }
}

#[test]
fn a_download_is_exposed_on_success_only() {
    let plan = download_request(&client(), "/files/", "f", "/content");
    assert_eq!(on_response(&plan, 200), (Phase::Finished, Action::Expose));
    assert_eq!(on_response(&plan, 299), (Phase::Finished, Action::Expose));
    assert_eq!(on_response(&plan, 404), (Phase::Finished, Action::Fail(Failure::Status(404))));
    assert_eq!(on_response(&plan, 302), (Phase::Finished, Action::Fail(Failure::Status(302))));
    assert_eq!(on_response(&plan, 199), (Phase::Finished, Action::Fail(Failure::Status(199))));
}

#[test]
fn a_file_is_created_on_success_only() {
    let plan = to_file();
    assert_eq!(on_response(&plan, 200), (Phase::Creating, Action::Create));
    assert_eq!(on_response(&plan, 300), (Phase::Finished, Action::Fail(Failure::Status(300))));
    assert_eq!(on_response(&plan, 404), (Phase::Finished, Action::Fail(Failure::Status(404))));
    assert_eq!(on_response(&plan, 500), (Phase::Finished, Action::Fail(Failure::Status(500))));
}

#[test]
fn every_transition_of_a_form_upload() {
    let plan = form_request(&client(), "/files");
    assert_eq!(step(&plan, Phase::Preparing, &Event::Prepared), Some((Phase::Sending, Action::Send)));
    assert_eq!(
        step(&plan, Phase::Preparing, &Event::PrepareFailed),
        Some((Phase::Finished, Action::Fail(Failure::Io)))
    );
    assert_eq!(
        step(&plan, Phase::Sending, &Event::SendFailed),
        Some((Phase::Finished, Action::Fail(Failure::Transport)))
    );
    assert_eq!(
        step(&plan, Phase::Sending, &Event::Responded(500)),
        Some((Phase::Decoding, Action::Decode))
    );
    assert_eq!(step(&plan, Phase::Decoding, &Event::Decoded), Some((Phase::Finished, Action::Succeed)));
    assert_eq!(
        step(&plan, Phase::Decoding, &Event::DecodeFailed),
        Some((Phase::Finished, Action::Fail(Failure::Decode)))
    );
}

#[test]
fn every_transition_of_a_download_into_a_file() {
    let plan = to_file();
    let chunk = Bytes::from_static(b"{\"prompt\":1}\n");
    assert_eq!(step(&plan, Phase::Creating, &Event::Created), Some((Phase::Reading, Action::Read)));
    assert_eq!(
        step(&plan, Phase::Creating, &Event::CreateFailed),
        Some((Phase::Finished, Action::Fail(Failure::Io)))
    );
    assert_eq!(
        step(&plan, Phase::Reading, &Event::Chunk(chunk.clone())),
        Some((Phase::Writing, Action::Write(chunk)))
    );
    assert_eq!(
        step(&plan, Phase::Reading, &Event::ChunkFailed),
        Some((Phase::Finished, Action::Fail(Failure::Transport)))
    );
    assert_eq!(step(&plan, Phase::Reading, &Event::EndOfBody), Some((Phase::Finished, Action::Succeed)));
    assert_eq!(step(&plan, Phase::Writing, &Event::Written), Some((Phase::Reading, Action::Read)));
    assert_eq!(
        step(&plan, Phase::Writing, &Event::WriteFailed),
        Some((Phase::Finished, Action::Fail(Failure::Io)))
    );
}

#[test]
fn a_written_chunk_is_the_chunk_received() {
    let plan = to_file();
    let got = step(&plan, Phase::Reading, &Event::Chunk(Bytes::from_static(b"abc")));
    assert_eq!(got, Some((Phase::Writing, Action::Write(Bytes::from_static(b"abc")))));
    assert_ne!(got, Some((Phase::Writing, Action::Write(Bytes::from_static(b"abd")))));
    let empty = step(&plan, Phase::Reading, &Event::Chunk(Bytes::new()));
    assert_eq!(empty, Some((Phase::Writing, Action::Write(Bytes::new()))));
}

#[test]
fn a_finished_exchange_waits_for_nothing() {
    for plan in [to_file(), form_request(&client(), "/files"), json_request(&client(), "/chat")] {
        for event in all_events() {
            assert_eq!(step(&plan, Phase::Finished, &event), None);
        }
    }
}

#[test]
fn each_phase_takes_its_own_events_only() {
    let plan = to_file();
    let phases = [
        (Phase::Preparing, 2usize),
        (Phase::Sending, 2),
        (Phase::Decoding, 2),
        (Phase::Creating, 2),
        (Phase::Reading, 3),
        (Phase::Writing, 2),
        (Phase::Finished, 0),
    ];
    for (phase, awaited) in phases {
        let taken = all_events().iter().filter(|event| step(&plan, phase, event).is_some()).count();
        assert_eq!(taken, awaited);
    }
    assert_eq!(step(&plan, Phase::Sending, &Event::Prepared), None);
    assert_eq!(step(&plan, Phase::Preparing, &Event::Responded(200)), None);
    assert_eq!(step(&plan, Phase::Writing, &Event::Chunk(Bytes::from_static(b"x"))), None);
    assert_eq!(step(&plan, Phase::Reading, &Event::Written), None);
}

#[test]
fn replay_of_nothing_is_the_opening() {
    assert_eq!(replay(&to_file(), &vec![]), Some((Phase::Sending, vec![Action::Send])));
    assert_eq!(
        replay(&form_request(&client(), "/files"), &vec![]),
        Some((Phase::Preparing, vec![Action::Prepare]))
    );
}

#[test]
fn replay_of_a_json_request() {
    let plan = json_request(&client(), "/chat/completions");
    assert_eq!(
        replay(&plan, &vec![Event::Responded(200), Event::Decoded]),
        Some((Phase::Finished, vec![Action::Send, Action::Decode, Action::Succeed]))
    );
    assert_eq!(
        replay(&plan, &vec![Event::Responded(401), Event::DecodeFailed]),
        Some((Phase::Finished, vec![Action::Send, Action::Decode, Action::Fail(Failure::Decode)]))
    );
    assert_eq!(
        replay(&plan, &vec![Event::SendFailed]),
        Some((Phase::Finished, vec![Action::Send, Action::Fail(Failure::Transport)]))
    );
}

#[test]
fn an_upload_of_a_missing_file_sends_nothing() {
    let plan = form_request(&client(), "/files");
    let course = replay(&plan, &vec![Event::PrepareFailed]);
    assert_eq!(
        course,
        Some((Phase::Finished, vec![Action::Prepare, Action::Fail(Failure::Io)]))
    );
    let (_, actions) = course.unwrap();
    assert!(!actions.contains(&Action::Send));
}

#[test]
fn an_upload_sends_once_the_form_is_built() {
    let plan = form_request(&client(), "/files");
    assert_eq!(
        replay(&plan, &vec![Event::Prepared, Event::Responded(200), Event::Decoded]),
        Some((
            Phase::Finished,
            vec![Action::Prepare, Action::Send, Action::Decode, Action::Succeed]
        ))
    );
}

#[test]
fn a_download_of_an_unknown_identifier_creates_no_file() {
    let course = replay(&to_file(), &vec![Event::Responded(404)]);
    assert_eq!(
        course,
        Some((Phase::Finished, vec![Action::Send, Action::Fail(Failure::Status(404))]))
    );
    let (_, actions) = course.unwrap();
    assert!(!actions.contains(&Action::Create));
    assert_eq!(
        replay(&to_file(), &vec![Event::SendFailed]),
        Some((Phase::Finished, vec![Action::Send, Action::Fail(Failure::Transport)]))
    );
}

#[test]
fn a_download_writes_the_chunks_in_their_order() {
    let first = Bytes::from_static(b"{\"prompt\": \"a\"}\n");
    let second = Bytes::from_static(b"{\"prompt\": \"b\"}\n");
    let events = vec![
        Event::Responded(200),
        Event::Created,
        Event::Chunk(first.clone()),
        Event::Written,
        Event::Chunk(second.clone()),
        Event::Written,
        Event::EndOfBody,
    ];
    let (phase, actions) = replay(&to_file(), &events).unwrap();
    assert_eq!(phase, Phase::Finished);
    assert_eq!(
        actions,
        vec![
            Action::Send,
            Action::Create,
            Action::Read,
            Action::Write(first.clone()),
            Action::Read,
            Action::Write(second.clone()),
            Action::Read,
            Action::Succeed,
        ]
    );
    assert_eq!(actions.len(), events.len() + 1);
    let mut written: Vec<u8> = Vec::new();
    for action in &actions {
        if let Action::Write(chunk) = action {
            written.extend_from_slice(chunk);
        }
    }
    assert_eq!(written, b"{\"prompt\": \"a\"}\n{\"prompt\": \"b\"}\n".to_vec());
}

#[test]
fn an_empty_body_gives_an_empty_file() {
    assert_eq!(
        replay(&to_file(), &vec![Event::Responded(200), Event::Created, Event::EndOfBody]),
        Some((
            Phase::Finished,
            vec![Action::Send, Action::Create, Action::Read, Action::Succeed]
        ))
    );
}

#[test]
fn a_body_that_breaks_off_leaves_what_was_written() {
    let chunk = Bytes::from_static(b"half");
    let events = vec![
        Event::Responded(200),
        Event::Created,
        Event::Chunk(chunk.clone()),
        Event::Written,
        Event::ChunkFailed,
    ];
    assert_eq!(
        replay(&to_file(), &events),
        Some((
            Phase::Finished,
            vec![
                Action::Send,
                Action::Create,
                Action::Read,
                Action::Write(chunk),
                Action::Read,
                Action::Fail(Failure::Transport),
            ]
        ))
    );
}

#[test]
fn a_file_that_cannot_be_created_or_written_fails_locally() {
    assert_eq!(
        replay(&to_file(), &vec![Event::Responded(200), Event::CreateFailed]),
        Some((
            Phase::Finished,
            vec![Action::Send, Action::Create, Action::Fail(Failure::Io)]
        ))
    );
    let chunk = Bytes::from_static(b"x");
    assert_eq!(
        replay(
            &to_file(),
            &vec![Event::Responded(200), Event::Created, Event::Chunk(chunk.clone()), Event::WriteFailed]
        ),
        Some((
            Phase::Finished,
            vec![
                Action::Send,
                Action::Create,
                Action::Read,
                Action::Write(chunk),
                Action::Fail(Failure::Io),
            ]
        ))
    );
}

#[test]
fn a_download_as_chunks_ends_with_the_body_exposed() {
    let plan = download_request(&client(), "/files/", "file-1", "/content");
    assert_eq!(
        replay(&plan, &vec![Event::Responded(200)]),
        Some((Phase::Finished, vec![Action::Send, Action::Expose]))
    );
    assert_eq!(
        replay(&plan, &vec![Event::Responded(403)]),
        Some((Phase::Finished, vec![Action::Send, Action::Fail(Failure::Status(403))]))
    );
}

#[test]
fn an_event_out_of_turn_stops_the_replay() {
    assert_eq!(replay(&to_file(), &vec![Event::Created]), None);
    assert_eq!(replay(&to_file(), &vec![Event::Responded(404), Event::Created]), None);
    assert_eq!(
        replay(&json_request(&client(), "/chat"), &vec![Event::Responded(200), Event::Decoded, Event::Decoded]),
        None
    );
    assert_eq!(replay(&form_request(&client(), "/files"), &vec![Event::Responded(200)]), None);
}
