//! Requests as plain data: what is sent, where, and how the answer is taken.
use vstd::prelude::*;
use vstd::string::StringExecFns;
use crate::client::OpenAiClient;

verus! {

/// The verb of a request.
#[derive(Debug, Clone, Copy, PartialEq, Eq, Structural)]
pub enum Method {
    Get,
    Post,
    Put,
    Patch,
    Delete,
    Head,
}

/// What a request carries as its body.
#[derive(Debug, Clone, Copy, PartialEq, Eq, Structural)]
pub enum Payload {
    /// No body.
    Empty,
    /// The request value itself, as JSON.
    Json,
    /// A multipart form that the request value is converted into.
    Form,
}

/// How the answer's body is taken.
#[derive(Debug, Clone, PartialEq, Eq)]
pub enum Delivery {
    /// Decoded into the envelope of the endpoint, whatever the status.
    Envelope,
    /// Handed to the caller as a sequence of chunks, on a success status.
    Chunks,
    /// Written chunk by chunk to the file at this path, on a success status.
    File(String),
}

/// A `Delivery` with its path as text.
pub enum Sink {
    Envelope,
    Chunks,
    File(Seq<char>),
}

impl View for Delivery {
    type V = Sink;

    open spec fn view(&self) -> Sink {
        match *self {
            Delivery::Envelope => Sink::Envelope,
            Delivery::Chunks => Sink::Chunks,
            Delivery::File(path) => Sink::File(path@),
        }
    }
}

/// One request, ready to be sent.
#[derive(Debug, Clone, PartialEq, Eq)]
pub struct RequestPlan {
    pub method: Method,
    /// The full address.
    pub url: String,
    /// The credential of the bearer header.
    pub bearer: String,
    pub payload: Payload,
    pub delivery: Delivery,
}

/// A `RequestPlan` with its strings as text.
pub struct PlanModel {
    pub method: Method,
    pub url: Seq<char>,
    pub bearer: Seq<char>,
    pub payload: Payload,
    pub sink: Sink,
}

impl View for RequestPlan {
    type V = PlanModel;

    open spec fn view(&self) -> PlanModel {
        PlanModel {
            method: self.method,
            url: self.url@,
            bearer: self.bearer@,
            payload: self.payload,
            sink: self.delivery@,
        }
    }
}

impl PlanModel {
    /// Whether the answer's status decides if the body is taken at all.
    pub open spec fn checks_status(self) -> bool {
        !(self.sink is Envelope)
    }
}

/// The address of an endpoint: base and endpoint, nothing between them.
pub open spec fn endpoint_address(base: Seq<char>, endpoint: Seq<char>) -> Seq<char> {
    base + endpoint
}

/// The address of one resource: base, endpoint, identifier and suffix, in
/// this order and with nothing between them.
pub open spec fn resource_address(
    base: Seq<char>,
    endpoint: Seq<char>,
    id: Seq<char>,
    suffix: Seq<char>,
) -> Seq<char> {
    base + endpoint + id + suffix
}

/// Posting a value as JSON to an endpoint.
pub open spec fn json_plan(base: Seq<char>, key: Seq<char>, endpoint: Seq<char>) -> PlanModel {
    PlanModel {
        method: Method::Post,
        url: endpoint_address(base, endpoint),
        bearer: key,
        payload: Payload::Json,
        sink: Sink::Envelope,
    }
}

/// Getting what an endpoint lists.
pub open spec fn get_plan(base: Seq<char>, key: Seq<char>, endpoint: Seq<char>) -> PlanModel {
    PlanModel {
        method: Method::Get,
        url: endpoint_address(base, endpoint),
        bearer: key,
        payload: Payload::Empty,
        sink: Sink::Envelope,
    }
}

/// Getting one resource by its identifier.
pub open spec fn by_url_plan(
    base: Seq<char>,
    key: Seq<char>,
    endpoint: Seq<char>,
    id: Seq<char>,
    suffix: Seq<char>,
) -> PlanModel {
    PlanModel {
        method: Method::Get,
        url: resource_address(base, endpoint, id, suffix),
        bearer: key,
        payload: Payload::Empty,
        sink: Sink::Envelope,
    }
}

/// Posting a multipart form to an endpoint.
pub open spec fn form_plan(base: Seq<char>, key: Seq<char>, endpoint: Seq<char>) -> PlanModel {
    PlanModel {
        method: Method::Post,
        url: endpoint_address(base, endpoint),
        bearer: key,
        payload: Payload::Form,
        sink: Sink::Envelope,
    }
}

/// Getting the content of one resource as chunks.
pub open spec fn download_plan(
    base: Seq<char>,
    key: Seq<char>,
    endpoint: Seq<char>,
    id: Seq<char>,
    suffix: Seq<char>,
) -> PlanModel {
    PlanModel {
        method: Method::Get,
        url: resource_address(base, endpoint, id, suffix),
        bearer: key,
        payload: Payload::Empty,
        sink: Sink::Chunks,
    }
}

/// Getting the content of one resource into a file.
pub open spec fn download_to_file_plan(
    base: Seq<char>,
    key: Seq<char>,
    endpoint: Seq<char>,
    id: Seq<char>,
    suffix: Seq<char>,
    target: Seq<char>,
) -> PlanModel {
    PlanModel { sink: Sink::File(target), ..download_plan(base, key, endpoint, id, suffix) }
}

impl OpenAiClient {
    /// The address of `endpoint` at this client's base.
    pub fn endpoint_url(&self, endpoint: &str) -> (address: String)
        ensures
            address@ == endpoint_address(self.base(), endpoint@),
    {
        self.url().to_owned().concat(endpoint)
    }

    /// The address of the resource `id` under `endpoint` at this client's base.
    pub fn resource_url(&self, endpoint: &str, id: &str, suffix: &str) -> (address: String)
        ensures
            address@ == resource_address(self.base(), endpoint@, id@, suffix@),
    {
        self.url().to_owned().concat(endpoint).concat(id).concat(suffix)
    }
}

/// Plans the posting of a value as JSON to `endpoint`.
pub fn json_request(client: &OpenAiClient, endpoint: &str) -> (plan: RequestPlan)
    ensures
        plan@ == json_plan(client.base(), client.credential(), endpoint@),
{
    RequestPlan {
        method: Method::Post,
        url: client.endpoint_url(endpoint),
        bearer: client.key().to_owned(),
        payload: Payload::Json,
        delivery: Delivery::Envelope,
    }
}

/// Plans the getting of what `endpoint` lists.
pub fn get_request(client: &OpenAiClient, endpoint: &str) -> (plan: RequestPlan)
    ensures
        plan@ == get_plan(client.base(), client.credential(), endpoint@),
{
    RequestPlan {
        method: Method::Get,
        url: client.endpoint_url(endpoint),
        bearer: client.key().to_owned(),
        payload: Payload::Empty,
        delivery: Delivery::Envelope,
    }
}

/// Plans the getting of the resource `id` under `endpoint`.
pub fn by_url_request(client: &OpenAiClient, endpoint: &str, id: &str, suffix: &str) -> (plan:
    RequestPlan)
    ensures
        plan@ == by_url_plan(client.base(), client.credential(), endpoint@, id@, suffix@),
{
    RequestPlan {
        method: Method::Get,
        url: client.resource_url(endpoint, id, suffix),
        bearer: client.key().to_owned(),
        payload: Payload::Empty,
        delivery: Delivery::Envelope,
    }
}

/// Plans the posting of a multipart form to `endpoint`.
pub fn form_request(client: &OpenAiClient, endpoint: &str) -> (plan: RequestPlan)
    ensures
        plan@ == form_plan(client.base(), client.credential(), endpoint@),
{
    RequestPlan {
        method: Method::Post,
        url: client.endpoint_url(endpoint),
        bearer: client.key().to_owned(),
        payload: Payload::Form,
        delivery: Delivery::Envelope,
    }
}

/// Plans the download of the resource `id` under `endpoint` as chunks.
pub fn download_request(client: &OpenAiClient, endpoint: &str, id: &str, suffix: &str) -> (plan:
    RequestPlan)
    ensures
        plan@ == download_plan(client.base(), client.credential(), endpoint@, id@, suffix@),
{
    RequestPlan {
        method: Method::Get,
        url: client.resource_url(endpoint, id, suffix),
        bearer: client.key().to_owned(),
        payload: Payload::Empty,
        delivery: Delivery::Chunks,
    }
}

/// Plans the download of the resource `id` under `endpoint` into the file at
/// `target_path`.
pub fn download_to_file_request(
    client: &OpenAiClient,
    endpoint: &str,
    id: &str,
    suffix: &str,
    target_path: &str,
) -> (plan: RequestPlan)
    ensures
        plan@ == download_to_file_plan(
            client.base(),
            client.credential(),
            endpoint@,
            id@,
            suffix@,
            target_path@,
        ),
{
    RequestPlan {
        method: Method::Get,
        url: client.resource_url(endpoint, id, suffix),
        bearer: client.key().to_owned(),
        payload: Payload::Empty,
        delivery: Delivery::File(target_path.to_owned()),
    }
}

impl RequestPlan {
    /// The same request under another verb.
    pub fn with_method(self, method: Method) -> (plan: RequestPlan)
        ensures
            plan@ == (PlanModel { method: method, ..self@ }),
    {
        RequestPlan {
            method,
            url: self.url,
            bearer: self.bearer,
            payload: self.payload,
            delivery: self.delivery,
        }
    }
}

/// A plan is settled by the base address, the credential and what the request
/// names: two clients that agree on address and credential plan every request
/// alike, whatever pools they hold.
pub proof fn lemma_plans_agree(
    first: OpenAiClient,
    second: OpenAiClient,
    endpoint: Seq<char>,
    id: Seq<char>,
    suffix: Seq<char>,
    target: Seq<char>,
)
    requires
        first.base() == second.base(),
        first.credential() == second.credential(),
    ensures
        json_plan(first.base(), first.credential(), endpoint) == json_plan(
            second.base(),
            second.credential(),
            endpoint,
        ),
        get_plan(first.base(), first.credential(), endpoint) == get_plan(
            second.base(),
            second.credential(),
            endpoint,
        ),
        form_plan(first.base(), first.credential(), endpoint) == form_plan(
            second.base(),
            second.credential(),
            endpoint,
        ),
        by_url_plan(first.base(), first.credential(), endpoint, id, suffix) == by_url_plan(
            second.base(),
            second.credential(),
            endpoint,
            id,
            suffix,
        ),
        download_plan(first.base(), first.credential(), endpoint, id, suffix) == download_plan(
            second.base(),
            second.credential(),
            endpoint,
            id,
            suffix,
        ),
        download_to_file_plan(first.base(), first.credential(), endpoint, id, suffix, target)
            == download_to_file_plan(
            second.base(),
            second.credential(),
            endpoint,
            id,
            suffix,
            target,
        ),
{
}

/// The address of a resource begins with the base and ends with the suffix,
/// and is as long as its four parts together: nothing is put between them.
pub proof fn lemma_resource_address_parts(
    base: Seq<char>,
    endpoint: Seq<char>,
    id: Seq<char>,
    suffix: Seq<char>,
)
    ensures
        resource_address(base, endpoint, id, suffix).len() == base.len() + endpoint.len()
            + id.len() + suffix.len(),
        resource_address(base, endpoint, id, suffix).subrange(0, base.len() as int) == base,
        resource_address(base, endpoint, id, suffix).subrange(
            base.len() as int,
            (base.len() + endpoint.len()) as int,
        ) == endpoint,
        resource_address(base, endpoint, id, suffix).subrange(
            (base.len() + endpoint.len()) as int,
            (base.len() + endpoint.len() + id.len()) as int,
        ) == id,
        resource_address(base, endpoint, id, suffix).subrange(
            (base.len() + endpoint.len() + id.len()) as int,
            (base.len() + endpoint.len() + id.len() + suffix.len()) as int,
        ) == suffix,
        resource_address(base, endpoint, id, Seq::empty()) == base + endpoint + id,
{
    let whole = resource_address(base, endpoint, id, suffix);
    assert(whole.subrange(0, base.len() as int) =~= base);
    assert(whole.subrange(base.len() as int, (base.len() + endpoint.len()) as int) =~= endpoint);
    assert(whole.subrange(
        (base.len() + endpoint.len()) as int,
        (base.len() + endpoint.len() + id.len()) as int,
    ) =~= id);
    assert(whole.subrange(
        (base.len() + endpoint.len() + id.len()) as int,
        (base.len() + endpoint.len() + id.len() + suffix.len()) as int,
    ) =~= suffix);
    assert(resource_address(base, endpoint, id, Seq::empty()) =~= base + endpoint + id);
}

} // verus!
