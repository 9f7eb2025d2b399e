//! The two requests on models: the list of all, and one by its identifier.
use vstd::prelude::*;
use crate::client::OpenAiClient;
use crate::request::{RequestPlan, get_plan, by_url_plan, get_request, by_url_request};

verus! {

/// The endpoint that lists the models.
pub const MODELS_ENDPOINT: &'static str = "/models";

/// The endpoint under which each model stands by its identifier.
pub const MODEL_ENDPOINT: &'static str = "/models/";

/// What follows a model's identifier in its address: nothing.
pub const MODEL_SUFFIX: &'static str = "";

/// Plans the listing of the models.
pub fn models_request(client: &OpenAiClient) -> (plan: RequestPlan)
    ensures
        plan@ == get_plan(client.base(), client.credential(), MODELS_ENDPOINT@),
        plan@.url == client.base() + "/models"@,
{
    get_request(client, MODELS_ENDPOINT)
}

/// Plans the lookup of the model `id`.
pub fn model_request(client: &OpenAiClient, id: &str) -> (plan: RequestPlan)
    ensures
        plan@ == by_url_plan(
            client.base(),
            client.credential(),
            MODEL_ENDPOINT@,
            id@,
            MODEL_SUFFIX@,
        ),
        plan@.url == client.base() + "/models/"@ + id@,
{
    proof {
        reveal_strlit("");
        assert((client.base() + "/models/"@ + id@) + ""@ =~= client.base() + "/models/"@ + id@);
    }
    by_url_request(client, MODEL_ENDPOINT, id, MODEL_SUFFIX)
}

} // verus!
