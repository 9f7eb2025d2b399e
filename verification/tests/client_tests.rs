use openai_api::client::DEFAULT_URL;
use openai_api::OpenAiClient;

#[test]
fn default_address_is_the_public_origin() {
    assert_eq!(DEFAULT_URL, "https://api.openai.com/v1");
}

#[test]
fn new_keeps_key_and_default_address() {
    let client = OpenAiClient::new("key-1").unwrap();
    assert_eq!(client.key(), "key-1");
    assert_eq!(client.url(), "https://api.openai.com/v1");
}

#[test]
fn with_url_keeps_key_and_address() {
    let client = OpenAiClient::with_url("key-1", "http://localhost:8080/v1").unwrap();
    assert_eq!(client.key(), "key-1");
    assert_eq!(client.url(), "http://localhost:8080/v1");
}

#[test]
fn with_client_keeps_key_and_default_address() {
    let pool = reqwest::Client::new();
    let client = OpenAiClient::with_client("abc", &pool);
    assert_eq!(client.key(), "abc");
    assert_eq!(client.url(), "https://api.openai.com/v1");
}

#[test]
fn with_url_and_client_keeps_all_three() {
    let pool = reqwest::Client::new();
    let first = OpenAiClient::with_url_and_client("one", "http://a", &pool);
    let second = OpenAiClient::with_url_and_client("two", "http://b", &pool);
    assert_eq!(first.key(), "one");
    assert_eq!(first.url(), "http://a");
    assert_eq!(second.key(), "two");
    assert_eq!(second.url(), "http://b");
    let _shared: &reqwest::Client = first.http();
}

#[test]
fn empty_key_and_address_are_kept_as_they_are() {
    let client = OpenAiClient::with_url("", "").unwrap();
    assert_eq!(client.key(), "");
    assert_eq!(client.url(), "");
}

#[test]
fn a_clone_is_the_same_client() {
    let client = OpenAiClient::with_url("k", "http://h").unwrap();
    let second = client.clone();
    assert_eq!(second.key(), "k");
    assert_eq!(second.url(), "http://h");
}

#[test]
fn a_pool_that_was_built_gives_a_client() {
    let built = reqwest::Client::builder().build();
    let client = OpenAiClient::on_pool("k", "http://h", built).unwrap();
    assert_eq!(client.key(), "k");
    assert_eq!(client.url(), "http://h");
}

#[test]
fn a_pool_that_was_not_built_gives_its_error() {
    let refused = reqwest::Client::builder().user_agent("not\nallowed").build();
    assert!(refused.is_err());
    let expected = format!("{:?}", refused.as_ref().err().unwrap());
    let made = OpenAiClient::on_pool("k", "http://h", refused);
    match made {
        Ok(_) => panic!("a client was made without a pool"),
        Err(error) => {
            assert!(error.cause.is_builder());
            assert_eq!(format!("{:?}", error.cause), expected);
        }
    }
}
