//! The client handle: base address, credential and connection pool.
use vstd::prelude::*;
use reqwest::Client;

verus! {

#[verifier::external_type_specification]
#[verifier::external_body]
pub struct ExClient(reqwest::Client);

#[verifier::external_type_specification]
#[verifier::external_body]
pub struct ExError(reqwest::Error);

/// Calls `reqwest::ClientBuilder::build` on the builder that
/// `reqwest::Client::builder` gives: a connection pool with the default
/// configuration, or the error that kept it from being built. Nothing is
/// claimed of either.
#[verifier::external_body]
fn fresh_pool() -> (pool: Result<Client, reqwest::Error>) {
    Client::builder().build()
}

/// `Clone::clone` on a `reqwest::Client`: the clone is a second handle on the
/// same pool, which is what the equality stands for.
pub assume_specification[ <reqwest::Client as Clone>::clone ](pool: &reqwest::Client) -> (shared:
    reqwest::Client)
    ensures
        shared == *pool,
;

/// The address that a client talks to unless it is given another.
pub const DEFAULT_URL: &'static str = "https://api.openai.com/v1";

/// Why no client was made: a connection pool of its own could not be built.
#[derive(Debug)]
pub struct PoolError {
    /// What kept the pool from being built.
    pub cause: reqwest::Error,
}

/// Base address, credential and connection pool of one remote service.
/// Nothing changes it once it is built.
#[derive(Debug, Clone)]
pub struct OpenAiClient {
    url: String,
    key: String,
    client: Client,
}

impl OpenAiClient {
    /// The base address, as text.
    pub closed spec fn base(&self) -> Seq<char> {
        self.url@
    }

    /// The credential, as text.
    pub closed spec fn credential(&self) -> Seq<char> {
        self.key@
    }

    /// The connection pool.
    pub closed spec fn pool(&self) -> Client {
        self.client
    }

    /// A client for the default address, with a pool of its own. Fails where
    /// the pool cannot be built, and only there.
    pub fn new(key: &str) -> (made: Result<Self, PoolError>)
        ensures
            match made {
                Ok(made) => made.base() == DEFAULT_URL@ && made.credential() == key@,
                Err(_) => true,
            },
    {
        OpenAiClient::on_pool(key, DEFAULT_URL, fresh_pool())
    }

    /// A client for the default address on a pool that others may share.
    pub fn with_client(key: &str, client: &Client) -> (made: Self)
        ensures
            made.base() == DEFAULT_URL@,
            made.credential() == key@,
            made.pool() == *client,
    {
        OpenAiClient::with_url_and_client(key, DEFAULT_URL, client)
    }

    /// A client for `url`, with a pool of its own. Fails where the pool
    /// cannot be built, and only there.
    pub fn with_url(key: &str, url: &str) -> (made: Result<Self, PoolError>)
        ensures
            match made {
                Ok(made) => made.base() == url@ && made.credential() == key@,
                Err(_) => true,
            },
    {
        OpenAiClient::on_pool(key, url, fresh_pool())
    }

    /// A client for `url` on the pool that was built for it, or the error
    /// that kept the pool from being built.
    pub fn on_pool(key: &str, url: &str, built: Result<Client, reqwest::Error>) -> (made: Result<
        Self,
        PoolError,
    >)
        ensures
            match built {
                Ok(pool) => made is Ok && made->Ok_0.base() == url@ && made->Ok_0.credential()
                    == key@ && made->Ok_0.pool() == pool,
                Err(cause) => made is Err && made->Err_0.cause == cause,
            },
    {
        match built {
            Ok(pool) => Ok(OpenAiClient::with_url_and_client(key, url, &pool)),
            Err(cause) => Err(PoolError { cause }),
        }
    }

    /// A client for `url` on a pool that others may share.
    pub fn with_url_and_client(key: &str, url: &str, client: &Client) -> (made: Self)
        ensures
            made.base() == url@,
            made.credential() == key@,
            made.pool() == *client,
    {
        OpenAiClient { url: url.to_owned(), key: key.to_owned(), client: client.clone() }
    }

    /// The base address.
    pub fn url(&self) -> (text: &str)
        ensures
            text@ == self.base(),
    {
        self.url.as_str()
    }

    /// The credential.
    pub fn key(&self) -> (text: &str)
        ensures
            text@ == self.credential(),
    {
        self.key.as_str()
    }

    /// The connection pool.
    pub fn http(&self) -> (pool: &Client)
        ensures
            *pool == self.pool(),
    {
        &self.client
    }
}

} // verus!
