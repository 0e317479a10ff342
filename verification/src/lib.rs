//! DeepSeek API client: the verified core.
//!
//! The library holds the request and response models of the DeepSeek API, the
//! request builders with their validation rules, the error model, the decisions taken
//! on an HTTP response, and the state machine that consumes a server-sent event stream.
//! Sending requests and parsing JSON bodies happen in the surrounding application layer.
pub mod balance;
pub mod chat;
pub mod completion;
pub mod error;
pub mod float_bits;
pub mod http;
pub mod models;
pub mod stream;
pub mod text;
pub mod validation;

pub use error::DeepSeekError;

use vstd::prelude::*;

verus! {

/// The HTTP client of the `reqwest` crate; the library carries it without looking inside.
#[verifier::external_type_specification]
#[verifier::external_body]
pub struct ExReqwestClient(reqwest::Client);

/// The HTTP client builder of the `reqwest` crate, carried from one call to the next.
#[verifier::external_type_specification]
#[verifier::external_body]
pub struct ExReqwestClientBuilder(reqwest::ClientBuilder);

/// Gives `<reqwest::Client as Clone>::clone` a contract, for the derived `Clone` of
/// `DeepSeekClient`. The clone shares the original's connection pool; nothing is stated of it.
pub assume_specification[ <reqwest::Client as Clone>::clone ](client: &reqwest::Client) -> reqwest::Client;

/// A JSON value of the `serde_json` crate (tool parameter schemas, named tool choices).
#[verifier::external_type_specification]
#[verifier::external_body]
pub struct ExJsonValue(serde_json::Value);

/// Gives `<serde_json::Value as Clone>::clone` a contract, for the derived `Clone` of the
/// tool types. `Value` derives `Clone`, so the copy is the same value.
pub assume_specification[ <serde_json::Value as Clone>::clone ](value: &serde_json::Value) -> (res: serde_json::Value)
    ensures
        res == *value,
;

/// Default base URL for stable API endpoints.
pub const DEFAULT_BASE_URL: &'static str = "https://api.deepseek.com";

/// Default base URL for beta endpoints (e.g. FIM completion).
pub const DEFAULT_BETA_BASE_URL: &'static str = "https://api.deepseek.com/beta";

/// API credentials for a DeepSeek endpoint.
#[derive(Clone, Debug)]
pub struct Credentials {
    pub api_key: String,
    pub base_url: String,
}

impl Credentials {
    /// Create credentials with an API key and base URL.
    pub fn new(api_key: &str, base_url: &str) -> (res: Credentials)
        ensures
            res.api_key@ == api_key@,
            res.base_url@ == base_url@,
    {
        Credentials { api_key: String::from_str(api_key), base_url: String::from_str(base_url) }
    }
}

impl PartialEq for Credentials {
    fn eq(&self, other: &Self) -> (res: bool) {
        self.api_key == other.api_key && self.base_url == other.base_url
    }
}

impl vstd::std_specs::cmp::PartialEqSpecImpl for Credentials {
    open spec fn obeys_eq_spec() -> bool {
        true
    }

    open spec fn eq_spec(&self, other: &Self) -> bool {
        self.api_key@ == other.api_key@ && self.base_url@ == other.base_url@
    }
}

impl Eq for Credentials {

}

/// A DeepSeek API client: credentials plus the HTTP client that carries the requests.
#[derive(Clone, Debug)]
pub struct DeepSeekClient {
    pub credentials: Credentials,
    pub client: reqwest::Client,
}

/// Calls `reqwest::Client::builder` (the same as `ClientBuilder::new`): a builder with
/// reqwest's default configuration. Nothing is stated of it; the library only hands it on.
#[verifier::external_body]
fn http_client_builder() -> reqwest::ClientBuilder {
    reqwest::Client::builder()
}

/// Calls `reqwest::ClientBuilder::build`. It fails with an error when no TLS backend can
/// be initialised or the resolver cannot load the system configuration; which outcome
/// comes depends on the machine, so nothing is stated of it.
#[verifier::external_body]
fn build_http_client(builder: reqwest::ClientBuilder) -> Result<reqwest::Client, reqwest::Error> {
    builder.build()
}

impl DeepSeekClient {
    /// A client for the given API key and base URL, with a fresh HTTP client of reqwest's
    /// default configuration; the error of reqwest when that client cannot be set up.
    pub fn new(api_key: &str, base_url: &str) -> (res: Result<DeepSeekClient, DeepSeekError>)
        ensures
            res matches Ok(c) ==> c.credentials.api_key@ == api_key@ && c.credentials.base_url@
                == base_url@,
            res matches Err(e) ==> e is Transport,
    {
        match build_http_client(http_client_builder()) {
            Ok(client) => Ok(DeepSeekClient { credentials: Credentials::new(api_key, base_url), client }),
            Err(err) => Err(DeepSeekError::from_reqwest(err)),
        }
    }

    /// Replace the HTTP client, keeping the credentials.
    pub fn with_client(self, client: reqwest::Client) -> (res: DeepSeekClient)
        ensures
            res.credentials == self.credentials,
            res.client == client,
    {
        DeepSeekClient { credentials: self.credentials, client }
    }

    /// Replace the credentials, keeping the HTTP client.
    pub fn with_credentials(self, api_key: &str, base_url: &str) -> (res: DeepSeekClient)
        ensures
            res.credentials.api_key@ == api_key@,
            res.credentials.base_url@ == base_url@,
            res.client == self.client,
    {
        DeepSeekClient { credentials: Credentials::new(api_key, base_url), client: self.client }
    }

    /// The full URL of an API route: the base URL followed by the route.
    pub fn endpoint(&self, route: &str) -> (res: String)
        ensures
            res@ == self.credentials.base_url@ + route@,
    {
        let mut url = self.credentials.base_url.clone();
        url.append(route);
        url
    }

    /// The value of the `Authorization` header: `Bearer ` followed by the API key.
    pub fn authorization(&self) -> (res: String)
        ensures
            res@ == "Bearer "@ + self.credentials.api_key@,
    {
        let mut value = String::from_str("Bearer ");
        value.append(self.credentials.api_key.as_str());
        value
    }
}

impl PartialEq for DeepSeekClient {
    /// Two clients are equal when their credentials are; the HTTP clients are not compared.
    fn eq(&self, other: &Self) -> (res: bool) {
        self.credentials == other.credentials
    }
}

impl vstd::std_specs::cmp::PartialEqSpecImpl for DeepSeekClient {
    open spec fn obeys_eq_spec() -> bool {
        true
    }

    open spec fn eq_spec(&self, other: &Self) -> bool {
        self.credentials.api_key@ == other.credentials.api_key@ && self.credentials.base_url@
            == other.credentials.base_url@
    }
}

impl Eq for DeepSeekClient {

}

/// Client equality looks at the credentials alone: a client with its HTTP client
/// replaced is equal to what it was, and clients with different credentials differ.
pub proof fn lemma_client_equality_is_credential_equality(
    a: DeepSeekClient,
    b: DeepSeekClient,
    http: reqwest::Client,
)
    ensures
        vstd::std_specs::cmp::PartialEqSpec::eq_spec(
            &a,
            &DeepSeekClient { credentials: a.credentials, client: http },
        ),
        vstd::std_specs::cmp::PartialEqSpec::eq_spec(&a, &b) <==> (a.credentials.api_key@ == b.credentials.api_key@
            && a.credentials.base_url@ == b.credentials.base_url@),
{
}

} // verus!
