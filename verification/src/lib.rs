//! A Kubernetes operator core for OAuth2 connection lifecycle management.
//!
//! Two custom resources are modelled here: an `OAuthApi` describing an OAuth2
//! provider, and an `OAuthConnection` describing one credential lifecycle
//! against such a provider. The reconciliation state machine, the credential
//! resolution rules and the OAuth2 flow computations live in this crate with
//! full contracts; the watch loops, HTTP routing and Kubernetes API calls
//! that drive them are ordinary glue kept outside.
use vstd::prelude::*;

pub mod kubernetes;
pub mod oauth_api;
pub mod oauth_connection;
pub mod oauth_client;
pub mod timefmt;

verus! {

/// API group of the custom resources.
pub const RESOURCE_NAMESPACE: &'static str = "chappaai.dev";

/// API version of the custom resources.
pub const RESOURCE_VERSION: &'static str = "v1";

/// The `apiVersion` field written into every status patch document.
pub fn api_version() -> (r: String)
    ensures
        r@ == RESOURCE_NAMESPACE@ + "/"@ + RESOURCE_VERSION@,
{
    let mut r = RESOURCE_NAMESPACE.to_owned();
    r.append("/");
    r.append(RESOURCE_VERSION);
    r
}

/// Why client credentials could not be resolved from the referenced secret.
/// Each variant carries the name of the secret or key involved.
#[derive(Clone, Debug)]
pub enum CredentialError {
    /// The referenced secret does not exist.
    MissingSecret(String),
    /// The secret exists but lacks the configured key.
    MissingKey(String),
    /// The key is present but its value is not valid UTF-8 text.
    NotUtf8(String),
}

/// Error taxonomy of the operator. Recoverable conditions are translated into
/// state-machine transitions by the reconciler; the rest bubble to the outer
/// requeue policy.
#[derive(Clone, Debug)]
pub enum Error {
    /// A resource or secret is absent.
    NotFound,
    /// Client id/secret resolution failed.
    CredentialResolution(CredentialError),
    /// A code or refresh exchange against the token endpoint failed.
    TokenExchangeFailed(String),
    /// A status patch or secret write failed.
    ApiWriteError(String),
    /// An endpoint or redirect URL could not be parsed as a URL.
    InvalidUrl,
}

} // verus!
