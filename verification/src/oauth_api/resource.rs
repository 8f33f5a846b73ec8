//! Schema of the `OAuthApi` resource and its derived endpoint URLs.
//!
//! URL derivation is literal string concatenation of the configured base URL,
//! endpoint path and static query parameters; no URL encoding is applied.
use vstd::prelude::*;
use vstd::pervasive::unreached;
use crate::kubernetes::meta::ObjectMeta;

verus! {

/// Spec of the `OAuthApi` resource: an auth method and the provider's HTTP
/// configuration.
#[derive(Clone)]
pub struct OAuthApiKind {
    pub auth: Option<AuthSpecs>,
    pub http: HttpApi,
}

/// The name the spec struct carries on the wire.
pub type OAuthApiSpec = OAuthApiKind;

/// One `OAuthApi` object as watched from the cluster.
#[derive(Clone)]
pub struct OAuthApi {
    pub metadata: ObjectMeta,
    pub spec: OAuthApiKind,
    pub status: Option<OAuthApiStatus>,
}

/// HTTP configuration of a provider.
#[derive(Clone)]
pub struct HttpApi {
    pub base_url: String,
    pub authorization_header_prefix: Option<String>,
    pub headers: Vec<HttpHeaders>,
}

/// One static header sent to the provider.
#[derive(Clone)]
pub struct HttpHeaders {
    pub key: String,
    pub value: String,
}

/// Phase of a provider definition; it is `Registered` as soon as it has been
/// reconciled once.
#[derive(Clone, Copy, Debug, PartialEq, Eq, Structural)]
pub enum OAuthApiPhase {
    Registered,
}

/// Status subresource of an `OAuthApi`.
#[derive(Clone)]
pub struct OAuthApiStatus {
    pub phase: Option<OAuthApiPhase>,
}

/// Tagged auth method of a provider. Only the OAuth2 authorization-code
/// grant exists today.
#[derive(Clone)]
pub enum AuthSpecs {
    OAuth2(OAuth2Spec),
}

/// OAuth2 endpoints and static parameters of a provider.
#[derive(Clone)]
pub struct OAuth2Spec {
    pub authorization_url: String,
    pub authorization_params: Vec<AuthorizationParams>,
    pub refresh_url: Option<String>,
    pub token_url: String,
    pub token_params: Option<TokenParams>,
}

/// One static query parameter attached to every authorization redirect.
#[derive(Clone)]
pub struct AuthorizationParams {
    pub key: String,
    pub value: String,
}

/// Static parameters for the token endpoint.
#[derive(Clone)]
pub struct TokenParams {
    pub grant_type: String,
}

/// The query fragment built from the static authorization parameters:
/// `&k=v` appended for each parameter, in order, duplicates kept.
pub open spec fn spec_authorization_params(ps: Seq<AuthorizationParams>) -> Seq<char>
    decreases ps.len(),
{
    if ps.len() == 0 {
        Seq::<char>::empty()
    } else {
        spec_authorization_params(ps.drop_last()) + "&"@ + ps.last().key@ + "="@
            + ps.last().value@
    }
}

/// The provider's authorization endpoint:
/// `<base>/<authorization_url>?<params>`.
pub open spec fn spec_authorization_url(api: OAuthApi) -> Seq<char>
    recommends
        api.spec.auth is Some,
{
    match api.spec.auth {
        Some(AuthSpecs::OAuth2(s)) => api.spec.http.base_url@ + "/"@ + s.authorization_url@
            + "?"@ + spec_authorization_params(s.authorization_params@),
        None => Seq::<char>::empty(),
    }
}

/// The provider's token endpoint: `<base>/<token_url>`.
pub open spec fn spec_token_url(api: OAuthApi) -> Seq<char>
    recommends
        api.spec.auth is Some,
{
    match api.spec.auth {
        Some(AuthSpecs::OAuth2(s)) => api.spec.http.base_url@ + "/"@ + s.token_url@,
        None => Seq::<char>::empty(),
    }
}

impl OAuthApi {
    /// The full authorization endpoint URL of this provider, static query
    /// parameters included.
    pub fn get_authorization_url(&self) -> (r: String)
        requires
            self.spec.auth is Some,
        ensures
            r@ == spec_authorization_url(*self),
    {
        match &self.spec.auth {
            Some(AuthSpecs::OAuth2(oauth)) => {
                let mut r = self.spec.http.base_url.clone();
                r.append("/");
                r.append(oauth.authorization_url.as_str());
                r.append("?");
                let params = oauth.get_authorization_params();
                r.append(params.as_str());
                r
            },
            None => unreached(),
        }
    }

    /// The token endpoint URL of this provider.
    pub fn get_token_url(&self) -> (r: String)
        requires
            self.spec.auth is Some,
        ensures
            r@ == spec_token_url(*self),
    {
        match &self.spec.auth {
            Some(AuthSpecs::OAuth2(oauth)) => {
                let mut r = self.spec.http.base_url.clone();
                r.append("/");
                r.append(oauth.token_url.as_str());
                r
            },
            None => unreached(),
        }
    }
}

impl OAuth2Spec {
    /// Joins the static authorization parameters into a query fragment,
    /// order preserved, duplicates not deduplicated.
    pub fn get_authorization_params(&self) -> (r: String)
        ensures
            r@ == spec_authorization_params(self.authorization_params@),
    {
        let mut acc = String::new();
        let n = self.authorization_params.len();
        let mut i: usize = 0;
        proof {
            assert(self.authorization_params@.take(0) =~= Seq::<AuthorizationParams>::empty());
        }
        while i < n
            invariant
                i <= n,
                n == self.authorization_params@.len(),
                acc@ == spec_authorization_params(self.authorization_params@.take(i as int)),
            decreases n - i,
        {
            let p = &self.authorization_params[i];
            acc.append("&");
            acc.append(p.key.as_str());
            acc.append("=");
            acc.append(p.value.as_str());
            proof {
                let taken = self.authorization_params@.take(i + 1);
                assert(taken.drop_last() =~= self.authorization_params@.take(i as int));
                assert(taken.last() == self.authorization_params@[i as int]);
            }
            i = i + 1;
        }
        proof {
            assert(self.authorization_params@.take(n as int) =~= self.authorization_params@);
        }
        acc
    }
}

} // verus!
