//! The OAuth2 authorization-code-grant client descriptor, and the
//! construction of the authorization redirect URL through the `oauth2`
//! crate.
use vstd::prelude::*;
use crate::kubernetes::secrets::{key_resolves, key_value, Secret};
use crate::oauth_api::resource::{spec_authorization_url, spec_token_url, OAuthApi};
use crate::oauth_connection::resource::{
    deref_secret, load_keys_spec, spec_secret_ref, OAuthConnection,
};
use crate::CredentialError;

verus! {

/// An authorization-code-grant client configuration for one
/// (provider, connection) pair: both endpoints, the resolved client
/// credentials, and the caller-supplied redirect URL.
pub struct OAuthClientConfig {
    pub auth_url: String,
    pub token_url: String,
    pub client_id: String,
    pub client_secret: String,
    pub redirect_url: String,
}

/// Builds the client configuration for `oac` against `oaa`: resolves the
/// client credentials from the referenced secret and derives both endpoint
/// URLs. Fails exactly when credential resolution fails.
pub fn oauth_basic_client(
    oac: &OAuthConnection,
    oaa: &OAuthApi,
    secret: Option<&Secret>,
    redirect_url: String,
) -> (r: Result<OAuthClientConfig, CredentialError>)
    requires
        oaa.spec.auth is Some,
    ensures
        r is Ok <==> (deref_secret(secret) matches Some(s) && key_resolves(
            s,
            spec_secret_ref(*oac).id_key@,
        ) && key_resolves(s, spec_secret_ref(*oac).secret_key@)),
        r matches Ok(c) ==> {
            &&& deref_secret(secret) matches Some(s)
            &&& c.client_id@ == key_value(s, spec_secret_ref(*oac).id_key@)
            &&& c.client_secret@ == key_value(s, spec_secret_ref(*oac).secret_key@)
            &&& c.auth_url@ == spec_authorization_url(*oaa)
            &&& c.token_url@ == spec_token_url(*oaa)
            &&& c.redirect_url@ == redirect_url@
        },
        r matches Err(e) ==> load_keys_spec(
            *oac,
            deref_secret(secret),
            Result::<(String, String), CredentialError>::Err(e),
        ),
{
    let (client_id, client_secret) = match oac.load_client_keys(secret) {
        Ok(keys) => keys,
        Err(e) => {
            return Err(e);
        },
    };
    Ok(
        OAuthClientConfig {
            auth_url: oaa.get_authorization_url(),
            token_url: oaa.get_token_url(),
            client_id,
            client_secret,
            redirect_url,
        },
    )
}

/// The authorization redirect URL the `oauth2` crate constructs from an
/// authorization endpoint, client id, redirect URL, CSRF token and scope
/// list, or `None` when one of the URLs fails to parse.
pub uninterp spec fn authorize_url_of(
    auth_url: Seq<char>,
    client_id: Seq<char>,
    redirect_url: Seq<char>,
    csrf: Seq<char>,
    scopes: Seq<Seq<char>>,
) -> Option<Seq<char>>;

/// Relies on `oauth2::basic::BasicClient::authorize_url` (with `AuthUrl::new`
/// and `RedirectUrl::new` for URL validation): the resulting URL is a
/// function of the authorization endpoint, client id, redirect URL, CSRF
/// token and scopes alone, and construction fails exactly when one of the
/// two URLs does not parse.
#[verifier::external_body]
pub(crate) fn build_authorize_url(
    auth_url: &str,
    client_id: &str,
    redirect_url: &str,
    csrf: &str,
    scopes: &Vec<String>,
) -> (r: Option<String>)
    ensures
        r is Some <==> authorize_url_of(
            auth_url@,
            client_id@,
            redirect_url@,
            csrf@,
            scopes.deep_view(),
        ) is Some,
        r matches Some(u) ==> Some(u@) == authorize_url_of(
            auth_url@,
            client_id@,
            redirect_url@,
            csrf@,
            scopes.deep_view(),
        ),
{
    let auth = oauth2::AuthUrl::new(auth_url.to_owned()).ok()?;
    let redirect = oauth2::RedirectUrl::new(redirect_url.to_owned()).ok()?;
    let id = oauth2::ClientId::new(client_id.to_owned());
    let client = oauth2::basic::BasicClient::new(id, None, auth, None).set_redirect_uri(redirect);
    let mut request = client.authorize_url(|| oauth2::CsrfToken::new(csrf.to_owned()));
    for scope in scopes {
        request = request.add_scope(oauth2::Scope::new(scope.clone()));
    }
    Some(request.url().0.to_string())
}

} // verus!
