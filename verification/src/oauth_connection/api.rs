//! The interactive OAuth2 flow and the read surface over the connection
//! store: listing, the authorize redirect, and the post-exchange update
//! that turns a token response into a derived secret and a `Connected`
//! status.
use vstd::prelude::*;
use crate::kubernetes::meta::{display_name, spec_display_name};
use crate::kubernetes::secrets::{key_resolves, key_value, Secret};
use crate::oauth_api::resource::{spec_authorization_url, OAuthApi};
use crate::oauth_client::{authorize_url_of, build_authorize_url, oauth_basic_client};
use crate::oauth_connection::resource::{
    deref_secret, load_keys_spec, spec_phase_string, spec_secret_ref, status_wf, OAuthConnection,
    OAuthConnectionPhase, OAuthConnectionStatus,
};
use crate::timefmt::{format_rfc3339, rfc3339_of};
use crate::{CredentialError, Error};

verus! {

/// One row of the connection listing: the connection's display name and a
/// phase string.
pub struct OAuthConnectionWeb {
    pub name: String,
    pub phase: String,
}

/// Query parameters of the authorize endpoint.
pub struct OAuthRequest {
    pub redirect_url: String,
}

/// Query parameters of the callback endpoint.
pub struct OAuthResponse {
    pub code: String,
    pub state: String,
    pub redirect_url: String,
}

/// The phase string a listing shows for a connection.
pub open spec fn spec_web_phase(conn: OAuthConnection) -> Seq<char> {
    match conn.status {
        Some(st) => match st.phase {
            Some(p) => spec_phase_string(p),
            None => "Status and phase not known"@,
        },
        None => "Status and phase not known"@,
    }
}

/// Lists the connections in the store, each with its display name and
/// phase string, in store order.
pub fn list(oauth_connections: &Vec<OAuthConnection>) -> (r: Vec<OAuthConnectionWeb>)
    ensures
        r@.len() == oauth_connections@.len(),
        forall|i: int|
            0 <= i < r@.len() ==> {
                &&& r@[i].name@ == spec_display_name(#[trigger] oauth_connections@[i].metadata)
                &&& r@[i].phase@ == spec_web_phase(oauth_connections@[i])
            },
{
    let mut r: Vec<OAuthConnectionWeb> = Vec::new();
    let n = oauth_connections.len();
    let mut i: usize = 0;
    while i < n
        invariant
            i <= n,
            n == oauth_connections@.len(),
            r@.len() == i,
            forall|j: int|
                0 <= j < i ==> {
                    &&& r@[j].name@ == spec_display_name(
                        #[trigger] oauth_connections@[j].metadata,
                    )
                    &&& r@[j].phase@ == spec_web_phase(oauth_connections@[j])
                },
        decreases n - i,
    {
        let conn = &oauth_connections[i];
        let phase = match &conn.status {
            Some(st) => match &st.phase {
                Some(p) => p.phase_string(),
                None => "Status and phase not known".to_owned(),
            },
            None => "Status and phase not known".to_owned(),
        };
        r.push(OAuthConnectionWeb { name: display_name(&conn.metadata), phase });
        i = i + 1;
    }
    r
}

/// The index of the first element of `s` satisfying `pred`.
pub open spec fn spec_find_first<T>(s: Seq<T>, pred: spec_fn(T) -> bool) -> Option<int>
    decreases s.len(),
{
    if s.len() == 0 {
        None
    } else if pred(s[0]) {
        Some(0)
    } else {
        match spec_find_first(s.drop_first(), pred) {
            Some(i) => Some(i + 1),
            None => None,
        }
    }
}

/// What [`spec_find_first`] returns: the first matching index, or `None`
/// exactly when nothing matches.
proof fn lemma_find_first_char<T>(s: Seq<T>, pred: spec_fn(T) -> bool)
    ensures
        match spec_find_first(s, pred) {
            Some(i) => 0 <= i < s.len() && pred(s[i]) && (forall|j: int|
                0 <= j < i ==> !pred(s[j])),
            None => forall|j: int| 0 <= j < s.len() ==> !pred(s[j]),
        },
    decreases s.len(),
{
    if s.len() != 0 && !pred(s[0]) {
        lemma_find_first_char(s.drop_first(), pred);
        match spec_find_first(s.drop_first(), pred) {
            Some(i) => {
                assert(s.drop_first()[i] == s[i + 1]);
                assert forall|j: int| 0 <= j < i + 1 implies !pred(s[j]) by {
                    if j > 0 {
                        assert(s.drop_first()[j - 1] == s[j]);
                    }
                }
            },
            None => {
                assert forall|j: int| 0 <= j < s.len() implies !pred(s[j]) by {
                    if j > 0 {
                        assert(s.drop_first()[j - 1] == s[j]);
                    }
                }
            },
        }
    }
}

/// A match at `i` with no earlier match pins [`spec_find_first`] to `i`.
proof fn lemma_find_first_at<T>(s: Seq<T>, pred: spec_fn(T) -> bool, i: int)
    requires
        0 <= i < s.len(),
        pred(s[i]),
        forall|j: int| 0 <= j < i ==> !pred(s[j]),
    ensures
        spec_find_first(s, pred) == Some(i),
    decreases i,
{
    if i > 0 {
        assert forall|j: int| 0 <= j < i - 1 implies !pred(s.drop_first()[j]) by {
            assert(s.drop_first()[j] == s[j + 1]);
        }
        assert(s.drop_first()[i - 1] == s[i]);
        lemma_find_first_at(s.drop_first(), pred, i - 1);
    }
}

/// The predicate a connection lookup uses: display name equals `name`.
pub open spec fn conn_named(name: Seq<char>) -> spec_fn(OAuthConnection) -> bool {
    |x: OAuthConnection| spec_display_name(x.metadata) == name
}

/// The predicate a provider lookup uses: display name equals `name`.
pub open spec fn api_named(name: Seq<char>) -> spec_fn(OAuthApi) -> bool {
    |x: OAuthApi| spec_display_name(x.metadata) == name
}

/// Finds the first connection in the store with the given display name.
fn find_connection<'a>(oacs: &'a Vec<OAuthConnection>, name: &String) -> (r: Option<
    &'a OAuthConnection,
>)
    ensures
        match r {
            Some(c) => spec_find_first(oacs@, conn_named(name@)) matches Some(i) && *c == oacs@[i],
            None => spec_find_first(oacs@, conn_named(name@)) is None,
        },
{
    let n = oacs.len();
    let mut i: usize = 0;
    while i < n
        invariant
            i <= n,
            n == oacs@.len(),
            forall|j: int| 0 <= j < i ==> !conn_named(name@)(oacs@[j]),
        decreases n - i,
    {
        if display_name(&oacs[i].metadata) == *name {
            proof {
                lemma_find_first_at(oacs@, conn_named(name@), i as int);
            }
            return Some(&oacs[i]);
        }
        i = i + 1;
    }
    proof {
        lemma_find_first_char(oacs@, conn_named(name@));
    }
    None
}

/// Finds the first provider in the store with the given display name.
fn find_api<'a>(oaas: &'a Vec<OAuthApi>, name: &String) -> (r: Option<&'a OAuthApi>)
    ensures
        match r {
            Some(a) => spec_find_first(oaas@, api_named(name@)) matches Some(i) && *a == oaas@[i],
            None => spec_find_first(oaas@, api_named(name@)) is None,
        },
{
    let n = oaas.len();
    let mut i: usize = 0;
    while i < n
        invariant
            i <= n,
            n == oaas@.len(),
            forall|j: int| 0 <= j < i ==> !api_named(name@)(oaas@[j]),
        decreases n - i,
    {
        if display_name(&oaas[i].metadata) == *name {
            proof {
                lemma_find_first_at(oaas@, api_named(name@), i as int);
            }
            return Some(&oaas[i]);
        }
        i = i + 1;
    }
    proof {
        lemma_find_first_char(oaas@, api_named(name@));
    }
    None
}

/// Looks up a connection by name and the provider it references, both from
/// the watch-fed store snapshots. Returns `None` when either is absent;
/// the lookup tolerates store staleness by never trusting derived values.
pub fn oauth_connection_and_api<'a>(
    oauth_connection_name: &String,
    oacs: &'a Vec<OAuthConnection>,
    oaas: &'a Vec<OAuthApi>,
) -> (r: Option<(&'a OAuthConnection, &'a OAuthApi)>)
    ensures
        match r {
            Some(p) => {
                &&& spec_find_first(oacs@, conn_named(oauth_connection_name@)) matches Some(i)
                    && *p.0 == oacs@[i]
                &&& spec_find_first(oaas@, api_named(p.0.spec.api@)) matches Some(j) && *p.1
                    == oaas@[j]
            },
            None => spec_find_first(oacs@, conn_named(oauth_connection_name@)) is None || (
            spec_find_first(oacs@, conn_named(oauth_connection_name@)) matches Some(i)
                && spec_find_first(oaas@, api_named(oacs@[i].spec.api@)) is None),
        },
{
    let oac = match find_connection(oacs, oauth_connection_name) {
        Some(c) => c,
        None => {
            return None;
        },
    };
    let oaa = match find_api(oaas, &oac.spec.api) {
        Some(a) => a,
        None => {
            return None;
        },
    };
    Some((oac, oaa))
}

/// The CSRF token attached to every authorization redirect. A fixed
/// placeholder: it is never validated on callback, a known correctness gap
/// of this flow.
pub fn csrf_token() -> (r: String)
    ensures
        r@ == "abc"@,
{
    "abc".to_owned()
}

/// Computes the authorization redirect URL for a connection: resolves the
/// client credentials from the referenced secret, builds the client for
/// the referenced provider, and constructs the redirect with the given
/// CSRF token and the connection's scopes (order preserved, duplicates
/// kept).
pub fn connect_redirect(
    oac: &OAuthConnection,
    oaa: &OAuthApi,
    secret: Option<&Secret>,
    redirect_url: String,
    csrf: String,
) -> (r: Result<String, Error>)
    requires
        oaa.spec.auth is Some,
    ensures
        r is Ok <==> (deref_secret(secret) matches Some(s) && key_resolves(
            s,
            spec_secret_ref(*oac).id_key@,
        ) && key_resolves(s, spec_secret_ref(*oac).secret_key@) && authorize_url_of(
            spec_authorization_url(*oaa),
            key_value(s, spec_secret_ref(*oac).id_key@),
            redirect_url@,
            csrf@,
            oac.spec.scopes.deep_view(),
        ) is Some),
        r matches Ok(u) ==> (deref_secret(secret) matches Some(s) && Some(u@) == authorize_url_of(
            spec_authorization_url(*oaa),
            key_value(s, spec_secret_ref(*oac).id_key@),
            redirect_url@,
            csrf@,
            oac.spec.scopes.deep_view(),
        )),
        r matches Err(e) ==> match e {
            Error::CredentialResolution(ce) => load_keys_spec(
                *oac,
                deref_secret(secret),
                Result::<(String, String), CredentialError>::Err(ce),
            ),
            Error::InvalidUrl => deref_secret(secret) matches Some(s) && key_resolves(
                s,
                spec_secret_ref(*oac).id_key@,
            ) && key_resolves(s, spec_secret_ref(*oac).secret_key@) && authorize_url_of(
                spec_authorization_url(*oaa),
                key_value(s, spec_secret_ref(*oac).id_key@),
                redirect_url@,
                csrf@,
                oac.spec.scopes.deep_view(),
            ) is None,
            _ => false,
        },
{
    let config = match oauth_basic_client(oac, oaa, secret, redirect_url) {
        Ok(c) => c,
        Err(e) => {
            return Err(Error::CredentialResolution(e));
        },
    };
    match build_authorize_url(
        config.auth_url.as_str(),
        config.client_id.as_str(),
        config.redirect_url.as_str(),
        csrf.as_str(),
        &oac.spec.scopes,
    ) {
        Some(u) => Ok(u),
        None => Err(Error::InvalidUrl),
    }
}

/// What a token-endpoint exchange handed back: the issued access token, an
/// optional refresh token, and the access token's lifetime in seconds.
pub struct TokenSet {
    pub access_token: String,
    pub refresh_token: Option<String>,
    pub expires_in: Option<u64>,
}

/// The derived secret written after a successful exchange: its name and
/// its text data, `accessToken` always first, `refreshToken` second when
/// one was issued.
pub struct DerivedSecret {
    pub name: String,
    pub string_data: Vec<(String, String)>,
}

/// The name of the derived secret of a connection: `chappaai-<name>`.
pub fn derived_secret_name(name: &String) -> (r: String)
    ensures
        r@ == "chappaai-"@ + name@,
{
    let mut r = "chappaai-".to_owned();
    r.append(name.as_str());
    r
}

/// The expiry instant of a token issued at `now`: `expires_in` seconds
/// later, or `now` itself when the response carried no lifetime.
pub open spec fn spec_expiry(now: i64, expires_in: Option<u64>) -> int {
    now + (match expires_in {
        Some(e) => e as int,
        None => 0,
    })
}

/// Turns a successful exchange into the derived secret to write and the
/// `Connected` status to patch, both pure functions of the connection
/// name, the token response and the clock reading `now` (seconds since
/// the epoch). Returns `None` only when the expiry instant cannot be
/// rendered as an RFC3339 date.
pub fn connected_update(name: &String, token: &TokenSet, now: i64) -> (r: Option<
    (DerivedSecret, OAuthConnectionStatus),
>)
    requires
        now >= 0,
        spec_expiry(now, token.expires_in) <= i64::MAX,
    ensures
        r is Some <==> rfc3339_of(spec_expiry(now, token.expires_in) as i64) is Some,
        r matches Some(p) ==> {
            &&& p.0.name@ == "chappaai-"@ + name@
            &&& p.0.string_data@.len() == (if token.refresh_token is Some {
                2int
            } else {
                1int
            })
            &&& p.0.string_data@[0].0@ == "accessToken"@
            &&& p.0.string_data@[0].1@ == token.access_token@
            &&& (token.refresh_token matches Some(rt) ==> p.0.string_data@[1].0@
                == "refreshToken"@ && p.0.string_data@[1].1@ == rt@)
            &&& p.1.phase == Some(OAuthConnectionPhase::Connected)
            &&& p.1.secret_name matches Some(sn) && sn@ == "chappaai-"@ + name@
            &&& p.1.expires_at matches Some(ea) && Some(ea@) == rfc3339_of(
                spec_expiry(now, token.expires_in) as i64,
            )
            &&& status_wf(p.1)
        },
{
    let extra: i64 = match &token.expires_in {
        Some(e) => *e as i64,
        None => 0,
    };
    let expiry: i64 = now + extra;
    let expires_at = match format_rfc3339(expiry) {
        Some(s) => s,
        None => {
            return None;
        },
    };
    let secret_name = derived_secret_name(name);
    let mut string_data: Vec<(String, String)> = Vec::new();
    string_data.push(("accessToken".to_owned(), token.access_token.clone()));
    match &token.refresh_token {
        Some(rt) => {
            string_data.push(("refreshToken".to_owned(), rt.clone()));
        },
        None => {},
    };
    let status = OAuthConnectionStatus {
        phase: Some(OAuthConnectionPhase::Connected),
        secret_name: Some(secret_name.clone()),
        expires_at: Some(expires_at),
    };
    Some((DerivedSecret { name: secret_name, string_data }, status))
}

} // verus!
