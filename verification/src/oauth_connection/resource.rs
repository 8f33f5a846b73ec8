//! Schema of the `OAuthConnection` resource, its status invariant, and the
//! resolution of client credentials from the referenced secret.
use vstd::prelude::*;
use crate::kubernetes::meta::ObjectMeta;
use crate::kubernetes::secrets::{get_string_value, key_error, key_resolves, key_value, Secret};
use crate::CredentialError;

verus! {

/// Spec of the `OAuthConnection` resource: the referenced provider, the
/// requested scopes, and where the client credentials live.
#[derive(Clone)]
pub struct OAuthConnectionSpec {
    pub api: String,
    pub scopes: Vec<String>,
    pub credentials: CredentialOptions,
}

/// One `OAuthConnection` object as watched from the cluster.
#[derive(Clone)]
pub struct OAuthConnection {
    pub metadata: ObjectMeta,
    pub spec: OAuthConnectionSpec,
    pub status: Option<OAuthConnectionStatus>,
}

/// Where client credentials come from. Only an opaque-secret reference
/// exists today.
#[derive(Clone)]
pub enum CredentialOptions {
    SecretRef(SecretRef),
}

/// A reference to an opaque secret and the keys holding the client id and
/// client secret.
#[derive(Clone)]
pub struct SecretRef {
    pub namespace: Option<String>,
    pub name: String,
    pub id_key: String,
    pub secret_key: String,
}

/// Phase of a connection. Absence of status is treated as a fourth,
/// uninitialized phase.
#[derive(Clone, Copy, Debug, PartialEq, Eq, Structural)]
pub enum OAuthConnectionPhase {
    Initializing,
    Disconnected,
    Connected,
}

/// Status subresource of an `OAuthConnection`. `secret_name` and
/// `expires_at` are populated exactly while the connection is `Connected`;
/// see [`status_wf`].
#[derive(Clone)]
pub struct OAuthConnectionStatus {
    pub phase: Option<OAuthConnectionPhase>,
    pub secret_name: Option<String>,
    pub expires_at: Option<String>,
}

/// Status invariant: the derived-secret name and the token expiry are
/// populated if and only if the phase is `Connected`.
pub open spec fn status_wf(s: OAuthConnectionStatus) -> bool {
    &&& s.secret_name is Some <==> s.phase == Some(OAuthConnectionPhase::Connected)
    &&& s.expires_at is Some <==> s.phase == Some(OAuthConnectionPhase::Connected)
}

/// What a status amounts to on the wire: its phase and the character
/// contents of its two optional fields.
pub open spec fn status_view(s: OAuthConnectionStatus) -> (
    Option<OAuthConnectionPhase>,
    Option<Seq<char>>,
    Option<Seq<char>>,
) {
    (s.phase, s.secret_name.deep_view(), s.expires_at.deep_view())
}

/// The display string of a phase.
pub open spec fn spec_phase_string(p: OAuthConnectionPhase) -> Seq<char> {
    match p {
        OAuthConnectionPhase::Initializing => "Initializing"@,
        OAuthConnectionPhase::Disconnected => "Disconnected"@,
        OAuthConnectionPhase::Connected => "Connected"@,
    }
}

impl OAuthConnectionPhase {
    /// Renders the phase for listings and status displays.
    pub fn phase_string(&self) -> (r: String)
        ensures
            r@ == spec_phase_string(*self),
    {
        match self {
            OAuthConnectionPhase::Initializing => "Initializing".to_owned(),
            OAuthConnectionPhase::Disconnected => "Disconnected".to_owned(),
            OAuthConnectionPhase::Connected => "Connected".to_owned(),
        }
    }
}

/// The secret reference of a connection's credential source.
pub open spec fn spec_secret_ref(conn: OAuthConnection) -> SecretRef {
    match conn.spec.credentials {
        CredentialOptions::SecretRef(r) => r,
    }
}

/// Full description of credential resolution: given the referenced secret
/// (or `None` when it does not exist), `r` is the resolved
/// `(client id, client secret)` pair or the error resolution reports.
/// The id key is checked before the secret key.
pub open spec fn load_keys_spec(
    conn: OAuthConnection,
    secret: Option<Secret>,
    r: Result<(String, String), CredentialError>,
) -> bool {
    let sref = spec_secret_ref(conn);
    match secret {
        None => r matches Err(CredentialError::MissingSecret(n)) && n@ == sref.name@,
        Some(s) => {
            &&& r is Ok <==> key_resolves(s, sref.id_key@) && key_resolves(s, sref.secret_key@)
            &&& (r matches Ok(p) ==> p.0@ == key_value(s, sref.id_key@) && p.1@ == key_value(
                s,
                sref.secret_key@,
            ))
            &&& (r matches Err(e) ==> (key_error(s, sref.id_key@, e) || (key_resolves(
                s,
                sref.id_key@,
            ) && key_error(s, sref.secret_key@, e))))
        },
    }
}

/// Turns `Option<&Secret>` into the value the specifications speak about.
pub open spec fn deref_secret(secret: Option<&Secret>) -> Option<Secret> {
    match secret {
        Some(s) => Some(*s),
        None => None,
    }
}

impl OAuthConnection {
    /// Resolves the client id and client secret of this connection from the
    /// referenced secret, handed in by the caller (`None` when the secret
    /// does not exist). Fails with `MissingSecret`, `MissingKey` or
    /// `NotUtf8`; retry policy is the caller's concern.
    pub fn load_client_keys(&self, secret: Option<&Secret>) -> (r: Result<
        (String, String),
        CredentialError,
    >)
        ensures
            load_keys_spec(*self, deref_secret(secret), r),
    {
        match &self.spec.credentials {
            CredentialOptions::SecretRef(secret_ref) => {
                let secret = match secret {
                    Some(s) => s,
                    None => {
                        return Err(CredentialError::MissingSecret(secret_ref.name.clone()));
                    },
                };
                let client_id = match get_string_value(secret, &secret_ref.id_key) {
                    Ok(value) => value,
                    Err(error) => {
                        return Err(error);
                    },
                };
                let client_secret = match get_string_value(secret, &secret_ref.secret_key) {
                    Ok(value) => value,
                    Err(error) => {
                        return Err(error);
                    },
                };
                Ok((client_id, client_secret))
            },
        }
    }
}

} // verus!
