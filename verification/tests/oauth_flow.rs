use chappaai::api_version;
use chappaai::kubernetes::meta::ObjectMeta;
use chappaai::kubernetes::secrets::{Secret, SecretEntry};
use chappaai::oauth_api::controller::reconcile_step;
use chappaai::oauth_api::{
    AuthSpecs, AuthorizationParams, HttpApi, OAuth2Spec, OAuthApi, OAuthApiKind, OAuthApiPhase,
};
use chappaai::kubernetes::controller::{Action, EventKind};
use chappaai::oauth_client::oauth_basic_client;
use chappaai::oauth_connection::api::{
    connect_redirect, connected_update, csrf_token, derived_secret_name, list,
    oauth_connection_and_api, TokenSet,
};
use chappaai::oauth_connection::controller::connection_status_patch;
use chappaai::oauth_connection::{
    CredentialOptions, OAuthConnection, OAuthConnectionPhase, OAuthConnectionSpec,
    OAuthConnectionStatus, SecretRef,
};
use chappaai::Error;

fn provider(name: Option<&str>, params: &[(&str, &str)]) -> OAuthApi {
    OAuthApi {
        metadata: ObjectMeta { name: name.map(|n| n.to_string()), namespace: None },
        spec: OAuthApiKind {
            auth: Some(AuthSpecs::OAuth2(OAuth2Spec {
                authorization_url: "auth".to_string(),
                authorization_params: params
                    .iter()
                    .map(|(k, v)| AuthorizationParams { key: k.to_string(), value: v.to_string() })
                    .collect(),
                refresh_url: None,
                token_url: "token".to_string(),
                token_params: None,
            })),
            http: HttpApi {
                base_url: "https://p".to_string(),
                authorization_header_prefix: None,
                headers: Vec::new(),
            },
        },
        status: None,
    }
}

fn connection(name: Option<&str>, scopes: &[&str]) -> OAuthConnection {
    OAuthConnection {
        metadata: ObjectMeta { name: name.map(|n| n.to_string()), namespace: None },
        spec: OAuthConnectionSpec {
            api: "a1".to_string(),
            scopes: scopes.iter().map(|s| s.to_string()).collect(),
            credentials: CredentialOptions::SecretRef(SecretRef {
                namespace: None,
                name: "creds".to_string(),
                id_key: "idKey".to_string(),
                secret_key: "secretKey".to_string(),
            }),
        },
        status: None,
    }
}

fn credentials_secret() -> Secret {
    Secret {
        data: Some(vec![
            SecretEntry { key: "idKey".to_string(), value: b"client-1".to_vec() },
            SecretEntry { key: "secretKey".to_string(), value: b"hush".to_vec() },
        ]),
    }
}

#[test]
fn api_version_is_group_slash_version() {
    assert_eq!(api_version(), "chappaai.dev/v1");
}

#[test]
fn authorization_url_concatenates_base_path_and_params() {
    let api = provider(Some("a1"), &[("audience", "x"), ("prompt", "consent")]);
    assert_eq!(api.get_authorization_url(), "https://p/auth?&audience=x&prompt=consent");
    assert_eq!(api.get_token_url(), "https://p/token");
}

#[test]
fn authorization_params_keep_order_and_duplicates() {
    let api = provider(Some("a1"), &[("k", "1"), ("k", "2")]);
    match &api.spec.auth {
        Some(AuthSpecs::OAuth2(s)) => {
            assert_eq!(s.get_authorization_params(), "&k=1&k=2");
        }
        None => panic!("provider has an auth spec"),
    }
}

#[test]
fn api_reconcile_registers_with_one_normal_event() {
    let out = reconcile_step();
    assert_eq!(out.status_patch.phase, Some(OAuthApiPhase::Registered));
    assert_eq!(out.events.len(), 1);
    assert_eq!(out.events[0].kind, EventKind::Normal);
    assert_eq!(out.action, Action::AwaitChange);
}

#[test]
fn lookup_finds_connection_and_its_provider() {
    let conns = vec![connection(Some("c0"), &[]), connection(Some("c1"), &[])];
    let apis = vec![provider(Some("other"), &[]), provider(Some("a1"), &[])];
    let (c, a) = oauth_connection_and_api(&"c1".to_string(), &conns, &apis)
        .expect("both resources resolve");
    assert_eq!(c.metadata.name.as_deref(), Some("c1"));
    assert_eq!(a.metadata.name.as_deref(), Some("a1"));
}

#[test]
fn lookup_fails_without_connection_or_provider() {
    let conns = vec![connection(Some("c1"), &[])];
    let apis = vec![provider(Some("a1"), &[])];
    assert!(oauth_connection_and_api(&"missing".to_string(), &conns, &apis).is_none());
    let no_apis: Vec<chappaai::oauth_api::OAuthApi> = Vec::new();
    assert!(oauth_connection_and_api(&"c1".to_string(), &conns, &no_apis).is_none());
}

#[test]
fn lookup_uses_unknown_as_fallback_display_name() {
    let conns = vec![connection(None, &[])];
    let apis = vec![provider(Some("a1"), &[])];
    assert!(oauth_connection_and_api(&"Unknown".to_string(), &conns, &apis).is_some());
}

#[test]
fn connection_listing_shows_names_and_phases() {
    let mut with_status = connection(Some("c1"), &[]);
    with_status.status = Some(OAuthConnectionStatus {
        phase: Some(OAuthConnectionPhase::Disconnected),
        secret_name: None,
        expires_at: None,
    });
    let rows = list(&vec![with_status, connection(None, &[])]);
    assert_eq!(rows.len(), 2);
    assert_eq!(rows[0].name, "c1");
    assert_eq!(rows[0].phase, "Disconnected");
    assert_eq!(rows[1].name, "Unknown");
    assert_eq!(rows[1].phase, "Status and phase not known");
}

#[test]
fn provider_listing_shows_names() {
    let names = chappaai::oauth_api::api::list(&vec![
        provider(Some("a1"), &[]),
        provider(None, &[]),
    ]);
    assert_eq!(names, vec!["a1".to_string(), "Unknown".to_string()]);
}

#[test]
fn client_builder_resolves_credentials_and_endpoints() {
    let api = provider(Some("a1"), &[]);
    let conn = connection(Some("c1"), &[]);
    let secret = credentials_secret();
    let cfg = oauth_basic_client(&conn, &api, Some(&secret), "https://cb".to_string())
        .expect("credentials resolve");
    assert_eq!(cfg.auth_url, "https://p/auth?");
    assert_eq!(cfg.token_url, "https://p/token");
    assert_eq!(cfg.client_id, "client-1");
    assert_eq!(cfg.client_secret, "hush");
    assert_eq!(cfg.redirect_url, "https://cb");
}

#[test]
fn connect_returns_redirect_into_the_provider() {
    let api = provider(Some("a1"), &[]);
    let conn = connection(Some("c1"), &["s1", "s2"]);
    let secret = credentials_secret();
    let url = connect_redirect(&conn, &api, Some(&secret), "https://cb".to_string(), csrf_token())
        .expect("the redirect is built");
    assert!(url.starts_with("https://p/auth?"), "unexpected url: {}", url);
    assert!(url.contains("state=abc"), "missing csrf parameter: {}", url);
    assert!(url.contains("client_id=client-1"), "missing client id: {}", url);
    assert!(url.contains("scope=s1+s2"), "missing scopes: {}", url);
    assert!(url.contains("response_type=code"), "missing response type: {}", url);
}

#[test]
fn connect_without_credentials_reports_resolution_failure() {
    let api = provider(Some("a1"), &[]);
    let conn = connection(Some("c1"), &[]);
    match connect_redirect(&conn, &api, None, "https://cb".to_string(), csrf_token()) {
        Err(Error::CredentialResolution(_)) => {}
        other => panic!("expected a credential-resolution error, got {:?}", other),
    }
}

#[test]
fn connect_with_unparseable_endpoint_reports_invalid_url() {
    let mut api = provider(Some("a1"), &[]);
    api.spec.http.base_url = "no scheme".to_string();
    let conn = connection(Some("c1"), &[]);
    let secret = credentials_secret();
    match connect_redirect(&conn, &api, Some(&secret), "https://cb".to_string(), csrf_token()) {
        Err(Error::InvalidUrl) => {}
        other => panic!("expected InvalidUrl, got {:?}", other),
    }
}

#[test]
fn callback_update_writes_secret_and_connected_status() {
    let token = TokenSet {
        access_token: "tok1".to_string(),
        refresh_token: None,
        expires_in: Some(3600),
    };
    let (secret, status) = connected_update(&"c1".to_string(), &token, 0)
        .expect("the expiry instant is representable");
    assert_eq!(secret.name, "chappaai-c1");
    assert_eq!(secret.string_data, vec![("accessToken".to_string(), "tok1".to_string())]);
    assert_eq!(status.phase, Some(OAuthConnectionPhase::Connected));
    assert_eq!(status.secret_name.as_deref(), Some("chappaai-c1"));
    assert_eq!(status.expires_at.as_deref(), Some("1970-01-01T01:00:00+00:00"));
}

#[test]
fn callback_update_keeps_issued_refresh_token() {
    let token = TokenSet {
        access_token: "tok1".to_string(),
        refresh_token: Some("ref1".to_string()),
        expires_in: None,
    };
    let (secret, status) = connected_update(&"c1".to_string(), &token, 60)
        .expect("the expiry instant is representable");
    assert_eq!(
        secret.string_data,
        vec![
            ("accessToken".to_string(), "tok1".to_string()),
            ("refreshToken".to_string(), "ref1".to_string()),
        ]
    );
    // No lifetime in the response: the expiry defaults to the issue instant.
    assert_eq!(status.expires_at.as_deref(), Some("1970-01-01T00:01:00+00:00"));
}

#[test]
fn derived_secret_name_is_prefixed() {
    assert_eq!(derived_secret_name(&"c1".to_string()), "chappaai-c1");
}

#[test]
fn status_patch_document_is_a_function_of_the_status() {
    let status = OAuthConnectionStatus {
        phase: Some(OAuthConnectionPhase::Connected),
        secret_name: Some("chappaai-c1".to_string()),
        expires_at: Some("1970-01-01T01:00:00+00:00".to_string()),
    };
    let again = OAuthConnectionStatus {
        phase: status.phase,
        secret_name: status.secret_name.clone(),
        expires_at: status.expires_at.clone(),
    };
    let p1 = connection_status_patch(status);
    let p2 = connection_status_patch(again);
    assert_eq!(p1.api_version, "chappaai.dev/v1");
    assert_eq!(p1.kind, "OAuthConnection");
    assert_eq!(p1.api_version, p2.api_version);
    assert_eq!(p1.kind, p2.kind);
    assert_eq!(p1.status.phase, p2.status.phase);
    assert_eq!(p1.status.secret_name, p2.status.secret_name);
    assert_eq!(p1.status.expires_at, p2.status.expires_at);
}

#[test]
fn phase_strings_match_their_variants() {
    assert_eq!(OAuthConnectionPhase::Initializing.phase_string(), "Initializing");
    assert_eq!(OAuthConnectionPhase::Disconnected.phase_string(), "Disconnected");
    assert_eq!(OAuthConnectionPhase::Connected.phase_string(), "Connected");
}
