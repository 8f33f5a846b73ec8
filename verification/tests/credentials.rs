use chappaai::kubernetes::secrets::{get_string_value, Secret, SecretEntry};
use chappaai::oauth_connection::{CredentialOptions, OAuthConnection, OAuthConnectionSpec, SecretRef};
use chappaai::kubernetes::meta::ObjectMeta;
use chappaai::CredentialError;

fn secret_of(pairs: &[(&str, &[u8])]) -> Secret {
    let entries = pairs
        .iter()
        .map(|(k, v)| SecretEntry { key: (*k).to_string(), value: v.to_vec() })
        .collect();
    Secret { data: Some(entries) }
}

fn connection_with_keys(id_key: &str, secret_key: &str) -> OAuthConnection {
    OAuthConnection {
        metadata: ObjectMeta { name: Some("c1".to_string()), namespace: None },
        spec: OAuthConnectionSpec {
            api: "a1".to_string(),
            scopes: Vec::new(),
            credentials: CredentialOptions::SecretRef(SecretRef {
                namespace: None,
                name: "creds".to_string(),
                id_key: id_key.to_string(),
                secret_key: secret_key.to_string(),
            }),
        },
        status: None,
    }
}

#[test]
fn resolution_round_trip() {
    let secret = secret_of(&[("idKey", b"abc"), ("secretKey", b"xyz")]);
    let conn = connection_with_keys("idKey", "secretKey");
    let r = conn.load_client_keys(Some(&secret)).unwrap();
    assert_eq!(r.0, "abc");
    assert_eq!(r.1, "xyz");
}

#[test]
fn missing_secret_key_reports_missing_key_and_id_key_is_unaffected() {
    let secret = secret_of(&[("idKey", b"abc")]);
    let conn = connection_with_keys("idKey", "secretKey");
    match conn.load_client_keys(Some(&secret)) {
        Err(CredentialError::MissingKey(k)) => assert_eq!(k, "secretKey"),
        other => panic!("expected MissingKey, got {:?}", other),
    }
    // The id key is checked independently and still resolves.
    assert_eq!(get_string_value(&secret, &"idKey".to_string()).unwrap(), "abc");
}

#[test]
fn absent_secret_reports_missing_secret() {
    let conn = connection_with_keys("idKey", "secretKey");
    match conn.load_client_keys(None) {
        Err(CredentialError::MissingSecret(n)) => assert_eq!(n, "creds"),
        other => panic!("expected MissingSecret, got {:?}", other),
    }
}

#[test]
fn secret_without_data_section_reports_missing_key() {
    let secret = Secret { data: None };
    match get_string_value(&secret, &"idKey".to_string()) {
        Err(CredentialError::MissingKey(k)) => assert_eq!(k, "idKey"),
        other => panic!("expected MissingKey, got {:?}", other),
    }
}

#[test]
fn non_utf8_value_reports_not_utf8() {
    let secret = secret_of(&[("idKey", &[0xff, 0xfe])]);
    match get_string_value(&secret, &"idKey".to_string()) {
        Err(CredentialError::NotUtf8(k)) => assert_eq!(k, "idKey"),
        other => panic!("expected NotUtf8, got {:?}", other),
    }
}

#[test]
fn multi_byte_utf8_value_decodes() {
    // 0xC3 0xA9 encodes U+00E9; decoding must transform, not copy, bytes.
    let secret = secret_of(&[("idKey", &[0xc3, 0xa9])]);
    assert_eq!(get_string_value(&secret, &"idKey".to_string()).unwrap(), "\u{e9}");
}

#[test]
fn first_matching_key_wins() {
    let secret = secret_of(&[("k", b"first"), ("k", b"second")]);
    assert_eq!(get_string_value(&secret, &"k".to_string()).unwrap(), "first");
}
