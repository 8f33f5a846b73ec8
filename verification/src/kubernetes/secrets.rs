//! A model of opaque Kubernetes secret data, and the rules for reading a
//! text value out of it.
use vstd::prelude::*;
use vstd::utf8::*;
use crate::CredentialError;

verus! {

/// One key of a secret, holding raw bytes.
#[derive(Clone)]
pub struct SecretEntry {
    pub key: String,
    pub value: Vec<u8>,
}

/// The data of one opaque Kubernetes secret. `data` is `None` when the
/// secret carries no data section at all.
#[derive(Clone)]
pub struct Secret {
    pub data: Option<Vec<SecretEntry>>,
}

/// The bytes stored under `key` in `entries`: the value of the first entry
/// whose key matches, or `None`.
pub open spec fn spec_entry_lookup(entries: Seq<SecretEntry>, key: Seq<char>) -> Option<Seq<u8>>
    decreases entries.len(),
{
    if entries.len() == 0 {
        None
    } else if entries[0].key@ == key {
        Some(entries[0].value@)
    } else {
        spec_entry_lookup(entries.drop_first(), key)
    }
}

/// The bytes stored under `key` in the secret, or `None` when the secret has
/// no data section or no such key.
pub open spec fn spec_secret_lookup(s: Secret, key: Seq<char>) -> Option<Seq<u8>> {
    match s.data {
        Some(entries) => spec_entry_lookup(entries@, key),
        None => None,
    }
}

/// Finds the first entry whose key equals `key`.
fn entry_lookup<'a>(entries: &'a Vec<SecretEntry>, key: &String) -> (r: Option<&'a Vec<u8>>)
    ensures
        match r {
            Some(v) => spec_entry_lookup(entries@, key@) == Some(v@),
            None => spec_entry_lookup(entries@, key@) is None,
        },
{
    let n = entries.len();
    let mut i: usize = 0;
    proof {
        assert(entries@.skip(0) =~= entries@);
    }
    while i < n
        invariant
            i <= n,
            n == entries@.len(),
            spec_entry_lookup(entries@.skip(i as int), key@) == spec_entry_lookup(
                entries@,
                key@,
            ),
        decreases n - i,
    {
        proof {
            assert(entries@.skip(i as int)[0] == entries@[i as int]);
        }
        if entries[i].key == *key {
            return Some(&entries[i].value);
        }
        proof {
            assert(entries@.skip(i as int).drop_first() =~= entries@.skip(i + 1));
        }
        i = i + 1;
    }
    proof {
        assert(entries@.skip(n as int).len() == 0);
    }
    None
}

/// The key is present and its bytes are valid UTF-8 text.
pub open spec fn key_resolves(s: Secret, key: Seq<char>) -> bool {
    &&& spec_secret_lookup(s, key) is Some
    &&& valid_utf8(spec_secret_lookup(s, key).unwrap())
}

/// The text stored under a resolving key.
pub open spec fn key_value(s: Secret, key: Seq<char>) -> Seq<char>
    recommends
        key_resolves(s, key),
{
    decode_utf8(spec_secret_lookup(s, key).unwrap())
}

/// `e` is exactly the error reading `key` as text reports: `MissingKey`
/// when the key (or the data section) is absent, `NotUtf8` when the bytes
/// do not decode.
pub open spec fn key_error(s: Secret, key: Seq<char>, e: CredentialError) -> bool {
    match e {
        CredentialError::MissingKey(k) => k@ == key && spec_secret_lookup(s, key) is None,
        CredentialError::NotUtf8(k) => k@ == key && spec_secret_lookup(s, key) is Some
            && !valid_utf8(spec_secret_lookup(s, key).unwrap()),
        CredentialError::MissingSecret(_) => false,
    }
}

/// A secret value as the resolver sees it: UTF-8 text, or raw bytes when the
/// value does not decode.
pub enum Decoded {
    Utf8(String),
    Bytes(Vec<u8>),
}

/// Reads the value stored under `key`, decoding it as UTF-8 text when
/// possible and surfacing the raw bytes otherwise.
fn decode(secret: &Secret, key: &String) -> (r: Result<Decoded, CredentialError>)
    ensures
        match r {
            Ok(Decoded::Utf8(s)) => {
                &&& spec_secret_lookup(*secret, key@) matches Some(b)
                &&& valid_utf8(spec_secret_lookup(*secret, key@).unwrap())
                &&& s@ == decode_utf8(spec_secret_lookup(*secret, key@).unwrap())
            },
            Ok(Decoded::Bytes(v)) => {
                &&& spec_secret_lookup(*secret, key@) == Some(v@)
                &&& !valid_utf8(v@)
            },
            Err(e) => {
                &&& e matches CredentialError::MissingKey(k) && k@ == key@
                &&& spec_secret_lookup(*secret, key@) is None
            },
        },
{
    let entries = match &secret.data {
        Some(entries) => entries,
        None => {
            return Err(CredentialError::MissingKey(key.clone()));
        },
    };
    let value = match entry_lookup(entries, key) {
        Some(v) => v,
        None => {
            return Err(CredentialError::MissingKey(key.clone()));
        },
    };
    match bytes_to_utf8(value) {
        Some(s) => Ok(Decoded::Utf8(s)),
        None => Ok(Decoded::Bytes(value.clone())),
    }
}

/// Reads the value stored under `key` as UTF-8 text. Fails with `MissingKey`
/// when the key (or the whole data section) is absent, and with `NotUtf8`
/// when the stored bytes are not valid UTF-8.
pub fn get_string_value(secret: &Secret, key: &String) -> (r: Result<String, CredentialError>)
    ensures
        r is Ok <==> key_resolves(*secret, key@),
        r matches Ok(s) ==> s@ == key_value(*secret, key@),
        r matches Err(e) ==> key_error(*secret, key@, e),
{
    match decode(secret, key) {
        Ok(Decoded::Utf8(value)) => Ok(value),
        Err(error) => Err(error),
        Ok(Decoded::Bytes(_)) => Err(CredentialError::NotUtf8(key.clone())),
    }
}

/// Relies on `core::str::from_utf8`: it succeeds exactly on valid UTF-8
/// input, and decodes the bytes to the characters they encode.
#[verifier::external_body]
fn bytes_to_utf8(v: &Vec<u8>) -> (r: Option<String>)
    ensures
        r is Some <==> valid_utf8(v@),
        r matches Some(s) ==> s@ == decode_utf8(v@),
{
    match core::str::from_utf8(v.as_slice()) {
        Ok(s) => Some(s.to_owned()),
        Err(_) => None,
    }
}

} // verus!
