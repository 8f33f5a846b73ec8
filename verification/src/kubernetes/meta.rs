//! The slice of Kubernetes object metadata the operator logic reads.
use vstd::prelude::*;

verus! {

/// Name and namespace of a watched object. Both are optional on the wire;
/// lookups fall back to a fixed display name when the name is absent.
#[derive(Clone)]
pub struct ObjectMeta {
    pub name: Option<String>,
    pub namespace: Option<String>,
}

/// The name under which an object is listed and looked up: its metadata name,
/// or `"Unknown"` when it has none.
pub open spec fn spec_display_name(m: ObjectMeta) -> Seq<char> {
    match m.name {
        Some(n) => n@,
        None => "Unknown"@,
    }
}

/// Executable counterpart of [`spec_display_name`].
pub fn display_name(m: &ObjectMeta) -> (r: String)
    ensures
        r@ == spec_display_name(*m),
{
    match &m.name {
        Some(n) => n.clone(),
        None => "Unknown".to_owned(),
    }
}

} // verus!
