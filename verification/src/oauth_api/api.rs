//! The read surface over the provider store: listing provider names.
use vstd::prelude::*;
use crate::kubernetes::meta::spec_display_name;
use crate::oauth_api::resource::OAuthApi;
use crate::kubernetes::meta::display_name;

verus! {

/// The display names of the providers in the store, in store order.
pub fn list(oauth_apis: &Vec<OAuthApi>) -> (r: Vec<String>)
    ensures
        r@.len() == oauth_apis@.len(),
        forall|i: int|
            0 <= i < r@.len() ==> r@[i]@ == spec_display_name(#[trigger] oauth_apis@[i].metadata),
{
    let mut r: Vec<String> = Vec::new();
    let n = oauth_apis.len();
    let mut i: usize = 0;
    while i < n
        invariant
            i <= n,
            n == oauth_apis@.len(),
            r@.len() == i,
            forall|j: int|
                0 <= j < i ==> r@[j]@ == spec_display_name(#[trigger] oauth_apis@[j].metadata),
        decreases n - i,
    {
        r.push(display_name(&oauth_apis[i].metadata));
        i = i + 1;
    }
    r
}

} // verus!
