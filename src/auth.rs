use vstd::prelude::*;

verus! {

/// A request is let through only when its `Authorization` header is present
/// and equals the configured key exactly.
pub fn is_authed(header: Option<String>, api_key: &String) -> (r: bool)
    ensures
        r == (header matches Some(h) && h@ == api_key@),
{
    match header {
        Some(h) => h == *api_key,
        None => false,
    }
}

} // verus!
