use vstd::prelude::*;
use crate::outside::{json_string, json_string_of};

verus! {

/// What opens a cache file, up to the sunrise value.
pub open spec fn opening() -> Seq<char> {
    seq!['{', '"', 's', 'u', 'n', 'r', 'i', 's', 'e', '"', ':']
}

/// What stands between the sunrise value and the sunset value.
pub open spec fn middle() -> Seq<char> {
    seq![',', '"', 's', 'u', 'n', 's', 'e', 't', '"', ':']
}

/// What closes a cache file after the sunset value.
pub open spec fn closing() -> Seq<char> {
    seq!['}']
}

/// The cache file that holds the JSON string literals `rise` and `set`: the
/// object `{"sunrise":<rise>,"sunset":<set>}`.
pub open spec fn cache_frame(rise: Seq<char>, set: Seq<char>) -> Seq<char> {
    opening() + rise + middle() + set + closing()
}

/// The cache file for the timestamp texts `rise` and `set`, each written as a
/// JSON string by serde_json.
pub open spec fn cache_text(rise: Seq<char>, set: Seq<char>) -> Option<Seq<char>> {
    match (json_string_of(rise), json_string_of(set)) {
        (Some(a), Some(b)) => Some(cache_frame(a, b)),
        _ => None,
    }
}

/// Writes the cache file for the timestamp texts `rise` and `set`, the same
/// object that serde_json writes for a window: `{"sunrise":"...","sunset":"..."}`.
pub fn encode_cache(rise: &str, set: &str) -> (r: Option<String>)
    ensures
        match cache_text(rise@, set@) {
            Some(t) => r matches Some(s) && s@ == t,
            None => r is None,
        },
{
    let a = json_string(rise)?;
    let b = json_string(set)?;
    let mut out = String::from_str("{\"sunrise\":");
    out.append(a.as_str());
    out.append(",\"sunset\":");
    out.append(b.as_str());
    out.append("}");
    proof {
        reveal_strlit("{\"sunrise\":");
        reveal_strlit(",\"sunset\":");
        reveal_strlit("}");
        assert("{\"sunrise\":"@ == opening());
        assert(",\"sunset\":"@ == middle());
        assert("}"@ == closing());
    }
    Some(out)
}

} // verus!
