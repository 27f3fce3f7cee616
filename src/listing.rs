use vstd::prelude::*;
use vstd::utf8::encode_utf8;

use crate::text::{is_prefix, text_of};

verus! {

/// The byte strings held by a vector of keys.
pub open spec fn byte_keys(keys: Seq<Vec<u8>>) -> Seq<Seq<u8>> {
    keys.map_values(|k: Vec<u8>| k@)
}

/// The prefix bytes a listing filters by; no prefix selects every key.
pub open spec fn prefix_bytes(prefix: Option<Seq<char>>) -> Seq<u8> {
    match prefix {
        Some(p) => encode_utf8(p),
        None => Seq::empty(),
    }
}

/// The keys of `keys` that begin with `prefix`, in their order.
pub open spec fn kept_keys(keys: Seq<Seq<u8>>, prefix: Seq<u8>) -> Seq<Seq<u8>>
    decreases keys.len(),
{
    if keys.len() == 0 {
        Seq::empty()
    } else {
        let rest = kept_keys(keys.drop_last(), prefix);
        if is_prefix(prefix, keys.last()) {
            rest.push(keys.last())
        } else {
            rest
        }
    }
}

/// Each key decoded as text, or `None` if some key is not UTF-8.
pub open spec fn decode_all(keys: Seq<Seq<u8>>) -> Option<Seq<Seq<char>>>
    decreases keys.len(),
{
    if keys.len() == 0 {
        Some(Seq::empty())
    } else {
        match (decode_all(keys.drop_last()), text_of(keys.last())) {
            (Some(rest), Some(t)) => Some(rest.push(t)),
            _ => None,
        }
    }
}

/// The key texts a scan yields for a prefix.
pub open spec fn listing(keys: Seq<Seq<u8>>, prefix: Seq<u8>) -> Option<Seq<Seq<char>>> {
    decode_all(kept_keys(keys, prefix))
}

/// The texts of a vector of strings.
pub open spec fn texts(v: Seq<String>) -> Seq<Seq<char>> {
    v.map_values(|s: String| s@)
}

} // verus!
