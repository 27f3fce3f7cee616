use vstd::prelude::*;
use vstd::utf8::{decode_utf8, encode_utf8};

use crate::listing::{kept_keys, listing};
use crate::tasks::item_outcome;
use crate::text::is_prefix;

verus! {

broadcast use vstd::utf8::encode_utf8_decode_utf8, vstd::utf8::encode_utf8_valid_utf8;

/// An engine's contents: key bytes to value bytes.
pub type Contents = Map<Seq<u8>, Seq<u8>>;

/// What an exact-key lookup of `key` finds in `store`.
pub open spec fn found(store: Contents, key: Seq<u8>) -> Option<Seq<u8>> {
    if store.contains_key(key) {
        Some(store[key])
    } else {
        None
    }
}

/// The contents after writing the text `value` under the text `key`.
pub open spec fn after_set(store: Contents, key: Seq<char>, value: Seq<char>) -> Contents {
    store.insert(encode_utf8(key), encode_utf8(value))
}

/// The contents after deleting the text `key`.
pub open spec fn after_remove(store: Contents, key: Seq<char>) -> Contents {
    store.remove(encode_utf8(key))
}

/// The outcome of looking up the text `key` in `store`.
pub open spec fn read(store: Contents, key: Seq<char>) -> Option<Option<Seq<char>>> {
    item_outcome(found(store, encode_utf8(key)))
}

/// Distinct texts have distinct engine keys.
pub proof fn lemma_encoding_injective(a: Seq<char>, b: Seq<char>)
    ensures
        encode_utf8(a) == encode_utf8(b) ==> a == b,
{
    assert(decode_utf8(encode_utf8(a)) == a);
    assert(decode_utf8(encode_utf8(b)) == b);
}

/// Reading a key right after writing it returns the value written.
pub proof fn lemma_write_then_read(store: Contents, key: Seq<char>, value: Seq<char>)
    ensures
        read(after_set(store, key, value), key) == Some(Some(value)),
{
}

/// Writing or deleting one key leaves what a read of another key returns.
pub proof fn lemma_other_keys_untouched(store: Contents, key: Seq<char>, other: Seq<char>, value: Seq<char>)
    requires
        key != other,
    ensures
        read(after_set(store, other, value), key) == read(store, key),
        read(after_remove(store, other), key) == read(store, key),
{
    lemma_encoding_injective(key, other);
}

/// A key that was never written, or was deleted, reads as "not found",
/// which differs from finding the empty text.
pub proof fn lemma_absent_key_not_found(store: Contents, key: Seq<char>)
    ensures
        !store.contains_key(encode_utf8(key)) ==> read(store, key) == Some(None::<Seq<char>>),
        read(after_remove(store, key), key) == Some(None::<Seq<char>>),
        Some(None::<Seq<char>>) != Some(Some(Seq::<char>::empty())),
{
}

/// Deleting a key that is not there changes nothing.
pub proof fn lemma_remove_absent_key(store: Contents, key: Seq<char>)
    requires
        !store.contains_key(encode_utf8(key)),
    ensures
        after_remove(store, key) == store,
{
    assert(after_remove(store, key) =~= store);
}

/// `a` comes before `b` in lexicographic byte order.
pub open spec fn byte_lt(a: Seq<u8>, b: Seq<u8>) -> bool {
    exists|i: int|
        0 <= i <= a.len() && i <= b.len() && a.take(i) == b.take(i) && (
            (i == a.len() && i < b.len()) || (i < a.len() && i < b.len() && a[i] < b[i])
        )
}

/// Every key comes strictly before the next: ascending, each key once.
pub open spec fn ascending(keys: Seq<Seq<u8>>) -> bool {
    forall|i: int, j: int| 0 <= i < j < keys.len() ==> byte_lt(#[trigger] keys[i], #[trigger] keys[j])
}

/// Every key the filter keeps was among its input.
pub proof fn lemma_kept_from_input(keys: Seq<Seq<u8>>, prefix: Seq<u8>)
    ensures
        forall|i: int| 0 <= i < kept_keys(keys, prefix).len() ==> keys.contains(#[trigger] kept_keys(keys, prefix)[i]),
    decreases keys.len(),
{
    if keys.len() > 0 {
        lemma_kept_from_input(keys.drop_last(), prefix);
        let rest = kept_keys(keys.drop_last(), prefix);
        assert forall|i: int| 0 <= i < kept_keys(keys, prefix).len() implies keys.contains(
            #[trigger] kept_keys(keys, prefix)[i],
        ) by {
            if i < rest.len() {
                let j = choose|j: int| 0 <= j < keys.drop_last().len() && keys.drop_last()[j] == rest[i];
                assert(keys[j] == rest[i]);
            } else {
                assert(keys[keys.len() - 1] == keys.last());
            }
        }
    }
}

/// The filter keeps exactly the keys that begin with the prefix, and keeps
/// their order: an ascending scan gives an ascending listing.
pub proof fn lemma_kept_keys_ascending(keys: Seq<Seq<u8>>, prefix: Seq<u8>)
    requires
        ascending(keys),
    ensures
        ascending(kept_keys(keys, prefix)),
        forall|i: int| 0 <= i < kept_keys(keys, prefix).len() ==> is_prefix(prefix, #[trigger] kept_keys(keys, prefix)[i]),
    decreases keys.len(),
{
    if keys.len() > 0 {
        let init = keys.drop_last();
        assert(ascending(init));
        lemma_kept_keys_ascending(init, prefix);
        lemma_kept_from_input(init, prefix);
        let rest = kept_keys(init, prefix);
        assert forall|i: int| 0 <= i < rest.len() implies byte_lt(#[trigger] rest[i], keys.last()) by {
            let j = choose|j: int| 0 <= j < init.len() && init[j] == rest[i];
            assert(keys[j] == rest[i]);
            assert(byte_lt(keys[j], keys[keys.len() - 1]));
        }
    }
}

/// Without a prefix the filter keeps every key.
pub proof fn lemma_no_prefix_keeps_all(keys: Seq<Seq<u8>>)
    ensures
        kept_keys(keys, Seq::empty()) == keys,
    decreases keys.len(),
{
    if keys.len() > 0 {
        lemma_no_prefix_keeps_all(keys.drop_last());
        assert(keys.last().subrange(0, 0) =~= Seq::<u8>::empty());
        assert(keys.drop_last().push(keys.last()) =~= keys);
    }
}

/// A listing with a prefix is the listing without one, filtered by that
/// prefix: the same keys in the same relative order.
pub proof fn lemma_prefix_listing_is_filtered(keys: Seq<Seq<u8>>, prefix: Seq<u8>)
    ensures
        listing(keys, prefix) == listing(kept_keys(keys, Seq::empty()), prefix),
{
    lemma_no_prefix_keeps_all(keys);
}

} // verus!
