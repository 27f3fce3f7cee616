use vstd::prelude::*;
use vstd::utf8::encode_utf8;

use crate::error::{fails_with, ErrorKind, StoreError};
use crate::listing::{byte_keys, kept_keys, listing, prefix_bytes, texts};
use crate::options::Options;
use crate::registry::{handle_space, Registry};
use crate::text::{decode_text, is_prefix, starts_with, text_of};

verus! {

broadcast use vstd::utf8::encode_utf8_decode_utf8;

/// Turns an engine failure message into an error of the given kind.
fn engine_error(kind: ErrorKind, message: String) -> (r: StoreError)
    ensures
        r.kind == kind,
        r.message@ == message@,
{
    StoreError::new(kind, message)
}

/// Opening an engine at `path` and registering it under a new handle.
pub struct ConnectTask {
    pub path: String,
    pub opts: Options,
}

impl ConnectTask {
    pub fn new(path: String, opts: Options) -> (r: ConnectTask)
        ensures
            r.path@ == path@,
            r.opts == opts,
    {
        ConnectTask { path, opts }
    }

    /// The log file bound in the width the engine takes it.
    pub fn log_file_limit(&self) -> (r: usize)
        ensures
            r == self.opts.keep_log_file_num,
    {
        self.opts.keep_log_file_num as usize
    }

    /// Registers what opening the engine gave: a new handle for an opened
    /// instance, `EngineOpenFailure` (and no change) for a failed open.
    pub fn complete<T>(&self, registry: &mut Registry<T>, opened: Result<T, String>) -> (r: Result<u32, StoreError>)
        requires
            old(registry).wf(),
        ensures
            final(registry).wf(),
            opened is Err ==> {
                &&& fails_with(r, ErrorKind::EngineOpenFailure)
                &&& r->Err_0.message@ == opened->Err_0@
                &&& final(registry)@ == old(registry)@
                &&& final(registry).issued() == old(registry).issued()
            },
            opened is Ok && old(registry).issued() < handle_space() ==> {
                &&& r == Ok::<u32, StoreError>(old(registry).issued() as u32)
                &&& final(registry)@ == old(registry)@.insert(old(registry).issued() as u32, opened->Ok_0)
                &&& final(registry).issued() == old(registry).issued() + 1
            },
            opened is Ok && old(registry).issued() >= handle_space() ==> {
                &&& fails_with(r, ErrorKind::HandlesExhausted)
                &&& final(registry)@ == old(registry)@
                &&& final(registry).issued() == old(registry).issued()
            },
    {
        match opened {
            Ok(instance) => registry.insert(instance),
            Err(message) => Err(engine_error(ErrorKind::EngineOpenFailure, message)),
        }
    }
}

/// What a successful lookup hands back: found text, or not found.
pub open spec fn item_view(r: Result<Option<String>, StoreError>) -> Option<Option<Seq<char>>> {
    match r {
        Ok(Some(s)) => Some(Some(s@)),
        Ok(None) => Some(None),
        Err(_) => None,
    }
}

/// The lookup outcome for the bytes the engine found under a key: the
/// decoded text, "not found", or `None` where the bytes are not text.
pub open spec fn item_outcome(found: Option<Seq<u8>>) -> Option<Option<Seq<char>>> {
    match found {
        Some(b) => match text_of(b) {
            Some(t) => Some(Some(t)),
            None => None,
        },
        None => Some(None),
    }
}

/// The bytes an engine result holds.
pub open spec fn found_bytes(found: Option<Vec<u8>>) -> Option<Seq<u8>> {
    match found {
        Some(b) => Some(b@),
        None => None,
    }
}

/// An exact-key lookup.
pub struct GetItemTask {
    pub db_id: u32,
    pub key: String,
}

impl GetItemTask {
    pub fn new(db_id: u32, key: String) -> (r: GetItemTask)
        ensures
            r.db_id == db_id,
            r.key@ == key@,
    {
        GetItemTask { db_id, key }
    }

    /// The engine key: the UTF-8 bytes of the key text.
    pub fn key_bytes(&self) -> (r: &[u8])
        ensures
            r@ == encode_utf8(self.key@),
    {
        self.key.as_str().as_bytes()
    }

    /// Turns the engine's answer into the lookup's result.
    pub fn complete(&self, fetched: Result<Option<Vec<u8>>, String>) -> (r: Result<Option<String>, StoreError>)
        ensures
            fetched is Err ==> fails_with(r, ErrorKind::EngineIoFailure) && r->Err_0.message@ == fetched->Err_0@,
            fetched is Ok ==> item_view(r) == item_outcome(found_bytes(fetched->Ok_0)),
            fetched is Ok && item_outcome(found_bytes(fetched->Ok_0)) is None ==> fails_with(r, ErrorKind::DecodeFailure),
    {
        match fetched {
            Ok(Some(bytes)) => match decode_text(bytes.as_slice()) {
                Ok(text) => Ok(Some(text)),
                Err(e) => Err(e),
            },
            Ok(None) => Ok(None),
            Err(message) => Err(engine_error(ErrorKind::EngineIoFailure, message)),
        }
    }
}

/// Whether a write or delete went through, as the caller sees it.
pub open spec fn write_succeeded(r: Result<(), StoreError>, written: Result<(), String>) -> bool {
    &&& (written is Ok ==> r is Ok)
    &&& (written is Err ==> fails_with(r, ErrorKind::EngineIoFailure) && r->Err_0.message@ == written->Err_0@)
}

/// Reports the outcome of an engine write or delete.
fn write_outcome(written: Result<(), String>) -> (r: Result<(), StoreError>)
    ensures
        write_succeeded(r, written),
{
    match written {
        Ok(()) => Ok(()),
        Err(message) => Err(engine_error(ErrorKind::EngineIoFailure, message)),
    }
}

/// Writing `value` under `key`, replacing any earlier value.
pub struct SetItemTask {
    pub db_id: u32,
    pub key: String,
    pub value: String,
}

impl SetItemTask {
    pub fn new(db_id: u32, key: String, value: String) -> (r: SetItemTask)
        ensures
            r.db_id == db_id,
            r.key@ == key@,
            r.value@ == value@,
    {
        SetItemTask { db_id, key, value }
    }

    /// The engine key: the UTF-8 bytes of the key text.
    pub fn key_bytes(&self) -> (r: &[u8])
        ensures
            r@ == encode_utf8(self.key@),
    {
        self.key.as_str().as_bytes()
    }

    /// The engine value: the UTF-8 bytes of the value text.
    pub fn value_bytes(&self) -> (r: &[u8])
        ensures
            r@ == encode_utf8(self.value@),
    {
        self.value.as_str().as_bytes()
    }

    pub fn complete(&self, written: Result<(), String>) -> (r: Result<(), StoreError>)
        ensures
            write_succeeded(r, written),
    {
        write_outcome(written)
    }
}

/// Deleting `key`; deleting an absent key is no error.
pub struct RemoveItemTask {
    pub db_id: u32,
    pub key: String,
}

impl RemoveItemTask {
    pub fn new(db_id: u32, key: String) -> (r: RemoveItemTask)
        ensures
            r.db_id == db_id,
            r.key@ == key@,
    {
        RemoveItemTask { db_id, key }
    }

    /// The engine key: the UTF-8 bytes of the key text.
    pub fn key_bytes(&self) -> (r: &[u8])
        ensures
            r@ == encode_utf8(self.key@),
    {
        self.key.as_str().as_bytes()
    }

    pub fn complete(&self, deleted: Result<(), String>) -> (r: Result<(), StoreError>)
        ensures
            write_succeeded(r, deleted),
    {
        write_outcome(deleted)
    }
}

/// The key texts a successful listing hands back.
pub open spec fn keys_view(r: Result<Vec<String>, StoreError>) -> Option<Seq<Seq<char>>> {
    match r {
        Ok(v) => Some(texts(v@)),
        Err(_) => None,
    }
}

/// A full forward scan of the keys, optionally filtered by a prefix.
pub struct GetKeysTask {
    pub db_id: u32,
    pub prefix: Option<String>,
}

impl GetKeysTask {
    pub fn new(db_id: u32, prefix: Option<String>) -> (r: GetKeysTask)
        ensures
            r.db_id == db_id,
            r.prefix_view() == match prefix {
                Some(p) => Some(p@),
                None => None::<Seq<char>>,
            },
    {
        GetKeysTask { db_id, prefix }
    }

    pub open spec fn prefix_view(&self) -> Option<Seq<char>> {
        match self.prefix {
            Some(p) => Some(p@),
            None => None,
        }
    }

    /// Whether the listing includes `key`.
    pub fn selects(&self, key: &[u8]) -> (r: bool)
        ensures
            r == is_prefix(prefix_bytes(self.prefix_view()), key@),
    {
        match &self.prefix {
            Some(p) => starts_with(key, p.as_str().as_bytes()),
            None => {
                proof {
                    assert(key@.subrange(0, 0) =~= Seq::<u8>::empty());
                }
                true
            },
        }
    }

    /// Turns the keys a scan met, in scan order, into the listing: the
    /// selected keys as text, `DecodeFailure` if one is not UTF-8, and
    /// `EngineIoFailure` if the scan failed.
    pub fn complete(&self, scanned: Result<Vec<Vec<u8>>, String>) -> (r: Result<Vec<String>, StoreError>)
        ensures
            scanned is Err ==> fails_with(r, ErrorKind::EngineIoFailure) && r->Err_0.message@ == scanned->Err_0@,
            scanned is Ok ==> keys_view(r) == listing(
                byte_keys(scanned->Ok_0@),
                prefix_bytes(self.prefix_view()),
            ),
            scanned is Ok && listing(byte_keys(scanned->Ok_0@), prefix_bytes(self.prefix_view())) is None
                ==> fails_with(r, ErrorKind::DecodeFailure),
    {
        let keys = match scanned {
            Ok(keys) => keys,
            Err(message) => {
                return Err(engine_error(ErrorKind::EngineIoFailure, message));
            },
        };
        let ghost p = prefix_bytes(self.prefix_view());
        let mut out: Vec<String> = Vec::new();
        let mut failed = false;
        let mut i: usize = 0;
        while i < keys.len()
            invariant
                i <= keys@.len(),
                p == prefix_bytes(self.prefix_view()),
                listing(byte_keys(keys@.take(i as int)), p) == if failed {
                    None::<Seq<Seq<char>>>
                } else {
                    Some(texts(out@))
                },
            decreases keys@.len() - i,
        {
            let ghost before = byte_keys(keys@.take(i as int));
            let key = keys[i].as_slice();
            proof {
                assert(byte_keys(keys@.take(i + 1)).drop_last() =~= before);
                assert(byte_keys(keys@.take(i + 1)).last() == key@);
            }
            let selected = self.selects(key);
            proof {
                let after = byte_keys(keys@.take(i + 1));
                if selected {
                    assert(kept_keys(after, p) == kept_keys(before, p).push(key@));
                    assert(kept_keys(before, p).push(key@).drop_last() =~= kept_keys(before, p));
                } else {
                    assert(kept_keys(after, p) == kept_keys(before, p));
                }
            }
            if selected && !failed {
                match decode_text(key) {
                    Ok(t) => {
                        out.push(t);
                        proof {
                            assert(texts(out@) =~= texts(out@.drop_last()).push(t@));
                        }
                    },
                    Err(_) => {
                        failed = true;
                    },
                }
            }
            i = i + 1;
        }
        proof {
            assert(keys@.take(keys@.len() as int) =~= keys@);
        }
        if failed {
            Err(StoreError::new(ErrorKind::DecodeFailure, "a stored key is not valid UTF-8".to_string()))
        } else {
            Ok(out)
        }
    }
}

/// Destroying an instance's store and retiring its handle.
pub struct CloseTask {
    pub db_id: u32,
}

impl CloseTask {
    pub fn new(db_id: u32) -> (r: CloseTask)
        ensures
            r.db_id == db_id,
    {
        CloseTask { db_id }
    }

    /// Retires the handle once the engine's destroy call has returned,
    /// whether or not it succeeded, and reports a failed destroy.
    pub fn complete<T>(&self, registry: &mut Registry<T>, destroyed: Result<(), String>) -> (r: Result<(), StoreError>)
        requires
            old(registry).wf(),
        ensures
            final(registry).wf(),
            final(registry)@ == old(registry)@.remove(self.db_id),
            final(registry).issued() == old(registry).issued(),
            !old(registry)@.contains_key(self.db_id) ==> fails_with(r, ErrorKind::UnknownHandle),
            !old(registry)@.contains_key(self.db_id) ==> final(registry)@ == old(registry)@,
            old(registry)@.contains_key(self.db_id) ==> write_succeeded(r, destroyed),
    {
        match registry.remove(self.db_id) {
            Ok(_) => write_outcome(destroyed),
            Err(e) => Err(e),
        }
    }
}

} // verus!
