//! The table and its five operations.
//!
//! A table is owned by whoever created it. The operations borrow it and
//! `hmap_destroy` takes it back, so a table that was given back cannot be
//! used again. At the boundary the table and the key may each be absent, which
//! is `None` here.
//!
//! A value is a `usize`: an address, or any other token of that size. The
//! table stores it and returns it; it does nothing else with it, and what the
//! value refers to stays the caller's to look after, also when a put
//! overwrites it, a remove drops it or the table is destroyed.

use crate::key::{key_of, key_text};
use crate::status::{INVALID_KEY_ENCODING, NOT_FOUND, NULL_ARGUMENT, STATUS_OK};
use vstd::hash_map::StringHashMap;
use vstd::prelude::*;

verus! {

/// The null value. Reads answer with it where there is nothing to return; it
/// may also be stored like any other value.
pub const NULL_VALUE: usize = 0;

/// A table from text keys to opaque, pointer-sized values.
///
/// Its view is the map from each key's text to the value stored under it.
#[allow(non_camel_case_types)]
pub struct hmap {
    inner: StringHashMap<usize>,
}

impl View for hmap {
    type V = Map<Seq<char>, usize>;

    closed spec fn view(&self) -> Map<Seq<char>, usize> {
        self.inner@
    }
}

/// The bytes of a key that may be absent.
pub open spec fn key_bytes(key: Option<&[u8]>) -> Option<Seq<u8>> {
    match key {
        Some(k) => Some(k@),
        None => None,
    }
}

/// The entries of a table that may be absent.
pub open spec fn entries_of(map: Option<&hmap>) -> Option<Map<Seq<char>, usize>> {
    match map {
        Some(m) => Some(m@),
        None => None,
    }
}

/// The entries of a table that may be absent, as an operation that may change
/// it finds them.
pub open spec fn entries_before(map: Option<&mut hmap>) -> Option<Map<Seq<char>, usize>> {
    match map {
        Some(m) => Some(m@),
        None => None,
    }
}

/// The status of a put. An absent table or key is reported before the key's
/// bytes are looked at. `live` says whether the table is present.
pub open spec fn put_status(live: bool, key: Option<Seq<u8>>) -> i32 {
    if !live || key is None {
        NULL_ARGUMENT
    } else if key_text(key->0) is None {
        INVALID_KEY_ENCODING
    } else {
        STATUS_OK
    }
}

/// The entries after a put: with the value under the key's text where the key
/// is valid, unchanged otherwise.
pub open spec fn entries_after_put(
    entries: Map<Seq<char>, usize>,
    key: Option<Seq<u8>>,
    value: usize,
) -> Map<Seq<char>, usize> {
    match key {
        Some(bytes) => match key_text(bytes) {
            Some(text) => entries.insert(text, value),
            None => entries,
        },
        None => entries,
    }
}

/// What a get returns: the value stored under the key's text, and the null
/// value in every other case.
pub open spec fn get_value(entries: Option<Map<Seq<char>, usize>>, key: Option<Seq<u8>>) -> usize {
    match (entries, key) {
        (Some(e), Some(bytes)) => match key_text(bytes) {
            Some(text) => if e.contains_key(text) {
                e[text]
            } else {
                NULL_VALUE
            },
            None => NULL_VALUE,
        },
        _ => NULL_VALUE,
    }
}

/// The status of a remove: as for a put, and then whether there is an entry
/// under the key's text.
pub open spec fn remove_status(entries: Option<Map<Seq<char>, usize>>, key: Option<Seq<u8>>) -> i32 {
    match (entries, key) {
        (Some(e), Some(bytes)) => match key_text(bytes) {
            Some(text) => if e.contains_key(text) {
                STATUS_OK
            } else {
                NOT_FOUND
            },
            None => INVALID_KEY_ENCODING,
        },
        _ => NULL_ARGUMENT,
    }
}

/// The entries after a remove: without the key's text where the key is valid,
/// unchanged otherwise.
pub open spec fn entries_after_remove(
    entries: Map<Seq<char>, usize>,
    key: Option<Seq<u8>>,
) -> Map<Seq<char>, usize> {
    match key {
        Some(bytes) => match key_text(bytes) {
            Some(text) => entries.remove(text),
            None => entries,
        },
        None => entries,
    }
}

/// Creates an empty table. `initial_capacity` is a hint for how many entries
/// to make room for; the table grows beyond it as needed.
pub fn hmap_create(initial_capacity: usize) -> (table: hmap)
    ensures
        table@ == Map::<Seq<char>, usize>::empty(),
{
    hmap { inner: StringHashMap::with_capacity(initial_capacity) }
}

/// Stores `value` under `key`, in place of any value stored there before, and
/// answers `STATUS_OK`. Where the table or the key is absent, or the key is
/// not valid text, the table stays as it is and the status says which.
pub fn hmap_put(map: Option<&mut hmap>, key: Option<&[u8]>, value: usize) -> (status: i32)
    ensures
        status == put_status(map is Some, key_bytes(key)),
        map is Some ==> final(map->0)@ == entries_after_put(old(map->0)@, key_bytes(key), value),
{
    let table = match map {
        Some(m) => m,
        None => {
            return NULL_ARGUMENT;
        },
    };
    let bytes = match key {
        Some(k) => k,
        None => {
            return NULL_ARGUMENT;
        },
    };
    match key_of(bytes) {
        Some(text) => {
            table.inner.insert(text.to_owned(), value);
            STATUS_OK
        },
        None => INVALID_KEY_ENCODING,
    }
}

/// Returns the value stored under `key`, or the null value where there is
/// none, the key is not valid, or the table or the key is absent.
pub fn hmap_get(map: Option<&hmap>, key: Option<&[u8]>) -> (value: usize)
    ensures
        value == get_value(entries_of(map), key_bytes(key)),
{
    let table = match map {
        Some(m) => m,
        None => {
            return NULL_VALUE;
        },
    };
    let bytes = match key {
        Some(k) => k,
        None => {
            return NULL_VALUE;
        },
    };
    let text = match key_of(bytes) {
        Some(t) => t,
        None => {
            return NULL_VALUE;
        },
    };
    match table.inner.get(text) {
        Some(v) => *v,
        None => NULL_VALUE,
    }
}

/// Removes the entry under `key` and answers `STATUS_OK`. Where the table or
/// the key is absent, the key is not valid text, or there is no such entry,
/// the table stays as it is and the status says which.
pub fn hmap_remove(map: Option<&mut hmap>, key: Option<&[u8]>) -> (status: i32)
    ensures
        status == remove_status(entries_before(map), key_bytes(key)),
        map is Some ==> final(map->0)@ == entries_after_remove(old(map->0)@, key_bytes(key)),
{
    let table = match map {
        Some(m) => m,
        None => {
            return NULL_ARGUMENT;
        },
    };
    let bytes = match key {
        Some(k) => k,
        None => {
            return NULL_ARGUMENT;
        },
    };
    let text = match key_of(bytes) {
        Some(t) => t,
        None => {
            return INVALID_KEY_ENCODING;
        },
    };
    if table.inner.contains_key(text) {
        table.inner.remove(text);
        STATUS_OK
    } else {
        NOT_FOUND
    }
}

/// Takes a table back and releases its storage. An absent table is accepted,
/// and nothing happens. The stored values are dropped from the table and
/// otherwise left alone.
pub fn hmap_destroy(map: Option<hmap>) {
    if let Some(table) = map {
        let _released = table;
    }
}

} // verus!
