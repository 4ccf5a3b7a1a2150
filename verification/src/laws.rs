//! What holds between the operations.
//!
//! The laws are stated over a table's entries and the bytes of the keys, with
//! the functions in which the operations' own contracts are written. A table
//! that is present stands as `Some` of its entries, a key that is present as
//! `Some` of its bytes.

use crate::key::{key_text, lemma_key_text_injective};
use crate::status::{NOT_FOUND, STATUS_OK};
use crate::table::{
    entries_after_put, entries_after_remove, get_value, put_status, remove_status, NULL_VALUE,
};
use vstd::prelude::*;

verus! {

/// A put under a valid key succeeds, and a get of that key then returns the
/// value that was put, whatever the table held before.
pub proof fn law_put_then_get(entries: Map<Seq<char>, usize>, key: Seq<u8>, value: usize)
    requires
        key_text(key) is Some,
    ensures
        put_status(true, Some(key)) == STATUS_OK,
        get_value(Some(entries_after_put(entries, Some(key), value)), Some(key)) == value,
{
}

/// A put under one key leaves what a get of any other key returns.
pub proof fn law_put_keeps_other_keys(
    entries: Map<Seq<char>, usize>,
    key: Seq<u8>,
    value: usize,
    other: Seq<u8>,
)
    requires
        other != key,
    ensures
        get_value(Some(entries_after_put(entries, Some(key), value)), Some(other)) == get_value(
            Some(entries),
            Some(other),
        ),
{
    if key_text(key) is Some && key_text(other) == key_text(key) {
        lemma_key_text_injective(key, other);
    }
}

/// A remove of one key leaves what a get of any other key returns.
pub proof fn law_remove_keeps_other_keys(
    entries: Map<Seq<char>, usize>,
    key: Seq<u8>,
    other: Seq<u8>,
)
    requires
        other != key,
    ensures
        get_value(Some(entries_after_remove(entries, Some(key))), Some(other)) == get_value(
            Some(entries),
            Some(other),
        ),
{
    if key_text(key) is Some && key_text(other) == key_text(key) {
        lemma_key_text_injective(key, other);
    }
}

/// A change asked of a table, with a key that is present.
pub enum Change {
    Put { key: Seq<u8>, value: usize },
    Remove { key: Seq<u8> },
}

impl Change {
    /// The bytes of the key that the change names.
    pub open spec fn key(self) -> Seq<u8> {
        match self {
            Change::Put { key, value } => key,
            Change::Remove { key } => key,
        }
    }
}

/// The entries after one change.
pub open spec fn entries_after(entries: Map<Seq<char>, usize>, change: Change) -> Map<
    Seq<char>,
    usize,
> {
    match change {
        Change::Put { key, value } => entries_after_put(entries, Some(key), value),
        Change::Remove { key } => entries_after_remove(entries, Some(key)),
    }
}

/// The entries after a run of changes, made in order.
pub open spec fn entries_after_all(entries: Map<Seq<char>, usize>, changes: Seq<Change>) -> Map<
    Seq<char>,
    usize,
>
    decreases changes.len(),
{
    if changes.len() == 0 {
        entries
    } else {
        entries_after(entries_after_all(entries, changes.drop_last()), changes.last())
    }
}

/// What a get of a key returns stays the same until that key is put or
/// removed: no run of puts and removes of other keys changes it, however long
/// and whether or not each of them succeeds.
pub proof fn law_get_until_changed(
    entries: Map<Seq<char>, usize>,
    changes: Seq<Change>,
    key: Seq<u8>,
)
    requires
        forall|i: int| 0 <= i < changes.len() ==> (#[trigger] changes[i]).key() != key,
    ensures
        get_value(Some(entries_after_all(entries, changes)), Some(key)) == get_value(
            Some(entries),
            Some(key),
        ),
    decreases changes.len(),
{
    if changes.len() > 0 {
        let earlier = changes.drop_last();
        let before = entries_after_all(entries, earlier);
        law_get_until_changed(entries, earlier, key);
        match changes.last() {
            Change::Put { key: written, value } => {
                law_put_keeps_other_keys(before, written, value, key);
            },
            Change::Remove { key: written } => {
                law_remove_keeps_other_keys(before, written, key);
            },
        }
    }
}

/// Of two puts under one valid key the second wins: a get returns the second
/// value, and the table is as if the first put had never been made.
pub proof fn law_put_overchanges(
    entries: Map<Seq<char>, usize>,
    key: Seq<u8>,
    first: usize,
    second: usize,
)
    requires
        key_text(key) is Some,
    ensures
        get_value(
            Some(entries_after_put(entries_after_put(entries, Some(key), first), Some(key), second)),
            Some(key),
        ) == second,
        entries_after_put(entries_after_put(entries, Some(key), first), Some(key), second)
            == entries_after_put(entries, Some(key), second),
{
    let text = key_text(key)->0;
    assert(entries.insert(text, first).insert(text, second) =~= entries.insert(text, second));
}

/// After a remove of a valid key, a get of that key returns the null value
/// and a second remove reports that nothing is there, whether or not the first
/// one found an entry.
pub proof fn law_remove_then_absent(entries: Map<Seq<char>, usize>, key: Seq<u8>)
    requires
        key_text(key) is Some,
    ensures
        get_value(Some(entries_after_remove(entries, Some(key))), Some(key)) == NULL_VALUE,
        remove_status(Some(entries_after_remove(entries, Some(key))), Some(key)) == NOT_FOUND,
{
}

/// A remove of a valid key under which nothing is stored reports so and
/// leaves the table as it was.
pub proof fn law_remove_absent(entries: Map<Seq<char>, usize>, key: Seq<u8>)
    requires
        key_text(key) is Some,
        !entries.contains_key(key_text(key)->0),
    ensures
        remove_status(Some(entries), Some(key)) == NOT_FOUND,
        entries_after_remove(entries, Some(key)) == entries,
{
    assert(entries.remove(key_text(key)->0) =~= entries);
}

/// A put or a remove that does not answer with `STATUS_OK` leaves the table
/// as it was.
pub proof fn law_failure_changes_nothing(
    entries: Map<Seq<char>, usize>,
    key: Option<Seq<u8>>,
    value: usize,
)
    ensures
        put_status(true, key) != STATUS_OK ==> entries_after_put(entries, key, value) == entries,
        remove_status(Some(entries), key) != STATUS_OK ==> entries_after_remove(entries, key)
            == entries,
{
    if remove_status(Some(entries), key) == NOT_FOUND {
        assert(entries.remove(key_text(key->0)->0) =~= entries);
    }
}

/// On a get nothing tells a missing entry from a malformed request: a valid
/// key under which nothing is stored, a key that is not valid text, an absent
/// key and an absent table all give the null value.
pub proof fn law_get_collapses(
    entries: Map<Seq<char>, usize>,
    unused: Seq<u8>,
    malformed: Seq<u8>,
    any: Option<Seq<u8>>,
)
    requires
        key_text(unused) is Some,
        !entries.contains_key(key_text(unused)->0),
        key_text(malformed) is None,
    ensures
        get_value(Some(entries), Some(unused)) == NULL_VALUE,
        get_value(Some(entries), Some(malformed)) == NULL_VALUE,
        get_value(Some(entries), None) == NULL_VALUE,
        get_value(None, any) == NULL_VALUE,
{
}

} // verus!
