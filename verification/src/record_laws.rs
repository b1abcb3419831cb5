//! What is read from a JSON value, by what its objects hold.
use crate::json::JsonView;
use crate::reader::{
    Shape, entries_error, entry_error, entry_is_found, entry_is_not_found, field, items_error,
    key_index, known_entry, lack_error, place, place_is_found, record_error, record_is_fine,
    unknown_entry,
};
use vstd::prelude::*;

verus! {

// ---------------------------------------------------------------------------
// Objects
// ---------------------------------------------------------------------------

/// Whether an object gives no key twice.
pub open spec fn gives_keys_once(entries: Seq<(Seq<char>, JsonView)>) -> bool {
    forall|i: int, j: int|
        0 <= i < j < entries.len() ==> (#[trigger] entries[i]).0 != (#[trigger] entries[j]).0
}

/// Whether an entry of an object has a key.
pub open spec fn is_given(entries: Seq<(Seq<char>, JsonView)>, key: Seq<char>) -> bool {
    exists|n: int| 0 <= n < entries.len() && (#[trigger] entries[n]).0 == key
}

/// What an object gives under a key.
pub open spec fn given(entries: Seq<(Seq<char>, JsonView)>, key: Seq<char>) -> Option<JsonView> {
    if is_given(entries, key) {
        let n = choose|n: int| 0 <= n < entries.len() && (#[trigger] entries[n]).0 == key;
        Some(entries[n].1)
    } else {
        None
    }
}

/// An object gives under the key of an entry what the entry holds.
pub proof fn entries_are_given(entries: Seq<(Seq<char>, JsonView)>, n: int)
    requires
        gives_keys_once(entries),
        0 <= n < entries.len(),
    ensures
        given(entries, entries[n].0) == Some(entries[n].1),
{
    let key = entries[n].0;
    let m = choose|m: int| 0 <= m < entries.len() && (#[trigger] entries[m]).0 == key;
    if m < n {
        assert(entries[m].0 != entries[n].0);
    } else if n < m {
        assert(entries[n].0 != entries[m].0);
    }
}

/// A field of an object is what the object gives under its key.
pub proof fn field_is_given(entries: Seq<(Seq<char>, JsonView)>, position: nat, key: Seq<char>)
    requires
        gives_keys_once(entries),
    ensures
        field(JsonView::Object(entries), position, key) == given(entries, key),
        key_index(entries, key) >= 0 <==> is_given(entries, key),
{
    if is_given(entries, key) {
        let n = choose|n: int| 0 <= n < entries.len() && (#[trigger] entries[n]).0 == key;
        entry_is_found(entries, n);
    } else {
        entry_is_not_found(entries, key);
    }
}

/// Whether a field of a record may be what an object gives.
pub open spec fn fits<S: Shape>(i: int, x: Option<JsonView>) -> bool {
    match x {
        Some(v) => S::field_error(i, v) is None,
        None => S::may_lack(i),
    }
}

/// Whether a record has no two fields of one name.
pub open spec fn fields_differ<S: Shape>() -> bool {
    forall|i: int, j: int|
        0 <= i < j < S::keys().len() ==> #[trigger] S::keys()[i] != #[trigger] S::keys()[j]
}

proof fn no_entry_error<S: Shape>(entries: Seq<(Seq<char>, JsonView)>, k: int, n: nat)
    requires
        0 <= k < n <= entries.len(),
        entries_error::<S>(entries, n) is None,
    ensures
        entry_error::<S>(entries, k) is None,
    decreases n,
{
    if k < n - 1 {
        no_entry_error::<S>(entries, k, (n - 1) as nat);
    }
}

proof fn no_lack_error<S: Shape>(entries: Seq<(Seq<char>, JsonView)>, k: int, n: nat)
    requires
        0 <= k < n <= S::keys().len(),
        lack_error::<S>(entries, n) is None,
    ensures
        S::may_lack(k) || key_index(entries, S::keys()[k]) >= 0,
    decreases n,
{
    if k < n - 1 {
        no_lack_error::<S>(entries, k, (n - 1) as nat);
    }
}

/// An object is a record if and only if each field may be what the object gives under its
/// name. Other entries do not matter.
pub proof fn records_fit<S: Shape>(entries: Seq<(Seq<char>, JsonView)>)
    requires
        gives_keys_once(entries),
        fields_differ::<S>(),
    ensures
        record_error::<S>(JsonView::Object(entries)) is None <==> forall|i: int|
            0 <= i < S::keys().len() ==> fits::<S>(i, given(entries, #[trigger] S::keys()[i])),
{
    let keys = S::keys();
    assert forall|i: int| 0 <= i < keys.len() implies place(keys, #[trigger] keys[i]) == i by {
        place_is_found(keys, i);
    }
    if record_error::<S>(JsonView::Object(entries)) is None {
        assert forall|i: int| 0 <= i < S::keys().len() implies fits::<S>(
            i,
            given(entries, #[trigger] S::keys()[i]),
        ) by {
            let key = keys[i];
            field_is_given(entries, 0, key);
            no_lack_error::<S>(entries, i, keys.len());
            if is_given(entries, key) {
                let n = choose|n: int| 0 <= n < entries.len() && (#[trigger] entries[n]).0 == key;
                no_entry_error::<S>(entries, n, entries.len());
                let before = entries.take(n);
                assert forall|k: int| 0 <= k < before.len() implies (#[trigger] before[k]).0
                    != key by {
                    assert(before[k] == entries[k]);
                    assert(entries[k].0 != entries[n].0);
                }
                entry_is_not_found(before, key);
                assert(place(keys, keys[i]) == i);
            }
        }
    }
    if forall|i: int|
        0 <= i < S::keys().len() ==> fits::<S>(i, given(entries, #[trigger] S::keys()[i])) {
        assert forall|n: int| 0 <= n < entries.len() implies #[trigger] entry_error::<S>(
            entries,
            n,
        ) is None by {
            entries_are_given(entries, n);
            assert forall|k: int| 0 <= k < n implies (#[trigger] entries[k]).0 != entries[n].0 by {
            }
            if exists|i: int| 0 <= i < keys.len() && #[trigger] keys[i] == entries[n].0 {
                let i = choose|i: int| 0 <= i < keys.len() && #[trigger] keys[i] == entries[n].0;
                assert(fits::<S>(i, given(entries, S::keys()[i])));
                known_entry::<S>(entries, n, i);
            } else {
                unknown_entry::<S>(entries, n);
            }
        }
        assert forall|i: int| 0 <= i < S::keys().len() implies S::may_lack(i) || key_index(
            entries,
            #[trigger] S::keys()[i],
        ) >= 0 by {
            assert(fits::<S>(i, given(entries, S::keys()[i])));
            field_is_given(entries, 0, keys[i]);
        }
        record_is_fine::<S>(entries);
    }
}

/// The entries of the object that gives some items under the names of the fields.
pub open spec fn named<S: Shape>(items: Seq<JsonView>) -> Seq<(Seq<char>, JsonView)> {
    Seq::new(items.len(), |i: int| (S::keys()[i], items[i]))
}

proof fn items_are_fine<S: Shape>(items: Seq<JsonView>, n: nat)
    requires
        n <= items.len(),
    ensures
        items_error::<S>(items, n) is None <==> forall|i: int|
            0 <= i < n ==> S::field_error(i, #[trigger] items[i]) is None,
    decreases n,
{
    if n > 0 {
        items_are_fine::<S>(items, (n - 1) as nat);
        if items_error::<S>(items, n) is None {
            assert forall|i: int| 0 <= i < n implies S::field_error(
                i,
                #[trigger] items[i],
            ) is None by {
                if i == n - 1 {
                }
            }
        }
    }
}

/// An array that holds all the fields in order is the record that an object is which gives
/// them by name, and an array that holds more is none.
pub proof fn arrays_are_records<S: Shape>(items: Seq<JsonView>)
    requires
        fields_differ::<S>(),
    ensures
        items.len() == S::keys().len() ==> (record_error::<S>(JsonView::Array(items)) is None <==>
            record_error::<S>(JsonView::Object(named::<S>(items))) is None),
        items.len() == S::keys().len() ==> forall|i: int|
            0 <= i < items.len() ==> #[trigger] field(
                JsonView::Array(items),
                i as nat,
                S::keys()[i],
            ) == field(JsonView::Object(named::<S>(items)), i as nat, S::keys()[i]),
        items.len() > S::keys().len() ==> record_error::<S>(JsonView::Array(items)) is Some,
{
    let keys = S::keys();
    if items.len() == keys.len() {
        let entries = named::<S>(items);
        assert(gives_keys_once(entries));
        items_are_fine::<S>(items, items.len());
        records_fit::<S>(entries);
        assert forall|i: int| 0 <= i < items.len() implies given(
            entries,
            #[trigger] keys[i],
        ) == Some(items[i]) by {
            entries_are_given(entries, i);
        }
        assert forall|i: int| 0 <= i < items.len() implies #[trigger] field(
            JsonView::Array(items),
            i as nat,
            S::keys()[i],
        ) == field(JsonView::Object(entries), i as nat, S::keys()[i]) by {
            field_is_given(entries, i as nat, keys[i]);
            assert(given(entries, keys[i]) == Some(items[i]));
        }
        if record_error::<S>(JsonView::Array(items)) is None {
            assert forall|i: int| 0 <= i < S::keys().len() implies fits::<S>(
                i,
                given(entries, #[trigger] S::keys()[i]),
            ) by {
                assert(S::field_error(i, items[i]) is None);
            }
        }
        if record_error::<S>(JsonView::Object(entries)) is None {
            assert forall|i: int| 0 <= i < items.len() implies S::field_error(
                i,
                #[trigger] items[i],
            ) is None by {
                assert(fits::<S>(i, given(entries, S::keys()[i])));
                assert(given(entries, keys[i]) == Some(items[i]));
            }
        }
    }
}

/// A field of an array that holds all the fields is the item that the object gives by name.
pub proof fn array_fields_are_named<S: Shape>(items: Seq<JsonView>, i: nat)
    requires
        fields_differ::<S>(),
        items.len() == S::keys().len(),
        i < items.len(),
    ensures
        field(JsonView::Array(items), i, S::keys()[i as int]) == field(
            JsonView::Object(named::<S>(items)),
            i,
            S::keys()[i as int],
        ),
{
    let entries = named::<S>(items);
    assert(gives_keys_once(entries));
    entries_are_given(entries, i as int);
    field_is_given(entries, i, S::keys()[i as int]);
}

} // verus!
