//! Header collections: ordered lists of (name, value) pairs in which a name
//! may occur any number of times.
//!
//! Names are compared exactly as they are stored; nothing is normalised.

use vstd::prelude::*;
use crate::types::{Entries, entries_view, strings_view};

verus! {

/// The pairs whose name is `name`.
pub open spec fn named(name: Seq<char>) -> spec_fn((Seq<char>, Seq<char>)) -> bool {
    |entry: (Seq<char>, Seq<char>)| entry.0 == name
}

/// The pairs whose name is not `name`.
pub open spec fn not_named(name: Seq<char>) -> spec_fn((Seq<char>, Seq<char>)) -> bool {
    |entry: (Seq<char>, Seq<char>)| entry.0 != name
}

/// All values stored under `name`, in the order of the collection.
pub open spec fn values_of(entries: Entries, name: Seq<char>) -> Seq<Seq<char>> {
    entries.filter(named(name)).map_values(|entry: (Seq<char>, Seq<char>)| entry.1)
}

/// The collection without the pairs stored under `name`.
pub open spec fn without(entries: Entries, name: Seq<char>) -> Entries {
    entries.filter(not_named(name))
}

/// One pair under `name` for each of `values`, in their order.
pub open spec fn paired(name: Seq<char>, values: Seq<Seq<char>>) -> Entries {
    values.map_values(|value: Seq<char>| (name, value))
}

/// The collection after `name` has been set to `values`: the pairs stored
/// under `name` leave, and one pair for each value is added at the end.
pub open spec fn with_set(entries: Entries, name: Seq<char>, values: Seq<Seq<char>>) -> Entries {
    without(entries, name) + paired(name, values)
}

/// The collection after one pair has been added at the end.
pub open spec fn with_appended(entries: Entries, name: Seq<char>, value: Seq<char>) -> Entries {
    entries.push((name, value))
}

/// How the values under `name` change when a pair is added at the end.
pub proof fn lemma_values_of_push(entries: Entries, entry: (Seq<char>, Seq<char>), name: Seq<char>)
    ensures
        values_of(entries.push(entry), name) == if entry.0 == name {
            values_of(entries, name).push(entry.1)
        } else {
            values_of(entries, name)
        },
{
    entries.lemma_filter_push(entry, named(name));
    if entry.0 == name {
        assert(values_of(entries.push(entry), name) =~= values_of(entries, name).push(entry.1));
    }
}

/// How the rest of a collection changes when a pair is added at the end.
pub proof fn lemma_without_push(entries: Entries, entry: (Seq<char>, Seq<char>), name: Seq<char>)
    ensures
        without(entries.push(entry), name) == if entry.0 != name {
            without(entries, name).push(entry)
        } else {
            without(entries, name)
        },
{
    entries.lemma_filter_push(entry, not_named(name));
}

/// An empty collection has no values under any name, and nothing to remove.
pub proof fn lemma_empty_entries(name: Seq<char>)
    ensures
        values_of(Seq::empty(), name) == Seq::<Seq<char>>::empty(),
        without(Seq::empty(), name) == Seq::<(Seq<char>, Seq<char>)>::empty(),
{
    reveal(Seq::filter);
    assert(values_of(Seq::empty(), name) =~= Seq::<Seq<char>>::empty());
}

/// The values under `other` once the pairs under `name` are gone: none where
/// the two names are the same, and those of before where they differ.
pub proof fn lemma_values_of_without(entries: Entries, name: Seq<char>, other: Seq<char>)
    ensures
        values_of(without(entries, name), other) == if other == name {
            Seq::<Seq<char>>::empty()
        } else {
            values_of(entries, other)
        },
    decreases entries.len(),
{
    if entries.len() == 0 {
        lemma_empty_entries(name);
        lemma_empty_entries(other);
        assert(entries =~= Seq::empty());
    } else {
        let init = entries.drop_last();
        let last = entries.last();
        assert(entries =~= init.push(last));
        lemma_values_of_without(init, name, other);
        lemma_without_push(init, last, name);
        lemma_values_of_push(init, last, other);
        if last.0 != name {
            lemma_values_of_push(without(init, name), last, other);
        }
    }
}

/// The values under `other` among pairs that all carry `name`: all of them
/// where the two names are the same, none where they differ.
pub proof fn lemma_values_of_paired(name: Seq<char>, values: Seq<Seq<char>>, other: Seq<char>)
    ensures
        values_of(paired(name, values), other) == if other == name {
            values
        } else {
            Seq::<Seq<char>>::empty()
        },
    decreases values.len(),
{
    if values.len() == 0 {
        lemma_empty_entries(other);
        assert(paired(name, values) =~= Seq::empty());
        assert(values =~= Seq::empty());
    } else {
        let init = values.drop_last();
        let last = values.last();
        assert(values =~= init.push(last));
        assert(paired(name, values) =~= paired(name, init).push((name, last)));
        lemma_values_of_paired(name, init, other);
        lemma_values_of_push(paired(name, init), (name, last), other);
    }
}

/// The values under a name in two collections put end to end.
pub proof fn lemma_values_of_add(first: Entries, second: Entries, name: Seq<char>)
    ensures
        values_of(first + second, name) == values_of(first, name) + values_of(second, name),
    decreases second.len(),
{
    if second.len() == 0 {
        lemma_empty_entries(name);
        assert(second =~= Seq::empty());
        assert(first + second =~= first);
        assert(values_of(first, name) + values_of(second, name) =~= values_of(first, name));
    } else {
        let init = second.drop_last();
        let last = second.last();
        assert(second =~= init.push(last));
        assert(first + second =~= (first + init).push(last));
        lemma_values_of_add(first, init, name);
        lemma_values_of_push(first + init, last, name);
        lemma_values_of_push(init, last, name);
        if last.0 == name {
            assert(values_of(first + second, name) =~= values_of(first, name) + values_of(
                second,
                name,
            ));
        }
    }
}

/// Reading one more element of a vector of entries adds its pair to the view.
pub proof fn lemma_entries_view_take(entries: Seq<(String, String)>, i: int)
    requires
        0 <= i < entries.len(),
    ensures
        entries_view(entries).take(i + 1) == entries_view(entries).take(i).push(
            (entries[i].0@, entries[i].1@),
        ),
        entries_view(entries).take(entries.len() as int) == entries_view(entries),
        entries_view(entries).take(0) == Seq::<(Seq<char>, Seq<char>)>::empty(),
{
    assert(entries_view(entries).take(i + 1) =~= entries_view(entries).take(i).push(
        (entries[i].0@, entries[i].1@),
    ));
    assert(entries_view(entries).take(entries.len() as int) =~= entries_view(entries));
    assert(entries_view(entries).take(0) =~= Seq::<(Seq<char>, Seq<char>)>::empty());
}

/// A copy of a list of entries that shares nothing with it.
pub fn clone_entries(entries: &Vec<(String, String)>) -> (copy: Vec<(String, String)>)
    ensures
        entries_view(copy@) == entries_view(entries@),
{
    let mut copy: Vec<(String, String)> = Vec::new();
    let mut i: usize = 0;
    while i < entries.len()
        invariant
            i <= entries.len(),
            entries_view(copy@) == entries_view(entries@).take(i as int),
        decreases entries.len() - i,
    {
        proof {
            lemma_entries_view_take(entries@, i as int);
        }
        let name: String = entries[i].0.clone();
        let value: String = entries[i].1.clone();
        copy.push((name, value));
        assert(entries_view(copy@) =~= entries_view(entries@).take(i as int + 1));
        i += 1;
    }
    assert(entries_view(entries@).take(entries.len() as int) =~= entries_view(entries@));
    copy
}

/// The values stored under `name`, in the order of the collection.
pub fn get_values(entries: &Vec<(String, String)>, name: &String) -> (values: Vec<String>)
    ensures
        strings_view(values@) == values_of(entries_view(entries@), name@),
{
    let mut values: Vec<String> = Vec::new();
    let mut i: usize = 0;
    proof {
        reveal(Seq::filter);
        assert(entries_view(entries@).take(0) =~= Seq::<(Seq<char>, Seq<char>)>::empty());
        assert(strings_view(values@) =~= values_of(entries_view(entries@).take(0), name@));
    }
    while i < entries.len()
        invariant
            i <= entries.len(),
            strings_view(values@) == values_of(entries_view(entries@).take(i as int), name@),
        decreases entries.len() - i,
    {
        proof {
            lemma_entries_view_take(entries@, i as int);
            lemma_values_of_push(
                entries_view(entries@).take(i as int),
                (entries[i as int].0@, entries[i as int].1@),
                name@,
            );
        }
        if entries[i].0 == *name {
            let ghost before = strings_view(values@);
            let value: String = entries[i].1.clone();
            values.push(value);
            assert(strings_view(values@) =~= before.push(entries[i as int].1@));
        }
        i += 1;
    }
    proof {
        assert(entries_view(entries@).take(entries.len() as int) =~= entries_view(entries@));
    }
    values
}

/// Removes every pair stored under `name`; the others keep their order.
pub fn remove_name(entries: &mut Vec<(String, String)>, name: &String)
    ensures
        entries_view(final(entries)@) == without(entries_view(old(entries)@), name@),
{
    let mut kept: Vec<(String, String)> = Vec::new();
    let mut i: usize = 0;
    proof {
        reveal(Seq::filter);
        assert(entries_view(entries@).take(0) =~= Seq::<(Seq<char>, Seq<char>)>::empty());
        assert(entries_view(kept@) =~= without(entries_view(entries@).take(0), name@));
    }
    while i < entries.len()
        invariant
            i <= entries.len(),
            *entries == *old(entries),
            entries_view(kept@) == without(entries_view(entries@).take(i as int), name@),
        decreases entries.len() - i,
    {
        proof {
            lemma_entries_view_take(entries@, i as int);
            lemma_without_push(
                entries_view(entries@).take(i as int),
                (entries[i as int].0@, entries[i as int].1@),
                name@,
            );
        }
        if entries[i].0 != *name {
            let ghost before = entries_view(kept@);
            let kept_name: String = entries[i].0.clone();
            let kept_value: String = entries[i].1.clone();
            kept.push((kept_name, kept_value));
            assert(entries_view(kept@) =~= before.push(
                (entries[i as int].0@, entries[i as int].1@),
            ));
        }
        i += 1;
    }
    proof {
        assert(entries_view(entries@).take(entries.len() as int) =~= entries_view(entries@));
    }
    *entries = kept;
}

/// Adds one pair at the end.
pub fn append_value(entries: &mut Vec<(String, String)>, name: String, value: String)
    ensures
        entries_view(final(entries)@) == with_appended(entries_view(old(entries)@), name@, value@),
{
    entries.push((name, value));
    assert(entries_view(entries@) =~= with_appended(entries_view(old(entries)@), name@, value@));
}

/// Sets `name` to `values`: the pairs stored under `name` leave, then one pair
/// for each value is added at the end, in the order of `values`.
pub fn set_values(entries: &mut Vec<(String, String)>, name: &String, values: Vec<String>)
    ensures
        entries_view(final(entries)@) == with_set(
            entries_view(old(entries)@),
            name@,
            strings_view(values@),
        ),
{
    remove_name(entries, name);
    let ghost rest = entries_view(entries@);
    let mut values = values;
    let ghost all = strings_view(values@);
    let mut i: usize = 0;
    assert(entries_view(entries@) =~= rest + paired(name@, all.take(0)));
    while i < values.len()
        invariant
            i <= values.len(),
            strings_view(values@) == all,
            entries_view(entries@) == rest + paired(name@, all.take(i as int)),
        decreases values.len() - i,
    {
        let ghost before = entries_view(entries@);
        let value: String = values[i].clone();
        entries.push((name.clone(), value));
        assert(all[i as int] == values@[i as int]@);
        assert(entries_view(entries@) =~= before.push((name@, all[i as int])));
        assert(paired(name@, all.take(i as int + 1)) =~= paired(name@, all.take(i as int)).push(
            (name@, all[i as int]),
        ));
        assert(entries_view(entries@) =~= rest + paired(name@, all.take(i as int + 1)));
        i += 1;
    }
    assert(all.take(values.len() as int) =~= all);
}

} // verus!
