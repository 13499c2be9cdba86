//! The named inputs of a request.

use crate::text::{lemma_text_le_antisymmetric, lemma_text_le_total, lemma_text_le_transitive};
use crate::text::{str_eq, str_le, text_le};
use vstd::prelude::*;

verus! {

/// Named inputs of a request, at most one value for each key, in the order of the keys.
#[derive(Debug, PartialEq, Eq)]
pub struct ServiceInput {
    entries: Vec<(String, String)>,
}

/// The values of `entries` by their keys.
spec fn entries_map(entries: Seq<(String, String)>) -> Map<Seq<char>, Seq<char>>
    decreases entries.len(),
{
    if entries.len() == 0 {
        Map::empty()
    } else {
        entries_map(entries.drop_last()).insert(entries.last().0@, entries.last().1@)
    }
}

spec fn keys_distinct(entries: Seq<(String, String)>) -> bool {
    forall|i: int, j: int|
        0 <= i < j < entries.len() ==> #[trigger] entries[i].0@ != #[trigger] entries[j].0@
}

/// `a` stands before `b`.
pub open spec fn key_before(a: Seq<char>, b: Seq<char>) -> bool {
    text_le(a, b) && a != b
}

spec fn keys_sorted(entries: Seq<(String, String)>) -> bool {
    forall|i: int, j: int|
        0 <= i < j < entries.len() ==> key_before(
            (#[trigger] entries[i]).0@,
            (#[trigger] entries[j]).0@,
        )
}

proof fn lemma_sorted_keys_distinct(entries: Seq<(String, String)>)
    requires
        keys_sorted(entries),
    ensures
        keys_distinct(entries),
{
    assert forall|i: int, j: int| 0 <= i < j < entries.len() implies #[trigger] entries[i].0@
        != #[trigger] entries[j].0@ by {
        assert(key_before(entries[i].0@, entries[j].0@));
    }
}

proof fn lemma_entries_insert(entries: Seq<(String, String)>, at: int, entry: (String, String))
    requires
        0 <= at <= entries.len(),
        forall|i: int| 0 <= i < entries.len() ==> (#[trigger] entries[i]).0@ != entry.0@,
    ensures
        entries_map(entries.insert(at, entry)) == entries_map(entries).insert(entry.0@, entry.1@),
    decreases entries.len(),
{
    let after = entries.insert(at, entry);
    if at == entries.len() {
        assert(after.drop_last() =~= entries);
    } else {
        let rest = entries.drop_last();
        assert(after.drop_last() =~= rest.insert(at, entry));
        assert(after.last() == entries.last());
        assert(entries[entries.len() - 1].0@ != entry.0@);
        assert forall|i: int| 0 <= i < rest.len() implies (#[trigger] rest[i]).0@ != entry.0@ by {
            assert(rest[i] == entries[i]);
        }
        lemma_entries_insert(rest, at, entry);
        assert(entries_map(after) =~= entries_map(entries).insert(entry.0@, entry.1@));
    }
}

proof fn lemma_insert_keeps_sorted(entries: Seq<(String, String)>, at: int, entry: (String, String))
    requires
        0 <= at <= entries.len(),
        keys_sorted(entries),
        forall|i: int| 0 <= i < at ==> key_before((#[trigger] entries[i]).0@, entry.0@),
        at < entries.len() ==> key_before(entry.0@, entries[at].0@),
    ensures
        keys_sorted(entries.insert(at, entry)),
        forall|i: int| 0 <= i < entries.len() ==> (#[trigger] entries[i]).0@ != entry.0@,
{
    let after = entries.insert(at, entry);
    assert forall|j: int| at <= j < entries.len() implies key_before(
        entry.0@,
        (#[trigger] entries[j]).0@,
    ) by {
        if j > at {
            assert(key_before(entries[at].0@, entries[j].0@));
            lemma_text_le_transitive(entry.0@, entries[at].0@, entries[j].0@);
            if entry.0@ == entries[j].0@ {
                lemma_text_le_antisymmetric(entries[at].0@, entries[j].0@);
            }
        }
    }
    assert forall|i: int, j: int| 0 <= i < j < after.len() implies key_before(
        (#[trigger] after[i]).0@,
        (#[trigger] after[j]).0@,
    ) by {
        if i < at && j < at {
            assert(key_before(entries[i].0@, entries[j].0@));
        } else if i < at && j > at {
            assert(key_before(entries[i].0@, entries[j - 1].0@));
        } else if i == at {
            assert(after[j] == entries[j - 1]);
        } else if i > at {
            assert(key_before(entries[i - 1].0@, entries[j - 1].0@));
        } else {
            assert(key_before(entries[i].0@, entry.0@));
        }
    }
}

proof fn lemma_entries_map(entries: Seq<(String, String)>, i: int)
    requires
        keys_distinct(entries),
        0 <= i < entries.len(),
    ensures
        entries_map(entries).contains_key(entries[i].0@),
        entries_map(entries)[entries[i].0@] == entries[i].1@,
    decreases entries.len(),
{
    if i < entries.len() - 1 {
        assert(entries.drop_last()[i] == entries[i]);
        assert forall|a: int, b: int|
            0 <= a < b < entries.drop_last().len() implies #[trigger] entries.drop_last()[a].0@
            != #[trigger] entries.drop_last()[b].0@ by {
            assert(entries[a].0@ != entries[b].0@);
        }
        lemma_entries_map(entries.drop_last(), i);
    }
}

proof fn lemma_entries_key(entries: Seq<(String, String)>, key: Seq<char>)
    requires
        entries_map(entries).contains_key(key),
    ensures
        exists|i: int| 0 <= i < entries.len() && (#[trigger] entries[i]).0@ == key,
    decreases entries.len(),
{
    if entries.len() > 0 {
        if entries.last().0@ != key {
            lemma_entries_key(entries.drop_last(), key);
            let i = choose|i: int|
                0 <= i < entries.drop_last().len() && (#[trigger] entries.drop_last()[i]).0@ == key;
            assert(entries[i].0@ == key);
        } else {
            assert(entries[entries.len() - 1].0@ == key);
        }
    }
}

proof fn lemma_entries_replace(entries: Seq<(String, String)>, i: int, entry: (String, String))
    requires
        keys_distinct(entries),
        0 <= i < entries.len(),
        entries[i].0@ == entry.0@,
    ensures
        entries_map(entries.update(i, entry)) == entries_map(entries).insert(entry.0@, entry.1@),
    decreases entries.len(),
{
    let after = entries.update(i, entry);
    let n = entries.len() - 1;
    if i < n {
        assert(entries[i].0@ != entries[n].0@);
        assert forall|a: int, b: int|
            0 <= a < b < entries.drop_last().len() implies #[trigger] entries.drop_last()[a].0@
            != #[trigger] entries.drop_last()[b].0@ by {
            assert(entries[a].0@ != entries[b].0@);
        }
        lemma_entries_replace(entries.drop_last(), i, entry);
        assert(after.drop_last() =~= entries.drop_last().update(i, entry));
        assert(entries_map(after) =~= entries_map(entries).insert(entry.0@, entry.1@));
    } else {
        assert(after.drop_last() =~= entries.drop_last());
        assert(entries_map(after) =~= entries_map(entries).insert(entry.0@, entry.1@));
    }
}

impl DeepView for ServiceInput {
    type V = Map<Seq<char>, Seq<char>>;

    closed spec fn deep_view(&self) -> Map<Seq<char>, Seq<char>> {
        entries_map(self.entries@)
    }
}

impl Clone for ServiceInput {
    fn clone(&self) -> (r: Self)
        ensures
            r.deep_view() == self.deep_view(),
    {
        proof {
            use_type_invariant(self);
        }
        let mut entries: Vec<(String, String)> = Vec::new();
        let mut i: usize = 0;
        while i < self.entries.len()
            invariant
                i <= self.entries@.len(),
                entries@ == self.entries@.take(i as int),
            decreases self.entries@.len() - i,
        {
            entries.push((self.entries[i].0.clone(), self.entries[i].1.clone()));
            assert(entries@ =~= self.entries@.take(i + 1));
            i = i + 1;
        }
        assert(entries@ =~= self.entries@);
        ServiceInput { entries }
    }
}

impl ServiceInput {
    #[verifier::type_invariant]
    spec fn wf(self) -> bool {
        keys_sorted(self.entries@)
    }

    /// No inputs.
    pub fn new() -> (r: Self)
        ensures
            r.deep_view() == Map::<Seq<char>, Seq<char>>::empty(),
    {
        ServiceInput { entries: Vec::new() }
    }

    /// These inputs with `value` under `key`, in place of what stood there.
    pub fn with(self, key: &str, value: String) -> (r: Self)
        ensures
            r.deep_view() == self.deep_view().insert(key@, value@),
    {
        proof {
            use_type_invariant(&self);
            lemma_sorted_keys_distinct(self.entries@);
        }
        let mut entries = self.entries;
        let ghost before = entries@;
        let mut i: usize = 0;
        while i < entries.len() && !str_le(key, entries[i].0.as_str())
            invariant
                i <= entries@.len(),
                entries@ == before,
                forall|j: int| 0 <= j < i ==> key_before((#[trigger] entries@[j]).0@, key@),
            decreases entries@.len() - i,
        {
            proof {
                lemma_text_le_total(key@, before[i as int].0@);
                lemma_text_le_total(key@, key@);
            }
            i = i + 1;
        }
        let entry = (key.to_owned(), value);
        if i < entries.len() && str_eq(entries[i].0.as_str(), key) {
            proof {
                lemma_entries_replace(before, i as int, entry);
                assert forall|a: int, b: int|
                    0 <= a < b < before.len() implies key_before(
                    (#[trigger] before.update(i as int, entry)[a]).0@,
                    (#[trigger] before.update(i as int, entry)[b]).0@,
                ) by {
                    assert(key_before(before[a].0@, before[b].0@));
                }
            }
            entries.set(i, entry);
        } else {
            proof {
                lemma_insert_keeps_sorted(before, i as int, entry);
                lemma_entries_insert(before, i as int, entry);
            }
            entries.insert(i, entry);
        }
        ServiceInput { entries }
    }

    /// The value under `key`.
    pub fn get(&self, key: &str) -> (r: Option<&String>)
        ensures
            match r {
                Some(value) => self.deep_view().contains_key(key@) && self.deep_view()[key@]
                    == value@,
                None => !self.deep_view().contains_key(key@),
            },
    {
        proof {
            use_type_invariant(self);
            lemma_sorted_keys_distinct(self.entries@);
        }
        let mut i: usize = 0;
        while i < self.entries.len()
            invariant
                i <= self.entries@.len(),
                keys_distinct(self.entries@),
                forall|j: int| 0 <= j < i ==> (#[trigger] self.entries@[j]).0@ != key@,
            decreases self.entries@.len() - i,
        {
            if str_eq(self.entries[i].0.as_str(), key) {
                proof {
                    lemma_entries_map(self.entries@, i as int);
                }
                return Some(&self.entries[i].1);
            }
            i = i + 1;
        }
        proof {
            if entries_map(self.entries@).contains_key(key@) {
                lemma_entries_key(self.entries@, key@);
            }
        }
        None
    }

    /// How many keys have a value.
    pub fn len(&self) -> (r: usize)
        ensures
            r == self.deep_view().dom().len(),
            self.deep_view().dom().finite(),
    {
        proof {
            use_type_invariant(self);
            lemma_sorted_keys_distinct(self.entries@);
            lemma_entries_len(self.entries@);
        }
        self.entries.len()
    }

    /// The keys and values, each key once, in the order of the keys.
    pub fn to_pairs(&self) -> (r: Vec<(String, String)>)
        ensures
            r@.len() == self.deep_view().dom().len(),
            forall|i: int, j: int|
                0 <= i < j < r@.len() ==> key_before((#[trigger] r@[i]).0@, (#[trigger] r@[j]).0@),
            forall|i: int|
                0 <= i < r@.len() ==> self.deep_view().contains_key((#[trigger] r@[i]).0@)
                    && self.deep_view()[r@[i].0@] == r@[i].1@,
            forall|key: Seq<char>| #[trigger]
                self.deep_view().contains_key(key) ==> exists|i: int|
                    0 <= i < r@.len() && (#[trigger] r@[i]).0@ == key,
    {
        proof {
            use_type_invariant(self);
            lemma_sorted_keys_distinct(self.entries@);
            lemma_entries_len(self.entries@);
        }
        let mut pairs: Vec<(String, String)> = Vec::new();
        let mut i: usize = 0;
        while i < self.entries.len()
            invariant
                i <= self.entries@.len(),
                pairs@ == self.entries@.take(i as int),
            decreases self.entries@.len() - i,
        {
            pairs.push((self.entries[i].0.clone(), self.entries[i].1.clone()));
            assert(pairs@ =~= self.entries@.take(i + 1));
            i = i + 1;
        }
        assert(pairs@ =~= self.entries@);
        proof {
            assert forall|i: int| 0 <= i < pairs@.len() implies self.deep_view().contains_key(
                (#[trigger] pairs@[i]).0@,
            ) && self.deep_view()[pairs@[i].0@] == pairs@[i].1@ by {
                lemma_entries_map(self.entries@, i);
            }
            assert forall|key: Seq<char>| #[trigger]
                self.deep_view().contains_key(key) implies exists|i: int|
                0 <= i < pairs@.len() && (#[trigger] pairs@[i]).0@ == key by {
                lemma_entries_key(self.entries@, key);
            }
        }
        pairs
    }
}

proof fn lemma_entries_len(entries: Seq<(String, String)>)
    requires
        keys_distinct(entries),
    ensures
        entries_map(entries).dom().finite(),
        entries_map(entries).dom().len() == entries.len(),
    decreases entries.len(),
{
    if entries.len() > 0 {
        let rest = entries.drop_last();
        assert forall|a: int, b: int| 0 <= a < b < rest.len() implies #[trigger] rest[a].0@
            != #[trigger] rest[b].0@ by {
            assert(entries[a].0@ != entries[b].0@);
        }
        lemma_entries_len(rest);
        if entries_map(rest).contains_key(entries.last().0@) {
            lemma_entries_key(rest, entries.last().0@);
            let i = choose|i: int|
                0 <= i < rest.len() && (#[trigger] rest[i]).0@ == entries.last().0@;
            assert(entries[i].0@ != entries[entries.len() - 1].0@);
        }
        assert(entries_map(entries).dom() =~= entries_map(rest).dom().insert(entries.last().0@));
    } else {
        assert(entries_map(entries).dom() =~= Set::<Seq<char>>::empty());
    }
}

} // verus!
