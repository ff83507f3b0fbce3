//! A small map keyed by storage-cell ids.
//!
//! Topological objects are distinguished by the id of their storage cell, so
//! every per-object table in this crate — recorded validation failures,
//! geometric definitions — is a map from id to value. The map preserves
//! insertion order, which is what makes traversal-order reporting possible,
//! and holds each key at most once.

use vstd::prelude::*;

verus! {

/// The value stored under a key, if any: the entries are searched from the
/// most recently appended end, though with distinct keys any match is the
/// only one.
pub open spec fn lookup<V>(entries: Seq<(u64, V)>, id: u64) -> Option<V>
    decreases entries.len(),
{
    if entries.len() == 0 {
        Option::None
    } else if entries.last().0 == id {
        Option::Some(entries.last().1)
    } else {
        lookup(entries.drop_last(), id)
    }
}

/// Whether some entry carries the given key.
pub open spec fn has_key<V>(entries: Seq<(u64, V)>, id: u64) -> bool {
    exists|i: int| 0 <= i < entries.len() && entries[i].0 == id
}

/// Whether no two entries share a key.
pub open spec fn distinct_keys<V>(entries: Seq<(u64, V)>) -> bool {
    forall|i: int, j: int|
        0 <= i < j < entries.len() ==> (#[trigger] entries[i]).0 != (#[trigger] entries[j]).0
}

/// `lookup` finds a value exactly when the key is present.
pub proof fn lemma_lookup_has_key<V>(entries: Seq<(u64, V)>, id: u64)
    ensures
        lookup(entries, id) is Some <==> has_key(entries, id),
    decreases entries.len(),
{
    if entries.len() > 0 {
        if entries.last().0 == id {
            assert(entries[entries.len() - 1].0 == id);
        } else {
            lemma_lookup_has_key(entries.drop_last(), id);
            if has_key(entries, id) {
                let i = choose|i: int| 0 <= i < entries.len() && entries[i].0 == id;
                assert(entries.drop_last()[i] == entries[i]);
            }
            if has_key(entries.drop_last(), id) {
                let i = choose|i: int|
                    0 <= i < entries.drop_last().len() && entries.drop_last()[i].0 == id;
                assert(entries[i] == entries.drop_last()[i]);
            }
        }
    }
}

/// With distinct keys, an entry that carries the key determines `lookup`.
pub proof fn lemma_lookup_at<V>(entries: Seq<(u64, V)>, id: u64, i: int)
    requires
        distinct_keys(entries),
        0 <= i < entries.len(),
        entries[i].0 == id,
    ensures
        lookup(entries, id) == Option::Some(entries[i].1),
    decreases entries.len(),
{
    if i == entries.len() - 1 {
    } else {
        assert(entries.last().0 != id);
        assert(entries.drop_last()[i] == entries[i]);
        lemma_lookup_at(entries.drop_last(), id, i);
    }
}

/// What an in-place replacement of the value under `id` does to the entry
/// sequence, entry by entry.
pub open spec fn replaced_at_key<V>(
    old_s: Seq<(u64, V)>,
    new_s: Seq<(u64, V)>,
    id: u64,
    value: V,
) -> bool {
    &&& new_s.len() == old_s.len()
    &&& forall|j: int|
        0 <= j < old_s.len() ==> new_s[j] == (
        if (#[trigger] old_s[j]).0 == id {
            (id, value)
        } else {
            old_s[j]
        })
}

/// An in-place replacement changes `lookup` at its key and nowhere else.
pub proof fn lemma_replace_lookup<V>(old_s: Seq<(u64, V)>, new_s: Seq<(u64, V)>, id: u64, value: V)
    requires
        has_key(old_s, id),
        replaced_at_key(old_s, new_s, id, value),
    ensures
        lookup(new_s, id) == Option::Some(value),
        forall|id2: u64| id2 != id ==> lookup(new_s, id2) == lookup(old_s, id2),
        distinct_keys(old_s) ==> distinct_keys(new_s),
{
    assert(forall|j: int| 0 <= j < old_s.len() ==> (#[trigger] new_s[j]).0 == old_s[j].0);
    lemma_replace_lookup_some(old_s, new_s, id, value);
    assert forall|id2: u64| id2 != id implies lookup(new_s, id2) == lookup(old_s, id2) by {
        lemma_unchanged_tail_lookup(old_s, new_s, id, id2);
    }
}

/// The `lookup`-at-`id` part of [`lemma_replace_lookup`].
proof fn lemma_replace_lookup_some<V>(old_s: Seq<(u64, V)>, new_s: Seq<(u64, V)>, id: u64, value: V)
    requires
        has_key(old_s, id),
        replaced_at_key(old_s, new_s, id, value),
    ensures
        lookup(new_s, id) == Option::Some(value),
    decreases old_s.len(),
{
    assert(forall|j: int| 0 <= j < old_s.len() ==> (#[trigger] new_s[j]).0 == old_s[j].0);
    if old_s.last().0 == id {
        assert(new_s.last() == (id, value));
    } else {
        let i = choose|i: int| 0 <= i < old_s.len() && old_s[i].0 == id;
        assert(old_s.drop_last()[i] == old_s[i]);
        assert(replaced_at_key(old_s.drop_last(), new_s.drop_last(), id, value));
        lemma_replace_lookup_some(old_s.drop_last(), new_s.drop_last(), id, value);
        assert(new_s.last() == old_s.last());
    }
}

/// Two entry sequences that agree on keys everywhere, and on whole entries
/// wherever the key is not `id`, agree on `lookup` at every other key.
proof fn lemma_unchanged_tail_lookup<V>(
    old_s: Seq<(u64, V)>,
    new_s: Seq<(u64, V)>,
    id: u64,
    id2: u64,
)
    requires
        id2 != id,
        new_s.len() == old_s.len(),
        forall|j: int| 0 <= j < old_s.len() ==> (#[trigger] new_s[j]).0 == old_s[j].0,
        forall|j: int|
            0 <= j < old_s.len() && (#[trigger] old_s[j]).0 != id ==> new_s[j] == old_s[j],
    ensures
        lookup(new_s, id2) == lookup(old_s, id2),
    decreases old_s.len(),
{
    if old_s.len() > 0 {
        if old_s.last().0 == id2 {
        } else {
            assert(forall|j: int|
                0 <= j < old_s.drop_last().len() ==> (#[trigger] new_s.drop_last()[j]).0
                    == old_s.drop_last()[j].0);
            assert(forall|j: int|
                0 <= j < old_s.drop_last().len() && (#[trigger] old_s.drop_last()[j]).0 != id
                    ==> new_s.drop_last()[j] == old_s.drop_last()[j]);
            lemma_unchanged_tail_lookup(old_s.drop_last(), new_s.drop_last(), id, id2);
        }
    }
}

/// Removing the one entry that carries a key makes `lookup` miss at that
/// key and leaves it unchanged at every other key.
proof fn lemma_remove_lookup<V>(s: Seq<(u64, V)>, i: int, id: u64)
    requires
        distinct_keys(s),
        0 <= i < s.len(),
        s[i].0 == id,
    ensures
        lookup(s.remove(i), id) is None,
        forall|id2: u64| id2 != id ==> lookup(s.remove(i), id2) == lookup(s, id2),
    decreases s.len(),
{
    if i == s.len() - 1 {
        assert(s.remove(i) =~= s.drop_last());
        lemma_lookup_has_key(s.drop_last(), id);
        if has_key(s.drop_last(), id) {
            let j = choose|j: int| 0 <= j < s.drop_last().len() && s.drop_last()[j].0 == id;
            assert(s[j] == s.drop_last()[j]);
            assert(false);
        }
        assert forall|id2: u64| id2 != id implies lookup(s.remove(i), id2) == lookup(s, id2) by {
            assert(s.last().0 != id2);
            assert(lookup(s, id2) == lookup(s.drop_last(), id2));
        }
    } else {
        assert(s.remove(i).last() == s.last());
        assert(s.remove(i).drop_last() =~= s.drop_last().remove(i));
        assert(s.drop_last()[i] == s[i]);
        lemma_remove_lookup(s.drop_last(), i, id);
        assert(s.last().0 != id);
        assert(lookup(s.remove(i), id) == lookup(s.drop_last().remove(i), id));
        assert forall|id2: u64| id2 != id implies lookup(s.remove(i), id2) == lookup(s, id2) by {
            if s.last().0 == id2 {
                assert(lookup(s.remove(i), id2) == Option::Some(s.last().1));
                assert(lookup(s, id2) == Option::Some(s.last().1));
            } else {
                assert(lookup(s.remove(i), id2) == lookup(s.drop_last().remove(i), id2));
                assert(lookup(s, id2) == lookup(s.drop_last(), id2));
            }
        }
    }
}

/// Appending a fresh key changes `lookup` at that key and nowhere else.
pub proof fn lemma_push_lookup<V>(s: Seq<(u64, V)>, id: u64, value: V)
    ensures
        lookup(s.push((id, value)), id) == Option::Some(value),
        forall|id2: u64| id2 != id ==> lookup(s.push((id, value)), id2) == lookup(s, id2),
{
    assert(s.push((id, value)).drop_last() == s);
}

/// What storing a value under a key does to an entry sequence: replace
/// the value in place if the key is present, append a fresh entry
/// otherwise.
pub open spec fn insert_entry<V>(s: Seq<(u64, V)>, id: u64, value: V) -> Seq<(u64, V)> {
    if has_key(s, id) {
        Seq::new(s.len(), |j: int| if s[j].0 == id { (id, value) } else { s[j] })
    } else {
        s.push((id, value))
    }
}

/// A map from cell id to value that keeps insertion order and holds each
/// key at most once.
pub struct IdMap<V> {
    entries: Vec<(u64, V)>,
}

impl<V> View for IdMap<V> {
    type V = Seq<(u64, V)>;

    closed spec fn view(&self) -> Seq<(u64, V)> {
        self.entries@
    }
}

impl<V> IdMap<V> {
    /// The keys of a map never repeat; Verus maintains this as a type
    /// invariant, so an exec caller can recover it for a map `m` with
    /// `proof { use_type_invariant(&m); }`.
    #[verifier::type_invariant]
    pub open spec fn wf(self) -> bool {
        distinct_keys(self@)
    }

    /// Create an empty map.
    pub fn new() -> (r: IdMap<V>)
        ensures
            r@ == Seq::<(u64, V)>::empty(),
    {
        IdMap { entries: Vec::new() }
    }

    /// How many keys the map holds.
    pub fn len(&self) -> (r: usize)
        ensures
            r == self@.len(),
    {
        self.entries.len()
    }

    /// Whether the map holds no key at all.
    pub fn is_empty(&self) -> (r: bool)
        ensures
            r == (self@.len() == 0),
    {
        self.entries.len() == 0
    }

    /// Read the entry at a position, in insertion order.
    pub fn entry_at(&self, i: usize) -> (r: &(u64, V))
        requires
            i < self@.len(),
        ensures
            *r == self@[i as int],
    {
        &self.entries[i]
    }

    /// Look a value up by key.
    pub fn get(&self, id: u64) -> (r: Option<&V>)
        ensures
            match lookup(self@, id) {
                Option::Some(v) => r matches Option::Some(x) && *x == v,
                Option::None => r is None,
            },
    {
        proof {
            use_type_invariant(self);
        }
        let n = self.entries.len();
        let mut i: usize = 0;
        while i < n
            invariant
                n == self@.len(),
                i <= n,
                distinct_keys(self@),
                forall|j: int| 0 <= j < i ==> (#[trigger] self@[j]).0 != id,
            decreases n - i,
        {
            if self.entries[i].0 == id {
                proof {
                    lemma_lookup_at(self@, id, i as int);
                }
                return Option::Some(&self.entries[i].1);
            }
            i = i + 1;
        }
        proof {
            lemma_lookup_has_key(self@, id);
        }
        Option::None
    }

    /// Whether the map holds the given key.
    pub fn contains_key(&self, id: u64) -> (r: bool)
        ensures
            r == has_key(self@, id),
    {
        proof {
            lemma_lookup_has_key(self@, id);
        }
        match self.get(id) {
            Option::Some(_) => true,
            Option::None => false,
        }
    }

    /// Store a value under a key: replace the value in place if the key is
    /// present, append a fresh entry otherwise.
    pub fn insert(&mut self, id: u64, value: V)
        ensures
            final(self)@ == insert_entry(old(self)@, id, value),
            has_key(old(self)@, id) ==> {
                &&& final(self)@.len() == old(self)@.len()
                &&& forall|j: int|
                    0 <= j < old(self)@.len() ==> final(self)@[j] == (
                    if (#[trigger] old(self)@[j]).0 == id {
                        (id, value)
                    } else {
                        old(self)@[j]
                    })
            },
            !has_key(old(self)@, id) ==> final(self)@ == old(self)@.push((id, value)),
    {
        proof {
            use_type_invariant(&*self);
        }
        let mut entries: Vec<(u64, V)> = Vec::new();
        std::mem::swap(&mut entries, &mut self.entries);
        let n = entries.len();
        let mut i: usize = 0;
        while i < n
            invariant
                n == entries@.len(),
                i <= n,
                distinct_keys(entries@),
                entries@ == old(self)@,
                forall|j: int| 0 <= j < i ==> (#[trigger] entries@[j]).0 != id,
            decreases n - i,
        {
            if entries[i].0 == id {
                entries.set(i, (id, value));
                self.entries = entries;
                proof {
                    assert(forall|j: int|
                        0 <= j < old(self)@.len() && j != i ==> final(self)@[j] == old(self)@[j]);
                    assert(has_key(old(self)@, id));
                    assert(final(self)@ =~= insert_entry(old(self)@, id, value));
                }
                return ;
            }
            i = i + 1;
        }
        entries.push((id, value));
        self.entries = entries;
        proof {
            assert(!has_key(old(self)@, id));
            assert(final(self)@ =~= insert_entry(old(self)@, id, value));
        }
    }

    /// Take the value under a key out of the map, if the key is present.
    pub fn remove(&mut self, id: u64) -> (r: Option<V>)
        ensures
            lookup(final(self)@, id) is None,
            forall|id2: u64| id2 != id ==> lookup(final(self)@, id2) == lookup(old(self)@, id2),
            r == lookup(old(self)@, id),
            !has_key(old(self)@, id) ==> final(self)@ == old(self)@,
    {
        proof {
            use_type_invariant(&*self);
        }
        let mut entries: Vec<(u64, V)> = Vec::new();
        std::mem::swap(&mut entries, &mut self.entries);
        let n = entries.len();
        let mut i: usize = 0;
        while i < n
            invariant
                n == entries@.len(),
                i <= n,
                distinct_keys(entries@),
                entries@ == old(self)@,
                forall|j: int| 0 <= j < i ==> (#[trigger] entries@[j]).0 != id,
            decreases n - i,
        {
            if entries[i].0 == id {
                proof {
                    lemma_lookup_at(entries@, id, i as int);
                    lemma_remove_lookup(entries@, i as int, id);
                }
                let value = entries.remove(i);
                self.entries = entries;
                return Option::Some(value.1);
            }
            i = i + 1;
        }
        proof {
            lemma_lookup_has_key(entries@, id);
        }
        self.entries = entries;
        Option::None
    }

    /// Drop every entry.
    pub fn clear(&mut self)
        ensures
            final(self)@ == Seq::<(u64, V)>::empty(),
    {
        self.entries = Vec::new();
    }
}

} // verus!
