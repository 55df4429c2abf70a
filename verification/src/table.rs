//! An association table from addresses to values.
//!
//! Insertion pushes a new entry at the back, and a later entry for a key
//! shadows every earlier one, so the table needs no structural invariant:
//! its view is the map the entry sequence stands for, later entries winning.

use vstd::prelude::*;
use crate::addr::Address;

verus! {

/// The map a sequence of entries stands for: later entries win.
pub open spec fn table_view<V>(s: Seq<(Address, V)>) -> Map<Address, V>
    decreases s.len(),
{
    if s.len() == 0 {
        Map::empty()
    } else {
        table_view(s.drop_last()).insert(s.last().0, s.last().1)
    }
}

/// A lookup table from addresses to copyable values.
pub struct Table<V> {
    pub entries: Vec<(Address, V)>,
}

impl<V> View for Table<V> {
    type V = Map<Address, V>;

    open spec fn view(&self) -> Map<Address, V> {
        table_view(self.entries@)
    }
}

/// An entry at `i` whose key no later entry repeats decides the key's value.
proof fn lemma_table_view_found<V>(s: Seq<(Address, V)>, i: int, k: Address)
    requires
        0 <= i < s.len(),
        s[i].0 == k,
        forall|j: int| i < j < s.len() ==> s[j].0 != k,
    ensures
        table_view(s).contains_key(k),
        table_view(s)[k] == s[i].1,
    decreases s.len(),
{
    if i == s.len() - 1 {
    } else {
        assert(s.last().0 != k);
        assert forall|j: int| i < j < s.drop_last().len() implies s.drop_last()[j].0 != k by {
            assert(s.drop_last()[j] == s[j]);
        };
        lemma_table_view_found(s.drop_last(), i, k);
    }
}

/// A key no entry holds is absent from the view.
proof fn lemma_table_view_absent<V>(s: Seq<(Address, V)>, k: Address)
    requires
        forall|j: int| 0 <= j < s.len() ==> s[j].0 != k,
    ensures
        !table_view(s).contains_key(k),
    decreases s.len(),
{
    if s.len() == 0 {
    } else {
        assert forall|j: int| 0 <= j < s.drop_last().len() implies s.drop_last()[j].0 != k by {
            assert(s.drop_last()[j] == s[j]);
        };
        lemma_table_view_absent(s.drop_last(), k);
        assert(s.last().0 != k);
    }
}

impl<V: Copy> Table<V> {
    /// An empty table.
    pub fn new() -> (t: Table<V>)
        ensures
            t@ == Map::<Address, V>::empty(),
    {
        let t = Table { entries: Vec::new() };
        proof {
            assert(t@ =~= Map::<Address, V>::empty());
        }
        t
    }

    /// The value at `k`, if any.
    pub fn get(&self, k: &Address) -> (r: Option<V>)
        ensures
            match r {
                Some(v) => self@.contains_key(*k) && self@[*k] == v,
                None => !self@.contains_key(*k),
            },
    {
        let mut i: usize = self.entries.len();
        while i > 0
            invariant
                0 <= i <= self.entries@.len(),
                forall|j: int| i <= j < self.entries@.len() ==> self.entries@[j].0 != *k,
            decreases i,
        {
            i -= 1;
            if self.entries[i].0 == *k {
                proof {
                    lemma_table_view_found(self.entries@, i as int, *k);
                }
                return Some(self.entries[i].1);
            }
        }
        proof {
            lemma_table_view_absent(self.entries@, *k);
        }
        None
    }

    /// Binds `k` to `v`, shadowing any earlier binding.
    pub fn put(&mut self, k: Address, v: V)
        ensures
            final(self)@ == old(self)@.insert(k, v),
    {
        self.entries.push((k, v));
        proof {
            assert(self.entries@.drop_last() =~= old(self).entries@);
            assert(self.entries@.last() == (k, v));
        }
    }

    /// A copy of the table with the same view.
    pub fn duplicate(&self) -> (t: Table<V>)
        ensures
            t@ == self@,
    {
        let mut e: Vec<(Address, V)> = Vec::new();
        let mut i: usize = 0;
        while i < self.entries.len()
            invariant
                0 <= i <= self.entries@.len(),
                e@ == self.entries@.take(i as int),
            decreases self.entries@.len() - i,
        {
            e.push(self.entries[i]);
            proof {
                assert(self.entries@.take(i as int).push(self.entries@[i as int])
                    =~= self.entries@.take(i as int + 1));
            }
            i += 1;
        }
        proof {
            assert(self.entries@.take(self.entries@.len() as int) =~= self.entries@);
        }
        Table { entries: e }
    }
}

} // verus!
