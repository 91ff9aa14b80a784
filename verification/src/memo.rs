//! A table that remembers one value for each text that it was given.
//!
//! The table only grows: an entry, once made, is never replaced or removed.

use crate::text::text_eq;
use vstd::prelude::*;

verus! {

struct Entry<V> {
    key: String,
    value: V,
}

/// An append-only table from texts to values.
pub struct MemoTable<V> {
    entries: Vec<Entry<V>>,
}

impl<V> MemoTable<V> {
    /// No text occurs twice among the keys.
    #[verifier::type_invariant]
    spec fn distinct_keys(&self) -> bool {
        forall|i: int, j: int|
            0 <= i < j < self.entries@.len() ==> self.entries@[i].key@ != self.entries@[j].key@
    }

    spec fn holds(&self, key: Seq<char>) -> bool {
        exists|i: int| 0 <= i < self.entries@.len() && #[trigger] self.entries@[i].key@ == key
    }

    spec fn position(&self, key: Seq<char>) -> int {
        choose|i: int| 0 <= i < self.entries@.len() && #[trigger] self.entries@[i].key@ == key
    }

    /// A table without entries.
    pub fn new() -> (table: MemoTable<V>)
        ensures
            table@ == Map::<Seq<char>, V>::empty(),
    {
        let table = MemoTable { entries: Vec::new() };
        assert(table@ =~= Map::<Seq<char>, V>::empty());
        table
    }

    /// Where among the entries `key` stands, if it does.
    fn find(&self, key: &str) -> (found: Option<usize>)
        ensures
            match found {
                Some(at) => at < self.entries@.len() && self.entries@[at as int].key@ == key@
                    && self.position(key@) == at && self.holds(key@),
                None => !self.holds(key@),
            },
    {
        proof {
            use_type_invariant(self);
        }
        let mut at: usize = 0;
        while at < self.entries.len()
            invariant
                at <= self.entries@.len(),
                self.distinct_keys(),
                forall|i: int| 0 <= i < at ==> self.entries@[i].key@ != key@,
            decreases self.entries@.len() - at,
        {
            if text_eq(self.entries[at].key.as_str(), key) {
                assert(self.holds(key@));
                assert(self.position(key@) == at);
                return Some(at);
            }
            at += 1;
        }
        None
    }

    /// The value remembered for `key`, if there is one.
    pub fn get(&self, key: &str) -> (found: Option<&V>)
        ensures
            found == if self@.contains_key(key@) {
                Some(&self@[key@])
            } else {
                None
            },
    {
        match self.find(key) {
            Some(at) => Some(&self.entries[at].value),
            None => None,
        }
    }

    /// Remembers `value` for `key`, unless a value is remembered for it
    /// already: then the table stays as it is. Returns what is remembered for
    /// `key` afterwards.
    pub fn remember(&mut self, key: String, value: V) -> (kept: &V)
        ensures
            final(self)@ == if old(self)@.contains_key(key@) {
                old(self)@
            } else {
                old(self)@.insert(key@, value)
            },
            final(self)@.contains_key(key@),
            *kept == final(self)@[key@],
    {
        let at = match self.find(key.as_str()) {
            Some(at) => at,
            None => {
                proof {
                    use_type_invariant(&*self);
                }
                let ghost before = *self;
                let mut taken = MemoTable { entries: Vec::new() };
                core::mem::swap(self, &mut taken);
                let MemoTable { entries } = taken;
                let mut entries = entries;
                let last = entries.len();
                entries.push(Entry { key, value });
                *self = MemoTable { entries };
                proof {
                    let after = *self;
                    assert(after.entries@[last as int].key@ == key@);
                    assert forall|text: Seq<char>| after.holds(text) <==> (before.holds(text)
                        || text == key@) by {
                        if before.holds(text) {
                            let i = before.position(text);
                            assert(after.entries@[i].key@ == text);
                        }
                        if after.holds(text) && text != key@ {
                            let i = after.position(text);
                            assert(before.entries@[i].key@ == text);
                        }
                    }
                    assert forall|text: Seq<char>| after.holds(text) implies after@[text]
                        == before@.insert(key@, value)[text] by {
                        let i = after.position(text);
                        if text == key@ {
                            assert(i == last);
                        } else {
                            assert(before.entries@[i].key@ == text);
                            assert(before.position(text) == i);
                        }
                    }
                    assert(after@ =~= before@.insert(key@, value));
                    assert(after.position(key@) == last);
                }
                last
            },
        };
        &self.entries[at].value
    }
}

impl<V> View for MemoTable<V> {
    type V = Map<Seq<char>, V>;

    /// The table as a map from each key to the value remembered for it.
    closed spec fn view(&self) -> Map<Seq<char>, V> {
        Map::new(
            |key: Seq<char>| self.holds(key),
            |key: Seq<char>| self.entries@[self.position(key)].value,
        )
    }
}

} // verus!
