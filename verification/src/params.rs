//! The untyped request: text values under text keys.

use crate::text::same_text;
use vstd::prelude::*;

verus! {

/// The map that a list of entries denotes: a later entry replaces an earlier
/// one with the same key.
pub open spec fn entries_map(entries: Seq<(Seq<char>, Seq<char>)>) -> Map<Seq<char>, Seq<char>>
    decreases entries.len(),
{
    if entries.len() == 0 {
        Map::empty()
    } else {
        entries_map(entries.drop_last()).insert(entries.last().0, entries.last().1)
    }
}

/// A key that no entry from `from` on carries is looked up in the entries
/// before `from`.
proof fn lemma_entries_map_skips(entries: Seq<(Seq<char>, Seq<char>)>, key: Seq<char>, from: int)
    requires
        0 <= from <= entries.len(),
        forall|j: int| from <= j < entries.len() ==> (#[trigger] entries[j]).0 != key,
    ensures
        entries_map(entries).contains_key(key) == entries_map(
            entries.subrange(0, from),
        ).contains_key(key),
        entries_map(entries).contains_key(key) ==> entries_map(entries)[key] == entries_map(
            entries.subrange(0, from),
        )[key],
    decreases entries.len() - from,
{
    if from == entries.len() {
        assert(entries.subrange(0, from) =~= entries);
    } else {
        let shorter = entries.drop_last();
        lemma_entries_map_skips(shorter, key, from);
        assert(shorter.subrange(0, from) =~= entries.subrange(0, from));
    }
}

/// A string-keyed parameter map.
#[derive(Debug)]
pub struct Parameters {
    entries: Vec<(String, String)>,
}

impl View for Parameters {
    type V = Map<Seq<char>, Seq<char>>;

    closed spec fn view(&self) -> Map<Seq<char>, Seq<char>> {
        entries_map(self.entries@.map_values(|e: (String, String)| (e.0@, e.1@)))
    }
}

impl Parameters {
    /// The map without entries.
    pub fn new() -> (r: Parameters)
        ensures
            r@ == Map::<Seq<char>, Seq<char>>::empty(),
    {
        Parameters { entries: Vec::new() }
    }

    /// Puts `value` under `key`, in place of what was there.
    pub fn insert(&mut self, key: String, value: String)
        ensures
            final(self)@ == old(self)@.insert(key@, value@),
    {
        let ghost before = self.entries@.map_values(|e: (String, String)| (e.0@, e.1@));
        self.entries.push((key, value));
        proof {
            let after = self.entries@.map_values(|e: (String, String)| (e.0@, e.1@));
            assert(after.drop_last() =~= before);
        }
    }

    /// The value under `key`, if there is one.
    pub fn get(&self, key: &str) -> (r: Option<&String>)
        ensures
            match r {
                Some(value) => self@.contains_key(key@) && self@[key@] == value@,
                None => !self@.contains_key(key@),
            },
    {
        let ghost all = self.entries@.map_values(|e: (String, String)| (e.0@, e.1@));
        let mut i: usize = self.entries.len();
        while i > 0
            invariant
                i <= self.entries.len(),
                all == self.entries@.map_values(|e: (String, String)| (e.0@, e.1@)),
                forall|j: int| i <= j < all.len() ==> (#[trigger] all[j]).0 != key@,
            decreases i,
        {
            i = i - 1;
            if same_text(self.entries[i].0.as_str(), key) {
                proof {
                    lemma_entries_map_skips(all, key@, i + 1);
                }
                return Some(&self.entries[i].1);
            }
        }
        proof {
            lemma_entries_map_skips(all, key@, 0);
        }
        None
    }
}

} // verus!
