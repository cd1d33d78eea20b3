use vstd::prelude::*;

use crate::decimal::decimal_of;
use crate::decimal::u32_to_decimal;

verus! {

/// The mapping denoted by a sequence of key/value pairs, a later pair
/// overriding an earlier one with the same key.
pub open spec fn map_of(entries: Seq<(String, String)>) -> Map<Seq<char>, Seq<char>>
    decreases entries.len(),
{
    if entries.len() == 0 {
        Map::empty()
    } else {
        map_of(entries.drop_last()).insert(entries.last().0@, entries.last().1@)
    }
}

proof fn lemma_map_of_last(entries: Seq<(String, String)>, i: int, k: Seq<char>)
    requires
        0 <= i < entries.len(),
        entries[i].0@ == k,
        forall|j: int| i < j < entries.len() ==> entries[j].0@ != k,
    ensures
        map_of(entries).contains_key(k),
        map_of(entries)[k] == entries[i].1@,
    decreases entries.len(),
{
    if i < entries.len() - 1 {
        lemma_map_of_last(entries.drop_last(), i, k);
    }
}

proof fn lemma_map_of_absent(entries: Seq<(String, String)>, k: Seq<char>)
    requires
        forall|j: int| 0 <= j < entries.len() ==> entries[j].0@ != k,
    ensures
        !map_of(entries).contains_key(k),
    decreases entries.len(),
{
    if entries.len() > 0 {
        lemma_map_of_absent(entries.drop_last(), k);
    }
}

/// An immutable denylist of network providers: the key is an autonomous
/// system number rendered as its canonical decimal string, the value the
/// name of the listed entity.
pub struct Blocklist {
    entries: Vec<(String, String)>,
}

impl View for Blocklist {
    type V = Map<Seq<char>, Seq<char>>;

    closed spec fn view(&self) -> Map<Seq<char>, Seq<char>> {
        map_of(self.entries@)
    }
}

impl Blocklist {
    /// Builds the list from key/value pairs; with a repeated key the last
    /// pair wins, as when the pairs are inserted into a map in order.
    pub fn new(entries: Vec<(String, String)>) -> (r: Blocklist)
        ensures
            r@ == map_of(entries@),
    {
        Blocklist { entries }
    }

    /// Looks an autonomous system number up under its canonical decimal
    /// key and returns the listed entity's name if it is present.
    pub fn is_blocked(&self, asn: u32) -> (r: Option<&String>)
        ensures
            match r {
                Some(name) => self@.contains_key(decimal_of(asn as nat))
                    && name@ == self@[decimal_of(asn as nat)],
                None => !self@.contains_key(decimal_of(asn as nat)),
            },
    {
        let key = u32_to_decimal(asn);
        let mut i: usize = self.entries.len();
        while i > 0
            invariant
                i <= self.entries.len(),
                key@ == decimal_of(asn as nat),
                forall|j: int| i <= j < self.entries@.len() ==> self.entries@[j].0@ != key@,
            decreases i,
        {
            i = i - 1;
            if self.entries[i].0 == key {
                proof {
                    lemma_map_of_last(self.entries@, i as int, key@);
                }
                return Some(&self.entries[i].1);
            }
        }
        proof {
            lemma_map_of_absent(self.entries@, key@);
        }
        None
    }
}

} // verus!
