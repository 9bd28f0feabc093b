//! A snapshot of the environment-variable store: name/value pairs with
//! first-match lookup.
//!
//! The process environment itself is external mutable state; callers
//! capture the variables they care about into an [`EnvMap`] and every
//! resolution pass reads from that snapshot. Newer entries are put in
//! front, so setting a name again shadows the older entry.

use vstd::prelude::*;

verus! {

/// What looking `name` up in `entries` yields: the value of the first
/// pair whose name matches, scanning from `i` on.
pub open spec fn lookup_from(entries: Seq<(String, String)>, name: Seq<char>, i: int) -> Option<
    Seq<char>,
>
    decreases entries.len() - i,
{
    if i < 0 || i >= entries.len() {
        None
    } else if entries[i].0@ == name {
        Some(entries[i].1@)
    } else {
        lookup_from(entries, name, i + 1)
    }
}

/// What looking `name` up in `entries` yields.
pub open spec fn lookup(entries: Seq<(String, String)>, name: Seq<char>) -> Option<Seq<char>> {
    lookup_from(entries, name, 0)
}

/// Shifting past a front insertion: lookups that start after the new
/// entry see exactly the old entries.
proof fn lemma_lookup_shift(
    entries: Seq<(String, String)>,
    entry: (String, String),
    name: Seq<char>,
    i: int,
)
    requires
        0 <= i <= entries.len(),
    ensures
        lookup_from(entries.insert(0, entry), name, i + 1) == lookup_from(entries, name, i),
    decreases entries.len() - i,
{
    let shifted = entries.insert(0, entry);
    if i < entries.len() {
        assert(shifted[i + 1] == entries[i]);
        if entries[i].0@ != name {
            lemma_lookup_shift(entries, entry, name, i + 1);
        }
    }
}

/// What a lookup sees after an entry is put in front: its own name now
/// yields its value, and every other name yields what it did before.
pub proof fn lemma_lookup_after_insert_front(
    entries: Seq<(String, String)>,
    entry: (String, String),
    name: Seq<char>,
)
    ensures
        lookup(entries.insert(0, entry), name) == (if entry.0@ == name {
            Some(entry.1@)
        } else {
            lookup(entries, name)
        }),
{
    if entry.0@ != name {
        lemma_lookup_shift(entries, entry, name, 0);
    }
}

/// An immutable snapshot of environment variables.
#[derive(Debug)]
pub struct EnvMap {
    entries: Vec<(String, String)>,
}

impl View for EnvMap {
    type V = Seq<(String, String)>;

    closed spec fn view(&self) -> Seq<(String, String)> {
        self.entries@
    }
}

impl EnvMap {
    /// An empty snapshot: every lookup misses.
    pub fn new() -> (r: EnvMap)
        ensures
            r@ =~= Seq::<(String, String)>::empty(),
    {
        EnvMap { entries: Vec::new() }
    }

    /// Records `value` under `name`, shadowing any earlier entry of that
    /// name.
    pub fn set(&mut self, name: String, value: String)
        ensures
            final(self)@ == old(self)@.insert(0, (name, value)),
    {
        self.entries.insert(0, (name, value));
    }

    /// The stored value of `name`, or nothing when the snapshot has no
    /// entry of that name.
    pub fn get(&self, name: &String) -> (r: Option<String>)
        ensures
            match r {
                Some(v) => lookup(self@, name@) == Some(v@),
                None => lookup(self@, name@) is None,
            },
    {
        let n = self.entries.len();
        for i in 0..n
            invariant
                n == self.entries@.len(),
                lookup(self@, name@) == lookup_from(self@, name@, i as int),
        {
            if self.entries[i].0 == *name {
                return Some(self.entries[i].1.clone());
            }
        }
        None
    }
}

} // verus!
