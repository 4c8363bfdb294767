//! The accumulated product records of one scan: an insertion-ordered
//! mapping from title to version in which a later entry for the same title
//! overwrites the earlier one's version in place, so classpath order is
//! preserved and the last write wins.

use vstd::prelude::*;
use crate::manifest::{lookup, pairs_view};

verus! {

/// No title occurs twice.
pub open spec fn unique_keys(s: Seq<(Seq<char>, Seq<char>)>) -> bool {
    forall|i: int, j: int| 0 <= i < j < s.len() ==> (#[trigger] s[i]).0 != (#[trigger] s[j]).0
}

/// A key that stands nowhere in `s` is not found.
pub proof fn lemma_lookup_absent(s: Seq<(Seq<char>, Seq<char>)>, key: Seq<char>)
    requires
        forall|j: int| 0 <= j < s.len() ==> (#[trigger] s[j]).0 != key,
    ensures
        lookup(s, key) is None,
    decreases s.len(),
{
    if s.len() > 0 {
        lemma_lookup_absent(s.drop_last(), key);
    }
}

/// A key that stands exactly once in `s` is found with its value.
pub proof fn lemma_lookup_at(s: Seq<(Seq<char>, Seq<char>)>, key: Seq<char>, i: int)
    requires
        0 <= i < s.len(),
        s[i].0 == key,
        forall|j: int| 0 <= j < s.len() && j != i ==> (#[trigger] s[j]).0 != key,
    ensures
        lookup(s, key) == Some(s[i].1),
    decreases s.len(),
{
    if i == s.len() - 1 {
    } else {
        lemma_lookup_at(s.drop_last(), key, i);
    }
}

/// Overwriting the value at `i` leaves every other key's lookup unchanged.
pub proof fn lemma_lookup_update_other(
    s: Seq<(Seq<char>, Seq<char>)>,
    i: int,
    value: Seq<char>,
    key2: Seq<char>,
)
    requires
        0 <= i < s.len(),
        s[i].0 != key2,
    ensures
        lookup(s.update(i, (s[i].0, value)), key2) == lookup(s, key2),
    decreases s.len(),
{
    let s2 = s.update(i, (s[i].0, value));
    if i == s.len() - 1 {
        assert(s2.drop_last() =~= s.drop_last());
    } else {
        assert(s2.last() == s.last());
        assert(s2.drop_last() =~= s.drop_last().update(i, (s[i].0, value)));
        if s.last().0 != key2 {
            lemma_lookup_update_other(s.drop_last(), i, value, key2);
        }
    }
}

/// The scan's accumulated (title, version) records.
pub struct Records {
    entries: Vec<(String, String)>,
}

impl View for Records {
    type V = Seq<(Seq<char>, Seq<char>)>;

    closed spec fn view(&self) -> Seq<(Seq<char>, Seq<char>)> {
        pairs_view(self.entries@)
    }
}

impl Records {
    /// Well-formed: every title stands at most once.
    pub open spec fn wf(&self) -> bool {
        unique_keys(self@)
    }

    /// An empty record set.
    pub fn new() -> (r: Records)
        ensures
            r@ == Seq::<(Seq<char>, Seq<char>)>::empty(),
            r.wf(),
    {
        let r = Records { entries: Vec::new() };
        proof {
            assert(r@ =~= Seq::<(Seq<char>, Seq<char>)>::empty());
        }
        r
    }

    /// The records in their preserved order, for emission.
    pub fn entries(&self) -> (v: &Vec<(String, String)>)
        ensures
            pairs_view(v@) == self@,
    {
        &self.entries
    }

    /// The version recorded under a title, if any.
    pub fn get(&self, key: &String) -> (r: Option<String>)
        ensures
            match r {
                Some(v) => lookup(self@, key@) == Some(v@),
                None => lookup(self@, key@) is None,
            },
    {
        crate::manifest::lookup_entry(&self.entries, key)
    }

    /// Record `value` under `key`. A title already present keeps its place
    /// and takes the new version — the last write wins; a new title is
    /// appended, preserving input order; no other title's lookup changes.
    #[verifier::loop_isolation(false)]
    pub fn insert(&mut self, key: String, value: String)
        requires
            old(self).wf(),
        ensures
            final(self).wf(),
            lookup(final(self)@, key@) == Some(value@),
            forall|k2: Seq<char>|
                k2 != key@ ==> lookup(final(self)@, k2) == lookup(old(self)@, k2),
            forall|j: int|
                0 <= j < old(self)@.len() ==> (#[trigger] final(self)@[j]).0 == old(self)@[j].0,
            old(self)@.len() <= final(self)@.len() <= old(self)@.len() + 1,
    {
        let ghost s0 = self@;
        proof {
            assert(s0 == old(self)@);
            assert(unique_keys(s0));
        }
        let n = self.entries.len();
        let mut i: usize = 0;
        while i < n
            invariant
                self@ == s0,
                n == self.entries@.len(),
                i <= n,
                forall|j: int| 0 <= j < i ==> (#[trigger] s0[j]).0 != key@,
            decreases n - i,
        {
            let hit = self.entries[i].0 == key;
            proof {
                assert(s0[i as int] == (self.entries@[i as int].0@, self.entries@[i as int].1@));
            }
            if hit {
                let ghost gkey = key;
                let ghost gvalue = value;
                self.entries.set(i, (key, value));
                proof {
                    assert(self@ =~= s0.update(i as int, (s0[i as int].0, gvalue@)));
                    assert(s0[i as int].0 == gkey@);
                    assert forall|j: int| 0 <= j < s0.len() && j != i implies (#[trigger] s0[j]).0
                        != gkey@ by {
                        if j > i {
                            assert(s0[i as int].0 != s0[j].0);
                        }
                    }
                    assert(forall|j: int|
                        0 <= j < self@.len() ==> (#[trigger] self@[j]).0 == s0[j].0);
                    assert(unique_keys(self@));
                    assert(forall|j: int|
                        0 <= j < self@.len() && j != i ==> (#[trigger] self@[j]).0 != gkey@);
                    lemma_lookup_at(self@, gkey@, i as int);
                    assert forall|k2: Seq<char>| k2 != gkey@ implies lookup(self@, k2) == lookup(
                        s0,
                        k2,
                    ) by {
                        lemma_lookup_update_other(s0, i as int, gvalue@, k2);
                    }
                }
                return ;
            }
            i += 1;
        }
        let ghost gkey = key;
        self.entries.push((key, value));
        proof {
            assert(self@ =~= s0.push(self@.last()));
            assert(self@.last().0 == gkey@);
            assert(self@.drop_last() =~= s0);
            assert(unique_keys(self@));
            assert forall|k2: Seq<char>| k2 != gkey@ implies lookup(self@, k2) == lookup(
                s0,
                k2,
            ) by {
                assert(lookup(self@, k2) == lookup(self@.drop_last(), k2));
            }
        }
    }
}

} // verus!
