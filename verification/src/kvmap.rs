use vstd::prelude::*;

use crate::strutil::str_eq;

verus! {

/// The value of the first entry of `s` whose key is `k`, if any.
pub open spec fn assoc_get<V>(s: Seq<(Seq<char>, V)>, k: Seq<char>) -> Option<V>
    decreases s.len(),
{
    if s.len() == 0 {
        None
    } else if s[0].0 == k {
        Some(s[0].1)
    } else {
        assoc_get(s.drop_first(), k)
    }
}

/// A scan that saw no match in `s[0..j]` and one at `s[j]` has found the
/// first matching entry.
pub proof fn lemma_assoc_get_at<V>(s: Seq<(Seq<char>, V)>, k: Seq<char>, j: int)
    requires
        0 <= j <= s.len(),
        forall|t: int| 0 <= t < j ==> (#[trigger] s[t]).0 != k,
        j < s.len() ==> s[j].0 == k,
    ensures
        j < s.len() ==> assoc_get(s, k) == Some(s[j].1),
        j == s.len() ==> assoc_get(s, k) is None,
    decreases s.len(),
{
    if s.len() != 0 && s[0].0 != k {
        assert forall|t: int| 0 <= t < j - 1 implies (#[trigger] s.drop_first()[t]).0 != k by {
            assert(s.drop_first()[t] == s[t + 1]);
        }
        if j < s.len() {
            assert(s.drop_first()[j - 1] == s[j]);
        }
        lemma_assoc_get_at(s.drop_first(), k, j - 1);
    }
}

/// Removing an entry whose key is not `k` leaves the lookup of `k` unchanged.
pub proof fn lemma_assoc_get_remove<V>(s: Seq<(Seq<char>, V)>, k: Seq<char>, i: int)
    requires
        0 <= i < s.len(),
        s[i].0 != k,
    ensures
        assoc_get(s.remove(i), k) == assoc_get(s, k),
    decreases s.len(),
{
    if s.len() != 0 {
        if i == 0 {
            assert(s.remove(0) =~= s.drop_first());
        } else if s[0].0 == k {
            assert(s.remove(i)[0] == s[0]);
        } else {
            assert(s.remove(i)[0] == s[0]);
            assert(s.remove(i).drop_first() =~= s.drop_first().remove(i - 1));
            lemma_assoc_get_remove(s.drop_first(), k, i - 1);
        }
    }
}

/// A string-keyed map kept as a list of entries in insertion order, as the
/// manifest and configuration tables are read from their files.
#[derive(Debug)]
pub struct KvMap<V> {
    entries: Vec<(String, V)>,
}

impl<V> KvMap<V> {
    /// The entries, with keys at the view level.
    pub closed spec fn view(&self) -> Seq<(Seq<char>, V)> {
        Seq::new(self.entries@.len(), |i: int| (self.entries@[i].0@, self.entries@[i].1))
    }

    /// The value stored under `k`, if any.
    pub open spec fn spec_get(&self, k: Seq<char>) -> Option<V> {
        assoc_get(self@, k)
    }

    pub fn new() -> (r: KvMap<V>)
        ensures
            r@ == Seq::<(Seq<char>, V)>::empty(),
    {
        let r = KvMap { entries: Vec::new() };
        proof {
            assert(r@ =~= Seq::<(Seq<char>, V)>::empty());
        }
        r
    }

    pub fn len(&self) -> (r: usize)
        ensures
            r == self@.len(),
    {
        self.entries.len()
    }

    pub fn is_empty(&self) -> (r: bool)
        ensures
            r == (self@.len() == 0),
    {
        self.entries.len() == 0
    }

    /// The entry at position `i`, in insertion order.
    pub fn entry(&self, i: usize) -> (r: (&String, &V))
        requires
            i < self@.len(),
        ensures
            r.0@ == self@[i as int].0,
            *r.1 == self@[i as int].1,
    {
        let e = &self.entries[i];
        (&e.0, &e.1)
    }

    /// Looks the key up, returning the first entry stored under it.
    pub fn get(&self, k: &str) -> (r: Option<&V>)
        ensures
            match r {
                Some(v) => self.spec_get(k@) == Some(*v),
                None => self.spec_get(k@) is None,
            },
    {
        let n = self.entries.len();
        let mut i: usize = 0;
        while i < n
            invariant
                n == self@.len(),
                0 <= i <= n,
                forall|t: int| 0 <= t < i ==> (#[trigger] self@[t]).0 != k@,
            decreases n - i,
        {
            if str_eq(self.entries[i].0.as_str(), k) {
                proof {
                    lemma_assoc_get_at(self@, k@, i as int);
                }
                return Some(&self.entries[i].1);
            }
            i = i + 1;
        }
        proof {
            lemma_assoc_get_at(self@, k@, n as int);
        }
        None
    }

    /// Appends an entry; when the key is already present the new entry is
    /// shadowed by the old one for lookups, so callers that need one value
    /// per key remove the old entry first or never insert a key twice.
    pub fn insert(&mut self, k: String, v: V)
        ensures
            final(self)@ == old(self)@.push((k@, v)),
    {
        self.entries.push((k, v));
        proof {
            assert(final(self)@ =~= old(self)@.push((k@, v)));
        }
    }

    /// Removes and returns the first entry stored under `k`, if any.
    pub fn remove(&mut self, k: &str) -> (r: Option<V>)
        ensures
            r == old(self).spec_get(k@),
            r is None ==> final(self)@ == old(self)@,
            forall|k2: Seq<char>| k2 != k@ ==> final(self).spec_get(k2) == old(self).spec_get(k2),
    {
        let n = self.entries.len();
        let mut i: usize = 0;
        while i < n
            invariant
                self@ == old(self)@,
                n == self@.len(),
                0 <= i <= n,
                forall|t: int| 0 <= t < i ==> (#[trigger] self@[t]).0 != k@,
            decreases n - i,
        {
            if str_eq(self.entries[i].0.as_str(), k) {
                proof {
                    lemma_assoc_get_at(self@, k@, i as int);
                }
                let ghost pre = self@;
                let e = self.entries.remove(i);
                proof {
                    assert(self@ =~= pre.remove(i as int));
                    assert(e.1 == pre[i as int].1);
                    assert forall|k2: Seq<char>| k2 != k@ implies assoc_get(self@, k2) == assoc_get(
                        pre,
                        k2,
                    ) by {
                        lemma_assoc_get_remove(pre, k2, i as int);
                    }
                }
                return Some(e.1);
            }
            i = i + 1;
        }
        proof {
            lemma_assoc_get_at(self@, k@, n as int);
        }
        None
    }
}

} // verus!
