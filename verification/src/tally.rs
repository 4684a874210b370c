//! The pick tally: how many times each choice text has been drawn. Tallying
//! is by text value, so two equal-text choices share one bucket. An entry is
//! created at 1 on the first pick and never removed during a session.

use vstd::prelude::*;

verus! {

/// The count recorded for `k` in an association sequence, 0 when absent.
/// When a key occurs more than once, the last occurrence wins; the tally's
/// invariant keeps keys unique, so that case never arises there.
pub open spec fn count_in(s: Seq<(String, u64)>, k: Seq<char>) -> nat
    decreases s.len(),
{
    if s.len() == 0 {
        0
    } else if s.last().0@ == k {
        s.last().1 as nat
    } else {
        count_in(s.drop_last(), k)
    }
}

/// The sum of all counts in an association sequence.
pub open spec fn sum_in(s: Seq<(String, u64)>) -> nat
    decreases s.len(),
{
    if s.len() == 0 {
        0
    } else {
        (sum_in(s.drop_last()) + s.last().1) as nat
    }
}

/// No two entries share a key.
pub open spec fn unique_keys(s: Seq<(String, u64)>) -> bool {
    forall|i: int, j: int| 0 <= i < j < s.len() ==> s[i].0@ != s[j].0@
}

/// Each entry's count is at least `sum_in` of nothing and at most the sum of
/// all counts.
proof fn lemma_count_le_sum(s: Seq<(String, u64)>, i: int)
    requires
        0 <= i < s.len(),
    ensures
        s[i].1 <= sum_in(s),
    decreases s.len(),
{
    if i == s.len() - 1 {
    } else {
        lemma_count_le_sum(s.drop_last(), i);
    }
}

/// With unique keys, the count recorded for the key of entry `i` is that
/// entry's count.
proof fn lemma_count_found(s: Seq<(String, u64)>, i: int)
    requires
        unique_keys(s),
        0 <= i < s.len(),
    ensures
        count_in(s, s[i].0@) == s[i].1,
    decreases s.len(),
{
    if i == s.len() - 1 {
    } else {
        assert(s.last().0@ != s[i].0@);
        lemma_count_found(s.drop_last(), i);
    }
}

/// A key that no entry holds has count 0.
proof fn lemma_count_absent(s: Seq<(String, u64)>, k: Seq<char>)
    requires
        forall|i: int| 0 <= i < s.len() ==> s[i].0@ != k,
    ensures
        count_in(s, k) == 0,
    decreases s.len(),
{
    if s.len() == 0 {
    } else {
        lemma_count_absent(s.drop_last(), k);
    }
}

/// Replacing entry `i` by a pair with the same key changes that key's count
/// to the new pair's count, leaves every other key's count alone, and moves
/// the sum by the difference.
proof fn lemma_update_count(s: Seq<(String, u64)>, i: int, p: (String, u64))
    requires
        unique_keys(s),
        0 <= i < s.len(),
        p.0@ == s[i].0@,
    ensures
        unique_keys(s.update(i, p)),
        count_in(s.update(i, p), s[i].0@) == p.1,
        forall|k: Seq<char>| k != s[i].0@ ==> count_in(s.update(i, p), k) == count_in(s, k),
        sum_in(s.update(i, p)) == sum_in(s) - s[i].1 + p.1,
    decreases s.len(),
{
    let t = s.update(i, p);
    assert(forall|m: int| 0 <= m < s.len() ==> t[m].0@ == s[m].0@);
    if i == s.len() - 1 {
        assert(t.last() == p);
        assert(t.drop_last() =~= s.drop_last());
        assert forall|k: Seq<char>| k != s[i].0@ implies count_in(t, k) == count_in(s, k) by {
            assert(count_in(t, k) == count_in(t.drop_last(), k));
        }
    } else {
        assert(t.last() == s.last());
        assert(t.drop_last() =~= s.drop_last().update(i, p));
        lemma_update_count(s.drop_last(), i, p);
        assert(s.last().0@ != s[i].0@);
        assert(count_in(t, s[i].0@) == count_in(t.drop_last(), s[i].0@));
        assert forall|k: Seq<char>| k != s[i].0@ implies count_in(t, k) == count_in(s, k) by {
            if k == s.last().0@ {
                assert(count_in(t, k) == t.last().1 as nat);
            } else {
                assert(count_in(t, k) == count_in(t.drop_last(), k));
                assert(count_in(s, k) == count_in(s.drop_last(), k));
            }
        }
    }
}

/// Appending an entry with a fresh key gives that key the new count and
/// leaves every other key's count alone.
proof fn lemma_push_count(s: Seq<(String, u64)>, p: (String, u64))
    requires
        forall|i: int| 0 <= i < s.len() ==> s[i].0@ != p.0@,
    ensures
        count_in(s.push(p), p.0@) == p.1,
        forall|k: Seq<char>| k != p.0@ ==> count_in(s.push(p), k) == count_in(s, k),
        sum_in(s.push(p)) == sum_in(s) + p.1,
{
    assert(s.push(p).last() == p);
    assert(s.push(p).drop_last() =~= s);
}

/// A key with a non-zero count is held by some entry.
proof fn lemma_nonzero_has_entry(s: Seq<(String, u64)>, k: Seq<char>)
    requires
        count_in(s, k) != 0,
    ensures
        exists|i: int| 0 <= i < s.len() && s[i].0@ == k,
    decreases s.len(),
{
    if s.len() == 0 {
    } else if s.last().0@ == k {
        assert(s[s.len() - 1].0@ == k);
    } else {
        lemma_nonzero_has_entry(s.drop_last(), k);
        let i = choose|i: int| 0 <= i < s.drop_last().len() && s.drop_last()[i].0@ == k;
        assert(s[i].0@ == k);
    }
}

/// Maps each choice text to how many times it has been picked. Its view is
/// the total map from character sequences to counts, 0 for texts never
/// picked.
pub struct PickTally {
    entries: Vec<(String, u64)>,
    total: u64,
}

impl View for PickTally {
    type V = Map<Seq<char>, nat>;

    closed spec fn view(&self) -> Map<Seq<char>, nat> {
        Map::new(|k: Seq<char>| true, |k: Seq<char>| count_in(self.entries@, k))
    }
}

impl PickTally {
    /// Internal invariant: keys are unique, every recorded count is at least
    /// 1, and `total` is the sum of all counts.
    pub closed spec fn wf(&self) -> bool {
        &&& unique_keys(self.entries@)
        &&& forall|i: int| 0 <= i < self.entries@.len() ==> self.entries@[i].1 >= 1
        &&& self.total as nat == sum_in(self.entries@)
    }

    /// The number of picks recorded so far: the sum of all counts.
    pub closed spec fn total_spec(&self) -> nat {
        self.total as nat
    }

    /// A new tally with every count 0.
    pub fn new() -> (r: PickTally)
        ensures
            r.wf(),
            r.total_spec() == 0,
            r@ == Map::new(|k: Seq<char>| true, |k: Seq<char>| 0nat),
    {
        let r = PickTally { entries: Vec::new(), total: 0 };
        proof {
            assert(r@ =~= Map::new(|k: Seq<char>| true, |k: Seq<char>| 0nat));
        }
        r
    }

    /// The number of picks recorded so far.
    pub fn total(&self) -> (r: u64)
        ensures
            r as nat == self.total_spec(),
    {
        self.total
    }

    /// Increments the bucket for `key`, creating it at 1 if absent. Always
    /// succeeds, up to the machine limit on the total number of picks.
    pub fn record_pick(&mut self, key: &String)
        requires
            old(self).wf(),
            old(self).total_spec() < u64::MAX,
        ensures
            final(self).wf(),
            final(self)@ == old(self)@.insert(key@, old(self)@[key@] + 1),
            final(self).total_spec() == old(self).total_spec() + 1,
    {
        let n = self.entries.len();
        let mut i: usize = 0;
        while i < n
            invariant
                *self == *old(self),
                old(self).wf(),
                old(self).total_spec() < u64::MAX,
                n == self.entries@.len(),
                i <= n,
                forall|j: int| 0 <= j < i ==> self.entries@[j].0@ != key@,
            decreases n - i,
        {
            if self.entries[i].0 == *key {
                let c = self.entries[i].1;
                proof {
                    lemma_count_le_sum(self.entries@, i as int);
                }
                self.entries.set(i, (key.clone(), c + 1));
                self.total = self.total + 1;
                proof {
                    lemma_count_found(old(self).entries@, i as int);
                    lemma_update_count(old(self).entries@, i as int, self.entries@[i as int]);
                    assert(self@ =~= old(self)@.insert(key@, old(self)@[key@] + 1));
                }
                return;
            }
            i = i + 1;
        }
        self.entries.push((key.clone(), 1));
        self.total = self.total + 1;
        proof {
            lemma_count_absent(old(self).entries@, key@);
            lemma_push_count(old(self).entries@, self.entries@.last());
            assert(self@ =~= old(self)@.insert(key@, old(self)@[key@] + 1));
        }
    }

    /// The count recorded for `key`.
    pub fn count_of(&self, key: &String) -> (r: u64)
        requires
            self.wf(),
        ensures
            r as nat == self@[key@],
    {
        let n = self.entries.len();
        let mut i: usize = 0;
        while i < n
            invariant
                n == self.entries@.len(),
                i <= n,
                forall|j: int| 0 <= j < i ==> self.entries@[j].0@ != key@,
                self.wf(),
            decreases n - i,
        {
            if self.entries[i].0 == *key {
                proof {
                    lemma_count_found(self.entries@, i as int);
                }
                return self.entries[i].1;
            }
            i = i + 1;
        }
        proof {
            lemma_count_absent(self.entries@, key@);
        }
        0
    }

    /// A snapshot of the whole tally: each picked text once, with its count.
    /// The counts sum to the number of picks recorded.
    pub fn snapshot(&self) -> (r: Vec<(String, u64)>)
        requires
            self.wf(),
        ensures
            unique_keys(r@),
            forall|i: int|
                0 <= i < r@.len() ==> r@[i].1 as nat == self@[r@[i].0@] && r@[i].1 >= 1,
            forall|k: Seq<char>|
                self@[k] != 0 ==> exists|i: int| 0 <= i < r@.len() && r@[i].0@ == k,
            sum_in(r@) == self.total_spec(),
    {
        let n = self.entries.len();
        let mut out: Vec<(String, u64)> = Vec::new();
        let mut i: usize = 0;
        while i < n
            invariant
                n == self.entries@.len(),
                i <= n,
                out@.len() == i,
                forall|j: int| 0 <= j < i ==> out@[j] == self.entries@[j],
            decreases n - i,
        {
            out.push((self.entries[i].0.clone(), self.entries[i].1));
            i = i + 1;
        }
        proof {
            assert(out@ =~= self.entries@);
            assert forall|j: int| 0 <= j < out@.len() implies out@[j].1 as nat == self@[out@[j].0@]
                && out@[j].1 >= 1 by {
                lemma_count_found(self.entries@, j);
            }
            assert forall|k: Seq<char>| self@[k] != 0 implies exists|i2: int|
                0 <= i2 < out@.len() && out@[i2].0@ == k by {
                lemma_nonzero_has_entry(self.entries@, k);
            }
        }
        out
    }
}

} // verus!
