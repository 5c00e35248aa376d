use vstd::prelude::*;
use crate::identity::Identity;

verus! {

/// One participant's ledger entry.
#[derive(Clone, Copy, Debug, PartialEq, Eq)]
pub struct UserStake {
    pub participant: Identity,
    pub staked_amount: u128,
}

/// Sum of the staked amounts of a sequence of entries.
pub open spec fn sum_staked(s: Seq<UserStake>) -> int
    decreases s.len(),
{
    if s.len() == 0 {
        0
    } else {
        sum_staked(s.drop_last()) + s.last().staked_amount
    }
}

/// Replacing one entry changes the sum by the difference of the two amounts.
proof fn lemma_sum_staked_update(s: Seq<UserStake>, i: int, e: UserStake)
    requires
        0 <= i < s.len(),
    ensures
        sum_staked(s.update(i, e)) == sum_staked(s) - s[i].staked_amount + e.staked_amount,
    decreases s.len(),
{
    let t = s.update(i, e);
    if i == s.len() - 1 {
        assert(t.drop_last() =~= s.drop_last());
    } else {
        assert(t.drop_last() =~= s.drop_last().update(i, e));
        lemma_sum_staked_update(s.drop_last(), i, e);
    }
}

/// Every participant's ledger entry, at most one per participant. Entries are
/// created on a participant's first stake and never removed.
#[derive(Clone, Debug)]
pub struct StakeLedger {
    pub entries: Vec<UserStake>,
}

impl StakeLedger {
    /// No participant has two entries.
    pub open spec fn wf(&self) -> bool {
        forall|i: int, j: int|
            0 <= i < j < self.entries@.len() ==> #[trigger] self.entries@[i].participant
                != #[trigger] self.entries@[j].participant
    }

    /// Sum over all entries.
    pub open spec fn total(&self) -> int {
        sum_staked(self.entries@)
    }

    /// Whether `p` has an entry.
    pub open spec fn holds(&self, p: Identity) -> bool {
        exists|i: int| 0 <= i < self.entries@.len() && #[trigger] self.entries@[i].participant == p
    }

    /// What `p` has staked: zero without an entry.
    pub open spec fn staked_of(&self, p: Identity) -> u128 {
        if self.holds(p) {
            self.entries@[choose|i: int|
                0 <= i < self.entries@.len() && #[trigger] self.entries@[i].participant == p].staked_amount
        } else {
            0
        }
    }

    proof fn lemma_staked_of_at(&self, i: int)
        requires
            self.wf(),
            0 <= i < self.entries@.len(),
        ensures
            self.holds(self.entries@[i].participant),
            self.staked_of(self.entries@[i].participant) == self.entries@[i].staked_amount,
    {
        let p = self.entries@[i].participant;
        assert(self.holds(p));
        let k = choose|k: int| 0 <= k < self.entries@.len() && #[trigger] self.entries@[k].participant == p;
        if k < i {
            assert(self.entries@[k].participant != self.entries@[i].participant);
        } else if i < k {
            assert(self.entries@[i].participant != self.entries@[k].participant);
        }
    }

    /// An empty ledger.
    pub fn new() -> (r: StakeLedger)
        ensures
            r.wf(),
            r.total() == 0,
            forall|p: Identity| !r.holds(p),
    {
        StakeLedger { entries: Vec::new() }
    }

    /// The position of `p`'s entry, if it has one.
    pub fn find(&self, p: &Identity) -> (r: Option<usize>)
        ensures
            r is None <==> !self.holds(*p),
            r matches Some(i) ==> i < self.entries@.len() && self.entries@[i as int].participant == *p,
    {
        let mut i: usize = 0;
        while i < self.entries.len()
            invariant
                0 <= i <= self.entries@.len(),
                forall|j: int| 0 <= j < i ==> #[trigger] self.entries@[j].participant != *p,
            decreases self.entries@.len() - i,
        {
            if self.entries[i].participant.same(p) {
                return Some(i);
            }
            i = i + 1;
        }
        None
    }

    /// The entry of `p`, or a zero entry when it has none yet.
    pub fn entry_or_default(&self, p: &Identity) -> (r: UserStake)
        requires
            self.wf(),
        ensures
            r.participant == *p,
            r.staked_amount == self.staked_of(*p),
    {
        match self.find(p) {
            Some(i) => {
                proof {
                    self.lemma_staked_of_at(i as int);
                }
                self.entries[i]
            },
            None => UserStake { participant: *p, staked_amount: 0 },
        }
    }

    /// What `p` has staked: zero when it has no entry.
    pub fn staked_amount(&self, p: &Identity) -> (r: u128)
        requires
            self.wf(),
        ensures
            r == self.staked_of(*p),
    {
        self.entry_or_default(p).staked_amount
    }

    /// Sets `p`'s staked amount, creating its entry if needed. Nothing else
    /// changes.
    pub fn set_staked(&mut self, p: &Identity, amount: u128)
        requires
            old(self).wf(),
        ensures
            final(self).wf(),
            final(self).holds(*p),
            final(self).staked_of(*p) == amount,
            forall|q: Identity| q != *p ==> #[trigger] final(self).holds(q) == old(self).holds(q),
            forall|q: Identity| q != *p ==> #[trigger] final(self).staked_of(q) == old(self).staked_of(q),
            final(self).total() == old(self).total() - old(self).staked_of(*p) + amount,
    {
        let e = UserStake { participant: *p, staked_amount: amount };
        match self.find(p) {
            Some(i) => {
                proof {
                    old(self).lemma_staked_of_at(i as int);
                    lemma_sum_staked_update(old(self).entries@, i as int, e);
                }
                self.entries.set(i, e);
                proof {
                    assert(self.entries@ == old(self).entries@.update(i as int, e));
                    self.lemma_staked_of_at(i as int);
                    assert forall|q: Identity| q != *p implies #[trigger] self.holds(q) == old(self).holds(q)
                        && self.staked_of(q) == old(self).staked_of(q) by {
                        if old(self).holds(q) {
                            let k = choose|k: int| 0 <= k < old(self).entries@.len() && #[trigger] old(self).entries@[k].participant == q;
                            old(self).lemma_staked_of_at(k);
                            self.lemma_staked_of_at(k);
                        }
                        if self.holds(q) {
                            let k = choose|k: int| 0 <= k < self.entries@.len() && #[trigger] self.entries@[k].participant == q;
                            assert(old(self).entries@[k].participant == q);
                        }
                    }
                }
            },
            None => {
                self.entries.push(e);
                proof {
                    let n = old(self).entries@.len() as int;
                    assert(self.entries@.drop_last() =~= old(self).entries@);
                    self.lemma_staked_of_at(n);
                    assert forall|q: Identity| q != *p implies #[trigger] self.holds(q) == old(self).holds(q)
                        && self.staked_of(q) == old(self).staked_of(q) by {
                        if old(self).holds(q) {
                            let k = choose|k: int| 0 <= k < old(self).entries@.len() && #[trigger] old(self).entries@[k].participant == q;
                            old(self).lemma_staked_of_at(k);
                            self.lemma_staked_of_at(k);
                        }
                        if self.holds(q) {
                            let k = choose|k: int| 0 <= k < self.entries@.len() && #[trigger] self.entries@[k].participant == q;
                            assert(k != n);
                            assert(old(self).entries@[k].participant == q);
                        }
                    }
                }
            },
        }
    }
}

} // verus!
