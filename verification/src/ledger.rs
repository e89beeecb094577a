use crate::address::Address;
use crate::uint256::{modulus, wrapping_add, Uint256};
use vstd::prelude::*;

verus! {

/// What one bidder may withdraw.
#[derive(Clone, Copy, Debug)]
struct RefundEntry {
    bidder: Address,
    amount: Uint256,
}

/// The amounts owed back to outbid bidders, one entry per bidder.
///
/// An entry appears the first time a bidder is credited and is never removed; a withdrawal
/// sets it to zero. A bidder without an entry is owed nothing.
#[derive(Debug)]
pub struct RefundLedger {
    entries: Vec<RefundEntry>,
}

/// No bidder has two entries.
spec fn distinct_bidders(entries: Seq<RefundEntry>) -> bool {
    forall|i: int, j: int|
        0 <= i < j < entries.len() ==> (#[trigger] entries[i]).bidder != (#[trigger] entries[j]).bidder
}

/// Whether some entry belongs to `who`.
spec fn has_entry(entries: Seq<RefundEntry>, who: Address) -> bool {
    exists|i: int| 0 <= i < entries.len() && (#[trigger] entries[i]).bidder == who
}

/// What the entries owe to `who`: the amount of its entry, or nothing.
spec fn owed(entries: Seq<RefundEntry>, who: Address) -> nat {
    if has_entry(entries, who) {
        let i = choose|i: int| 0 <= i < entries.len() && (#[trigger] entries[i]).bidder == who;
        entries[i].amount@
    } else {
        0
    }
}

/// With distinct bidders, the entry at `i` decides what its bidder is owed.
proof fn lemma_owed_at(entries: Seq<RefundEntry>, i: int)
    requires
        distinct_bidders(entries),
        0 <= i < entries.len(),
    ensures
        has_entry(entries, entries[i].bidder),
        owed(entries, entries[i].bidder) == entries[i].amount@,
{
    let who = entries[i].bidder;
    let k = choose|k: int| 0 <= k < entries.len() && (#[trigger] entries[k]).bidder == who;
    assert(k == i) by {
        if k < i {
            assert(entries[k].bidder != entries[i].bidder);
        } else if i < k {
            assert(entries[i].bidder != entries[k].bidder);
        }
    }
}

/// A bidder whose entry two lists share, or who has none in either, is owed the same by both.
proof fn lemma_owed_same(before: Seq<RefundEntry>, after: Seq<RefundEntry>, who: Address)
    requires
        distinct_bidders(before),
        distinct_bidders(after),
        forall|k: int|
            0 <= k < before.len() && (#[trigger] before[k]).bidder == who ==> k < after.len()
                && after[k] == before[k],
        forall|k: int|
            0 <= k < after.len() && (#[trigger] after[k]).bidder == who ==> k < before.len()
                && before[k] == after[k],
    ensures
        owed(before, who) == owed(after, who),
{
    if has_entry(before, who) {
        let k = choose|k: int| 0 <= k < before.len() && (#[trigger] before[k]).bidder == who;
        lemma_owed_at(before, k);
        lemma_owed_at(after, k);
    } else if has_entry(after, who) {
        let k = choose|k: int| 0 <= k < after.len() && (#[trigger] after[k]).bidder == who;
        assert(before[k].bidder == who);
    }
}

impl RefundLedger {
    #[verifier::type_invariant]
    spec fn distinct(self) -> bool {
        distinct_bidders(self.entries@)
    }

    /// The amount owed to every address: a total map.
    pub closed spec fn view(self) -> Map<Address, nat> {
        Map::total(|who: Address| owed(self.entries@, who))
    }

    /// The ledger says what every address is owed.
    pub proof fn lemma_total(self)
        ensures
            forall|who: Address| self@.contains_key(who),
    {
    }

    /// A ledger that owes nothing to anyone.
    pub fn new() -> (r: RefundLedger)
        ensures
            r@ == Map::total(|who: Address| 0nat),
    {
        let r = RefundLedger { entries: Vec::new() };
        assert(r@ =~= Map::total(|who: Address| 0nat));
        r
    }

    /// The index of the entry of `who`, if it has one.
    fn position(&self, who: Address) -> (r: Option<usize>)
        ensures
            match r {
                Some(i) => i < self.entries@.len() && self.entries@[i as int].bidder == who,
                None => !has_entry(self.entries@, who),
            },
    {
        let mut i: usize = 0;
        while i < self.entries.len()
            invariant
                i <= self.entries.len(),
                forall|j: int| 0 <= j < i ==> (#[trigger] self.entries@[j]).bidder != who,
            decreases self.entries.len() - i,
        {
            if self.entries[i].bidder == who {
                return Some(i);
            }
            i += 1;
        }
        None
    }

    /// What `who` may withdraw.
    pub fn balance_of(&self, who: Address) -> (r: Uint256)
        ensures
            r@ == self@[who],
    {
        proof {
            use_type_invariant(self);
        }
        match self.position(who) {
            Some(i) => {
                proof {
                    lemma_owed_at(self.entries@, i as int);
                }
                self.entries[i].amount
            },
            None => Uint256::zero(),
        }
    }

    /// Adds `amount` to what `who` may withdraw, wrapping at `2^256`.
    pub fn credit(&mut self, who: Address, amount: Uint256)
        ensures
            final(self)@ == old(self)@.insert(who, (old(self)@[who] + amount@) % modulus()),
    {
        proof {
            use_type_invariant(&*self);
            amount.lemma_bounded();
        }
        let ghost before = self.entries@;
        let ghost at: int;
        let found = self.position(who);
        let mut entries: Vec<RefundEntry> = Vec::new();
        std::mem::swap(&mut self.entries, &mut entries);
        match found {
            Some(i) => {
                let sum = wrapping_add(entries[i].amount, amount);
                proof {
                    at = i as int;
                    lemma_owed_at(before, at);
                }
                entries.set(i, RefundEntry { bidder: who, amount: sum });
            },
            None => {
                proof {
                    at = before.len() as int;
                }
                entries.push(RefundEntry { bidder: who, amount });
            },
        }
        proof {
            let after = entries@;
            assert(distinct_bidders(after));
            lemma_owed_at(after, at);
            assert forall|other: Address| other != who implies owed(before, other) == owed(
                after,
                other,
            ) by {
                lemma_owed_same(before, after, other);
            }
        }
        self.entries = entries;
        assert(self@ =~= old(self)@.insert(who, (old(self)@[who] + amount@) % modulus()));
    }

    /// Sets what `who` may withdraw to zero and returns what it was.
    pub fn take(&mut self, who: Address) -> (r: Uint256)
        ensures
            r@ == old(self)@[who],
            final(self)@ == old(self)@.insert(who, 0),
    {
        proof {
            use_type_invariant(&*self);
        }
        let ghost before = self.entries@;
        match self.position(who) {
            Some(i) => {
                let amount = self.entries[i].amount;
                proof {
                    lemma_owed_at(before, i as int);
                }
                let mut entries: Vec<RefundEntry> = Vec::new();
                std::mem::swap(&mut self.entries, &mut entries);
                entries.set(i, RefundEntry { bidder: who, amount: Uint256::zero() });
                self.entries = entries;
                proof {
                    let after = self.entries@;
                    lemma_owed_at(after, i as int);
                    assert forall|other: Address| other != who implies owed(before, other)
                        == owed(after, other) by {
                        lemma_owed_same(before, after, other);
                    }
                    assert(self@ =~= old(self)@.insert(who, 0));
                }
                amount
            },
            None => {
                assert(self@ =~= old(self)@.insert(who, 0));
                Uint256::zero()
            },
        }
    }
}

} // verus!
