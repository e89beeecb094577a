use crate::address::Address;
use crate::auction::{AuctionView, Phase};
use crate::uint256::modulus;
use vstd::prelude::*;

verus! {

/// One call of an operation of the auction, with its arguments.
pub enum Call {
    Start { caller: Address, now: u64, asset_received: bool },
    Bid { caller: Address, now: u64, amount: nat },
    Withdraw { caller: Address },
    RestoreRefund { bidder: Address, amount: nat },
    End { now: u64 },
    Reopen,
}

impl AuctionView {
    /// The auction after one call.
    pub open spec fn step(self, call: Call) -> AuctionView {
        match call {
            Call::Start { caller, now, asset_received } => self.start(caller, now, asset_received),
            Call::Bid { caller, now, amount } => self.bid(caller, now, amount),
            Call::Withdraw { caller } => self.withdraw(caller),
            Call::RestoreRefund { bidder, amount } => self.restore_refund(bidder, amount),
            Call::End { now } => self.end(now),
            Call::Reopen => self.reopen(),
        }
    }

    /// The auction after a sequence of calls, first to last.
    pub open spec fn run(self, calls: Seq<Call>) -> AuctionView
        decreases calls.len(),
    {
        if calls.len() == 0 {
            self
        } else {
            self.run(calls.drop_last()).step(calls.last())
        }
    }

    /// What one call adds to what `who` may withdraw: the bid that stood, when `who` led and
    /// is outbid, or what is put back after a payment to `who` failed.
    pub open spec fn credit_to(self, call: Call, who: Address) -> nat {
        match call {
            Call::Bid { caller, now, amount } => if self.bid_refusal(now, amount) is None
                && self.has_leader() && self.highest_bidder == who {
                self.highest_bid
            } else {
                0
            },
            Call::RestoreRefund { bidder, amount } => if bidder == who {
                amount
            } else {
                0
            },
            _ => 0,
        }
    }

    /// What one call pays out to `who`: all that `who` is owed, when `who` withdraws.
    pub open spec fn payout_to(self, call: Call, who: Address) -> nat {
        match call {
            Call::Withdraw { caller } => if caller == who {
                self.refunds[who]
            } else {
                0
            },
            _ => 0,
        }
    }

    /// All that a sequence of calls adds to what `who` may withdraw.
    pub open spec fn credits(self, calls: Seq<Call>, who: Address) -> nat
        decreases calls.len(),
    {
        if calls.len() == 0 {
            0
        } else {
            self.credits(calls.drop_last(), who) + self.run(calls.drop_last()).credit_to(
                calls.last(),
                who,
            )
        }
    }

    /// All that a sequence of calls pays out to `who`.
    pub open spec fn payouts(self, calls: Seq<Call>, who: Address) -> nat
        decreases calls.len(),
    {
        if calls.len() == 0 {
            0
        } else {
            self.payouts(calls.drop_last(), who) + self.run(calls.drop_last()).payout_to(
                calls.last(),
                who,
            )
        }
    }

    /// Whether what `who` may withdraw stays below `2^256` at every call of the sequence.
    pub open spec fn fits(self, calls: Seq<Call>, who: Address) -> bool
        decreases calls.len(),
    {
        calls.len() > 0 ==> {
            let before = self.run(calls.drop_last());
            &&& self.fits(calls.drop_last(), who)
            &&& before.refunds[who] + before.credit_to(calls.last(), who) < modulus()
        }
    }
}

/// The rank of a phase in the life of an auction.
pub open spec fn rank(phase: Phase) -> nat {
    match phase {
        Phase::Created => 0,
        Phase::Started => 1,
        Phase::Ended => 2,
    }
}

/// Running one sequence of calls and then another is running the two in a row.
pub proof fn lemma_run_concat(s: AuctionView, first: Seq<Call>, second: Seq<Call>)
    ensures
        s.run(first + second) == s.run(first).run(second),
    decreases second.len(),
{
    if second.len() == 0 {
        assert(first + second =~= first);
    } else {
        lemma_run_concat(s, first, second.drop_last());
        assert((first + second).drop_last() =~= first + second.drop_last());
        assert((first + second).last() == second.last());
    }
}

/// No call makes an auction that has not started count as ended, or takes a bid before
/// the start.
pub proof fn law_step_keeps_invariant(s: AuctionView, call: Call)
    requires
        s.inv(),
    ensures
        s.step(call).inv(),
{
}

/// An auction never counts as ended without having started, whatever is called on it
/// after its creation.
pub proof fn law_never_ended_unless_started(
    registry: Address,
    asset_id: nat,
    seller: Address,
    calls: Seq<Call>,
)
    ensures
        AuctionView::created(registry, asset_id, seller).run(calls).inv(),
        AuctionView::created(registry, asset_id, seller).run(calls).ended ==> AuctionView::created(
            registry,
            asset_id,
            seller,
        ).run(calls).started,
    decreases calls.len(),
{
    let s = AuctionView::created(registry, asset_id, seller);
    if calls.len() > 0 {
        law_never_ended_unless_started(registry, asset_id, seller, calls.drop_last());
        law_step_keeps_invariant(s.run(calls.drop_last()), calls.last());
    }
}

/// The asset, its registry and the seller never change.
pub proof fn law_terms_are_fixed(s: AuctionView, calls: Seq<Call>)
    ensures
        s.run(calls).registry == s.registry,
        s.run(calls).asset_id == s.asset_id,
        s.run(calls).seller == s.seller,
    decreases calls.len(),
{
    if calls.len() > 0 {
        law_terms_are_fixed(s, calls.drop_last());
    }
}

/// Once the auction has started, it stays started and the end of the bidding window never
/// moves.
pub proof fn law_end_time_is_fixed(s: AuctionView, calls: Seq<Call>)
    requires
        s.started,
    ensures
        s.run(calls).started,
        s.run(calls).end_at == s.end_at,
    decreases calls.len(),
{
    if calls.len() > 0 {
        law_end_time_is_fixed(s, calls.drop_last());
    }
}

/// A call moves the auction forward by at most one phase, and only `reopen` moves it back.
pub proof fn law_phases_in_order(s: AuctionView, call: Call)
    requires
        s.inv(),
    ensures
        rank(s.step(call).phase()) <= rank(s.phase()) + 1,
        !(call is Reopen) ==> rank(s.phase()) <= rank(s.step(call).phase()),
{
}

/// The highest bid never falls.
pub proof fn law_highest_bid_never_falls(s: AuctionView, calls: Seq<Call>)
    ensures
        s.run(calls).highest_bid >= s.highest_bid,
    decreases calls.len(),
{
    if calls.len() > 0 {
        law_highest_bid_never_falls(s, calls.drop_last());
    }
}

/// A bid that is taken exceeds every highest bid that the auction recorded before: the one
/// after the first `k` calls, for every `k`.
pub proof fn law_accepted_bid_exceeds_all_earlier(
    s: AuctionView,
    calls: Seq<Call>,
    k: int,
    caller: Address,
    now: u64,
    amount: nat,
)
    requires
        0 <= k <= calls.len(),
        s.run(calls).bid_refusal(now, amount) is None,
    ensures
        s.run(calls).bid(caller, now, amount).highest_bid == amount,
        amount > s.run(calls.take(k)).highest_bid,
{
    lemma_run_concat(s, calls.take(k), calls.skip(k));
    assert(calls.take(k) + calls.skip(k) =~= calls);
    law_highest_bid_never_falls(s.run(calls.take(k)), calls.skip(k));
}

/// No value is made or lost: what an address may withdraw is what it could withdraw at
/// first, plus all that was credited to it, minus all that was paid out to it. This holds
/// as long as what the address may withdraw stays below `2^256`, where amounts wrap.
pub proof fn law_refunds_are_conserved(s: AuctionView, calls: Seq<Call>, who: Address)
    requires
        s.fits(calls, who),
    ensures
        s.run(calls).refunds[who] == s.refunds[who] + s.credits(calls, who) - s.payouts(calls, who),
    decreases calls.len(),
{
    if calls.len() > 0 {
        law_refunds_are_conserved(s, calls.drop_last(), who);
    }
}

/// From its creation on, what an address may withdraw is all that was credited to it minus
/// all that was paid out to it.
pub proof fn law_refund_is_credits_minus_payouts(
    registry: Address,
    asset_id: nat,
    seller: Address,
    calls: Seq<Call>,
    who: Address,
)
    requires
        AuctionView::created(registry, asset_id, seller).fits(calls, who),
    ensures
        AuctionView::created(registry, asset_id, seller).run(calls).refunds[who]
            == AuctionView::created(registry, asset_id, seller).credits(calls, who)
            - AuctionView::created(registry, asset_id, seller).payouts(calls, who),
{
    law_refunds_are_conserved(AuctionView::created(registry, asset_id, seller), calls, who);
}

/// A second withdrawal right after the first pays nothing and changes nothing.
pub proof fn law_second_withdrawal_pays_nothing(s: AuctionView, caller: Address)
    ensures
        s.withdraw(caller).withdrawal(caller).payout.amount == 0,
        s.withdraw(caller).withdraw(caller) == s.withdraw(caller),
{
    assert(s.withdraw(caller).refunds.insert(caller, 0) =~= s.withdraw(caller).refunds);
}

/// A withdrawal whose payment failed leaves no trace once the refund is restored, as long as
/// what the caller was owed is on record and is a 256-bit number.
pub proof fn law_restored_withdrawal_changes_nothing(s: AuctionView, caller: Address)
    requires
        s.refunds.contains_key(caller),
        s.refunds[caller] < modulus(),
    ensures
        s.withdraw(caller).restore_refund(caller, s.refunds[caller]) == s,
{
    assert(s.withdraw(caller).restore_refund(caller, s.refunds[caller]).refunds =~= s.refunds);
}

/// An `end` that is taken back leaves no trace.
pub proof fn law_reopened_end_changes_nothing(s: AuctionView, now: u64)
    requires
        !s.ended,
    ensures
        s.end(now).reopen() == s,
{
}

} // verus!
