use crate::address::Address;
use crate::ledger::RefundLedger;
use crate::uint256::{less_than, modulus, wrapping_add, Uint256};
use vstd::prelude::*;

verus! {

/// Why an operation was refused.
#[derive(Clone, Copy, Debug, PartialEq, Eq, Structural)]
pub enum EnglishAuctionError {
    /// `start` on an auction that has started already.
    AlreadyStarted,
    /// `start` by someone other than the seller, or the registry did not hand over the asset.
    NotSeller,
    /// `bid` once the bidding window has elapsed or the auction has ended, or `end` on an
    /// auction that has ended.
    AuctionEnded,
    /// `bid` with an amount that does not exceed the highest bid.
    BidTooLow,
    /// `bid` or `end` on an auction that has not started.
    NotStarted,
    /// `end` before the bidding window has elapsed.
    NotEnded,
}

/// Where an auction stands in its life: created, then started, then ended.
#[derive(Clone, Copy, Debug, PartialEq, Eq, Structural)]
pub enum Phase {
    Created,
    Started,
    Ended,
}

/// What an operation announces to observers.
#[derive(Clone, Copy, Debug, PartialEq, Eq)]
pub enum Notification {
    Start,
    Bid { bidder: Address, amount: Uint256 },
    Withdraw { bidder: Address, amount: Uint256 },
    End { winner: Address, amount: Uint256 },
}

/// A notification, with its amount as a number.
pub enum NotificationView {
    Start,
    Bid { bidder: Address, amount: nat },
    Withdraw { bidder: Address, amount: nat },
    End { winner: Address, amount: nat },
}

impl View for Notification {
    type V = NotificationView;

    open spec fn view(&self) -> NotificationView {
        match *self {
            Notification::Start => NotificationView::Start,
            Notification::Bid { bidder, amount } => NotificationView::Bid { bidder, amount: amount@ },
            Notification::Withdraw { bidder, amount } => NotificationView::Withdraw {
                bidder,
                amount: amount@,
            },
            Notification::End { winner, amount } => NotificationView::End { winner, amount: amount@ },
        }
    }
}

/// Currency that the host has to send.
#[derive(Clone, Copy, Debug, PartialEq, Eq)]
pub struct Payout {
    pub to: Address,
    pub amount: Uint256,
}

/// A payout, with its amount as a number.
pub struct PayoutView {
    pub to: Address,
    pub amount: nat,
}

impl View for Payout {
    type V = PayoutView;

    open spec fn view(&self) -> PayoutView {
        PayoutView { to: self.to, amount: self.amount@ }
    }
}

/// What `withdraw` orders the host to do.
#[derive(Clone, Copy, Debug, PartialEq, Eq)]
pub struct Withdrawal {
    /// What the caller is paid.
    pub payout: Payout,
    /// The `Withdraw` notification.
    pub notification: Notification,
}

/// A withdrawal, with its amounts as numbers.
pub struct WithdrawalView {
    pub payout: PayoutView,
    pub notification: NotificationView,
}

impl View for Withdrawal {
    type V = WithdrawalView;

    open spec fn view(&self) -> WithdrawalView {
        WithdrawalView { payout: self.payout@, notification: self.notification@ }
    }
}

/// What `end` orders the host to hand over.
#[derive(Clone, Copy, Debug, PartialEq, Eq)]
pub struct Settlement {
    /// Who receives the asset.
    pub asset_to: Address,
    /// What the seller is paid, if anything.
    pub payment: Option<Payout>,
    /// The `End` notification.
    pub notification: Notification,
}

/// A settlement, with its amounts as numbers.
pub struct SettlementView {
    pub asset_to: Address,
    pub payment: Option<PayoutView>,
    pub notification: NotificationView,
}

impl View for Settlement {
    type V = SettlementView;

    open spec fn view(&self) -> SettlementView {
        SettlementView {
            asset_to: self.asset_to,
            payment: match self.payment {
                Some(p) => Some(p@),
                None => None,
            },
            notification: self.notification@,
        }
    }
}

/// The state of one auction as mathematics: amounts and times are numbers, and the ledger
/// is a map that says what every address may withdraw.
pub struct AuctionView {
    pub registry: Address,
    pub asset_id: nat,
    pub seller: Address,
    pub end_at: nat,
    pub started: bool,
    pub ended: bool,
    pub highest_bidder: Address,
    pub highest_bid: nat,
    pub refunds: Map<Address, nat>,
}

impl AuctionView {
    /// An auction that has just been set up: not started, no bid, nothing owed.
    pub open spec fn created(registry: Address, asset_id: nat, seller: Address) -> AuctionView {
        AuctionView {
            registry,
            asset_id,
            seller,
            end_at: 0,
            started: false,
            ended: false,
            highest_bidder: Address::zero(),
            highest_bid: 0,
            refunds: Map::total(|who: Address| 0nat),
        }
    }

    /// What holds of every auction: it has not ended unless it started, and it holds no bid
    /// unless it started.
    pub open spec fn inv(self) -> bool {
        &&& self.ended ==> self.started
        &&& !self.started ==> self.highest_bidder == Address::zero() && self.highest_bid == 0
    }

    pub open spec fn phase(self) -> Phase {
        if self.ended {
            Phase::Ended
        } else if self.started {
            Phase::Started
        } else {
            Phase::Created
        }
    }

    /// Whether a bid stands. The zero address as highest bidder means that none does.
    pub open spec fn has_leader(self) -> bool {
        self.highest_bidder != Address::zero()
    }

    /// The ledger after `amount` more is owed to `who`. Amounts wrap at `2^256`.
    pub open spec fn credited(self, who: Address, amount: nat) -> Map<Address, nat> {
        self.refunds.insert(who, (self.refunds[who] + amount) % modulus())
    }

    /// Why `start` is refused, if it is.
    pub open spec fn start_refusal(self, caller: Address, asset_received: bool) -> Option<
        EnglishAuctionError,
    > {
        if self.started {
            Some(EnglishAuctionError::AlreadyStarted)
        } else if caller != self.seller || !asset_received {
            Some(EnglishAuctionError::NotSeller)
        } else {
            None
        }
    }

    /// The auction after `start`: unchanged if refused, else open for bids for one week.
    pub open spec fn start(self, caller: Address, now: u64, asset_received: bool) -> AuctionView {
        if self.start_refusal(caller, asset_received) is Some {
            self
        } else {
            AuctionView { started: true, end_at: (now + EnglishAuction::BIDDING_WINDOW) as nat, ..self }
        }
    }

    /// Why `bid` is refused, if it is.
    pub open spec fn bid_refusal(self, now: u64, amount: nat) -> Option<EnglishAuctionError> {
        if !self.started {
            Some(EnglishAuctionError::NotStarted)
        } else if self.ended || now >= self.end_at {
            Some(EnglishAuctionError::AuctionEnded)
        } else if amount <= self.highest_bid {
            Some(EnglishAuctionError::BidTooLow)
        } else {
            None
        }
    }

    /// The auction after `bid`: unchanged if refused; else the caller leads with `amount`,
    /// and the bidder who led before is owed the bid that stood.
    pub open spec fn bid(self, caller: Address, now: u64, amount: nat) -> AuctionView {
        if self.bid_refusal(now, amount) is Some {
            self
        } else {
            AuctionView {
                highest_bidder: caller,
                highest_bid: amount,
                refunds: if self.has_leader() {
                    self.credited(self.highest_bidder, self.highest_bid)
                } else {
                    self.refunds
                },
                ..self
            }
        }
    }

    /// The auction after `withdraw`: the caller is owed nothing.
    pub open spec fn withdraw(self, caller: Address) -> AuctionView {
        AuctionView { refunds: self.refunds.insert(caller, 0), ..self }
    }

    /// What `withdraw` pays out and announces: all that the caller is owed.
    pub open spec fn withdrawal(self, caller: Address) -> WithdrawalView {
        WithdrawalView {
            payout: PayoutView { to: caller, amount: self.refunds[caller] },
            notification: NotificationView::Withdraw { bidder: caller, amount: self.refunds[caller] },
        }
    }

    /// The auction after `restore_refund`: `amount` more is owed to `bidder`.
    pub open spec fn restore_refund(self, bidder: Address, amount: nat) -> AuctionView {
        AuctionView { refunds: self.credited(bidder, amount), ..self }
    }

    /// Why `end` is refused, if it is.
    pub open spec fn end_refusal(self, now: u64) -> Option<EnglishAuctionError> {
        if !self.started {
            Some(EnglishAuctionError::NotStarted)
        } else if now < self.end_at {
            Some(EnglishAuctionError::NotEnded)
        } else if self.ended {
            Some(EnglishAuctionError::AuctionEnded)
        } else {
            None
        }
    }

    /// The auction after `end`: unchanged if refused, else ended.
    pub open spec fn end(self, now: u64) -> AuctionView {
        if self.end_refusal(now) is Some {
            self
        } else {
            AuctionView { ended: true, ..self }
        }
    }

    /// The auction after `reopen`: not ended.
    pub open spec fn reopen(self) -> AuctionView {
        AuctionView { ended: false, ..self }
    }

    /// What changes hands at the end. If a bid stands, the asset goes to the highest bidder
    /// and the highest bid to the seller; if none does, the asset goes back to the seller
    /// and no currency moves. The notification names the highest bidder and bid either way.
    pub open spec fn settlement(self) -> SettlementView {
        SettlementView {
            asset_to: if self.has_leader() {
                self.highest_bidder
            } else {
                self.seller
            },
            payment: if self.has_leader() {
                Some(PayoutView { to: self.seller, amount: self.highest_bid })
            } else {
                None
            },
            notification: NotificationView::End {
                winner: self.highest_bidder,
                amount: self.highest_bid,
            },
        }
    }
}

/// An English auction of one asset: the seller puts the asset in the auction's custody,
/// bids rise for a week, and the highest bidder gets the asset for the highest bid.
///
/// The auction decides; the host acts. Every operation takes who calls and what time it is,
/// and hands back what the host has to transfer and announce.
#[derive(Debug)]
pub struct EnglishAuction {
    registry: Address,
    asset_id: Uint256,
    seller: Address,
    end_at: Uint256,
    started: bool,
    ended: bool,
    highest_bidder: Address,
    highest_bid: Uint256,
    refunds: RefundLedger,
}

impl EnglishAuction {
    /// Seconds in a day.
    pub const ONE_DAY: u64 = 24 * 60 * 60;

    /// Seconds for which bids are taken once the auction has started: one week.
    pub const BIDDING_WINDOW: u64 = 7 * EnglishAuction::ONE_DAY;

    #[verifier::type_invariant]
    spec fn well_formed(self) -> bool {
        self@.inv()
    }

    pub closed spec fn view(self) -> AuctionView {
        AuctionView {
            registry: self.registry,
            asset_id: self.asset_id@,
            seller: self.seller,
            end_at: self.end_at@,
            started: self.started,
            ended: self.ended,
            highest_bidder: self.highest_bidder,
            highest_bid: self.highest_bid@,
            refunds: self.refunds@,
        }
    }

    /// Sets up the auction of the asset `asset_id` of `registry` on behalf of `seller`.
    pub fn new(registry: Address, asset_id: Uint256, seller: Address) -> (r: EnglishAuction)
        ensures
            r@ == AuctionView::created(registry, asset_id@, seller),
            r@.inv(),
    {
        EnglishAuction {
            registry,
            asset_id,
            seller,
            end_at: Uint256::zero(),
            started: false,
            ended: false,
            highest_bidder: Address::zero(),
            highest_bid: Uint256::zero(),
            refunds: RefundLedger::new(),
        }
    }

    /// Whether `start` by `caller` can go ahead, before the registry is asked for the asset.
    ///
    /// The host asks the registry to move the asset from the caller into the auction's
    /// custody only after this has returned `Ok`, and then reports the outcome to `start`.
    pub fn may_start(&self, caller: Address) -> (r: Result<(), EnglishAuctionError>)
        ensures
            match r {
                Ok(_) => self@.start_refusal(caller, true) is None,
                Err(e) => self@.start_refusal(caller, true) == Some(e),
            },
    {
        if self.started {
            return Err(EnglishAuctionError::AlreadyStarted);
        }
        if self.seller != caller {
            return Err(EnglishAuctionError::NotSeller);
        }
        Ok(())
    }

    /// Opens the auction for bids, for one week from `now`.
    ///
    /// `asset_received` says whether the registry moved the asset from the caller into the
    /// auction's custody. If it did not, the auction does not start.
    pub fn start(&mut self, caller: Address, now: u64, asset_received: bool) -> (r: Result<
        Notification,
        EnglishAuctionError,
    >)
        ensures
            final(self)@ == old(self)@.start(caller, now, asset_received),
            final(self)@.inv(),
            match r {
                Ok(n) => old(self)@.start_refusal(caller, asset_received) is None && n@
                    == NotificationView::Start,
                Err(e) => old(self)@.start_refusal(caller, asset_received) == Some(e),
            },
    {
        proof {
            use_type_invariant(&*self);
        }
        if self.started {
            return Err(EnglishAuctionError::AlreadyStarted);
        }
        if self.seller != caller {
            return Err(EnglishAuctionError::NotSeller);
        }
        if !asset_received {
            return Err(EnglishAuctionError::NotSeller);
        }
        self.started = true;
        self.end_at = wrapping_add(Uint256::from_u64(now), Uint256::from_u64(EnglishAuction::BIDDING_WINDOW));
        Ok(Notification::Start)
    }

    /// Places a bid of `amount` for `caller`.
    ///
    /// The bid is taken if the auction is open, the window has not elapsed and `amount`
    /// exceeds the highest bid. The bidder who led until now may then withdraw the bid
    /// that stood.
    pub fn bid(&mut self, caller: Address, now: u64, amount: Uint256) -> (r: Result<
        Notification,
        EnglishAuctionError,
    >)
        ensures
            final(self)@ == old(self)@.bid(caller, now, amount@),
            final(self)@.inv(),
            match r {
                Ok(n) => old(self)@.bid_refusal(now, amount@) is None && n@
                    == NotificationView::Bid { bidder: caller, amount: amount@ },
                Err(e) => old(self)@.bid_refusal(now, amount@) == Some(e),
            },
            r is Ok ==> final(self)@.highest_bid > old(self)@.highest_bid,
    {
        proof {
            use_type_invariant(&*self);
        }
        if !self.started {
            return Err(EnglishAuctionError::NotStarted);
        }
        if self.ended || !less_than(Uint256::from_u64(now), self.end_at) {
            return Err(EnglishAuctionError::AuctionEnded);
        }
        if !less_than(self.highest_bid, amount) {
            return Err(EnglishAuctionError::BidTooLow);
        }
        if !self.highest_bidder.is_zero() {
            self.credit(self.highest_bidder, self.highest_bid);
        }
        self.highest_bidder = caller;
        self.highest_bid = amount;
        Ok(Notification::Bid { bidder: caller, amount })
    }

    /// Pays out what `caller` is owed. The amount may be zero.
    ///
    /// The caller is owed nothing from here on, before the host sends the payout. If the
    /// payment fails, the host calls `restore_refund` with the payout.
    pub fn withdraw(&mut self, caller: Address) -> (r: Withdrawal)
        ensures
            final(self)@ == old(self)@.withdraw(caller),
            final(self)@.inv(),
            r@ == old(self)@.withdrawal(caller),
    {
        proof {
            use_type_invariant(&*self);
        }
        let mut refunds = RefundLedger::new();
        std::mem::swap(&mut self.refunds, &mut refunds);
        let amount = refunds.take(caller);
        self.refunds = refunds;
        Withdrawal {
            payout: Payout { to: caller, amount },
            notification: Notification::Withdraw { bidder: caller, amount },
        }
    }

    /// Puts back what a withdrawal took, after the payment to `bidder` failed.
    pub fn restore_refund(&mut self, bidder: Address, amount: Uint256)
        ensures
            final(self)@ == old(self)@.restore_refund(bidder, amount@),
            final(self)@.inv(),
    {
        self.credit(bidder, amount);
        proof {
            use_type_invariant(&*self);
        }
    }

    /// Takes back an `end` whose transfers were refused: the auction has not ended.
    pub fn reopen(&mut self)
        ensures
            final(self)@ == old(self)@.reopen(),
            final(self)@.inv(),
    {
        proof {
            use_type_invariant(&*self);
        }
        self.ended = false;
    }

    /// Puts an auction together from its parts, as a host that keeps them elsewhere does.
    /// There is no auction, and so no result, where the parts say that it ended without
    /// having started, or that it holds a bid without having started.
    pub fn from_parts(
        registry: Address,
        asset_id: Uint256,
        seller: Address,
        end_at: Uint256,
        started: bool,
        ended: bool,
        highest_bidder: Address,
        highest_bid: Uint256,
        refunds: RefundLedger,
    ) -> (r: Option<EnglishAuction>)
        ensures
            ({
                let parts = AuctionView {
                    registry,
                    asset_id: asset_id@,
                    seller,
                    end_at: end_at@,
                    started,
                    ended,
                    highest_bidder,
                    highest_bid: highest_bid@,
                    refunds: refunds@,
                };
                match r {
                    Some(auction) => parts.inv() && auction@ == parts,
                    None => !parts.inv(),
                }
            }),
    {
        if ended && !started {
            return None;
        }
        if !started && (!highest_bidder.is_zero() || less_than(Uint256::zero(), highest_bid)) {
            return None;
        }
        Some(
            EnglishAuction {
                registry,
                asset_id,
                seller,
                end_at,
                started,
                ended,
                highest_bidder,
                highest_bid,
                refunds,
            },
        )
    }

    /// The registry that keeps the asset.
    pub fn registry(&self) -> (r: Address)
        ensures
            r == self@.registry,
    {
        self.registry
    }

    /// The asset's number in the registry.
    pub fn asset_id(&self) -> (r: Uint256)
        ensures
            r@ == self@.asset_id,
    {
        self.asset_id
    }

    /// Who sells the asset.
    pub fn seller(&self) -> (r: Address)
        ensures
            r == self@.seller,
    {
        self.seller
    }

    /// When the bidding window closes. It means nothing before the start.
    pub fn end_at(&self) -> (r: Uint256)
        ensures
            r@ == self@.end_at,
    {
        self.end_at
    }

    /// Whether the auction has started.
    pub fn started(&self) -> (r: bool)
        ensures
            r == self@.started,
    {
        self.started
    }

    /// Whether the auction has ended. An auction that has ended has started.
    pub fn ended(&self) -> (r: bool)
        ensures
            r == self@.ended,
            r ==> self@.started,
    {
        proof {
            use_type_invariant(self);
        }
        self.ended
    }

    /// Where the auction stands in its life.
    pub fn phase(&self) -> (r: Phase)
        ensures
            r == self@.phase(),
            self@.inv(),
    {
        proof {
            use_type_invariant(self);
        }
        if self.ended {
            Phase::Ended
        } else if self.started {
            Phase::Started
        } else {
            Phase::Created
        }
    }

    /// Who placed the highest bid: the zero address while nobody has bid.
    pub fn highest_bidder(&self) -> (r: Address)
        ensures
            r == self@.highest_bidder,
    {
        self.highest_bidder
    }

    /// The highest bid: zero while nobody has bid.
    pub fn highest_bid(&self) -> (r: Uint256)
        ensures
            r@ == self@.highest_bid,
    {
        self.highest_bid
    }

    /// What `who` may withdraw. The ledger has an answer for every address.
    pub fn refund_of(&self, who: Address) -> (r: Uint256)
        ensures
            self@.refunds.contains_key(who),
            r@ == self@.refunds[who],
    {
        proof {
            self.refunds.lemma_total();
        }
        self.refunds.balance_of(who)
    }

    fn credit(&mut self, who: Address, amount: Uint256)
        ensures
            final(self)@ == (AuctionView { refunds: old(self)@.credited(who, amount@), ..old(self)@ }),
    {
        proof {
            use_type_invariant(&*self);
        }
        let mut refunds = RefundLedger::new();
        std::mem::swap(&mut self.refunds, &mut refunds);
        refunds.credit(who, amount);
        self.refunds = refunds;
    }

    /// Closes the auction once the bidding window has elapsed, and says who gets what: the
    /// asset goes to the highest bidder and the highest bid to the seller, or, if nobody
    /// bid, the asset goes back to the seller and no currency moves.
    ///
    /// The auction counts as ended before the host transfers anything. If a transfer is
    /// refused, the host calls `reopen`, and the auction stands as before.
    pub fn end(&mut self, now: u64) -> (r: Result<Settlement, EnglishAuctionError>)
        ensures
            final(self)@ == old(self)@.end(now),
            final(self)@.inv(),
            match r {
                Ok(s) => old(self)@.end_refusal(now) is None && s@ == old(self)@.settlement(),
                Err(e) => old(self)@.end_refusal(now) == Some(e),
            },
    {
        proof {
            use_type_invariant(&*self);
        }
        if !self.started {
            return Err(EnglishAuctionError::NotStarted);
        }
        if less_than(Uint256::from_u64(now), self.end_at) {
            return Err(EnglishAuctionError::NotEnded);
        }
        if self.ended {
            return Err(EnglishAuctionError::AuctionEnded);
        }
        self.ended = true;
        let notification = Notification::End { winner: self.highest_bidder, amount: self.highest_bid };
        if !self.highest_bidder.is_zero() {
            Ok(
                Settlement {
                    asset_to: self.highest_bidder,
                    payment: Some(Payout { to: self.seller, amount: self.highest_bid }),
                    notification,
                },
            )
        } else {
            Ok(Settlement { asset_to: self.seller, payment: None, notification })
        }
    }
}

} // verus!
