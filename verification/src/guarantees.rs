//! What the auction guarantees: statements about every record, every bid
//! and every claim, proved from what the operations promise.

use vstd::prelude::*;
use crate::auction::{
    claim_nft_post, place_bid_post, start_auction_post, AuctionState, ClaimAction, ClaimEvent,
    ClaimNft, PlaceBid, StartAuction,
};
use crate::error::AuctionError;
use crate::pubkey::Pubkey;
use crate::token::{mint_tokens_post, MintTo, MintTokens};

verus! {

/// One bid as a mathematical value: when it was placed, by whom, and for how
/// much.
pub struct Bid {
    pub now: int,
    pub bidder: Seq<u8>,
    pub amount: nat,
}

impl AuctionState {
    /// The record after the bids of `bids` have been placed in their order,
    /// each accepted or rejected on its own.
    pub open spec fn after_bids(self, bids: Seq<Bid>) -> AuctionState
        decreases bids.len(),
    {
        if bids.len() == 0 {
            self
        } else {
            let last = bids.last();
            self.after_bids(bids.drop_last()).after_bid(last.now, last.bidder, last.amount)
        }
    }

    /// Whether the bid at position `k` of `bids` is accepted when the bids
    /// are placed in their order.
    pub open spec fn accepts(self, bids: Seq<Bid>, k: int) -> bool {
        self.after_bids(bids.take(k)).bid_rejection(bids[k].now, bids[k].amount) is None
    }
}

/// Bids change the leader and the leading bid, and nothing else: the mint,
/// the deadline and the settled flag of a record stay what they were,
/// whatever is bid.
pub proof fn lemma_bids_keep_terms(record: AuctionState, bids: Seq<Bid>)
    ensures
        record.after_bids(bids).token_mint == record.token_mint,
        record.after_bids(bids).end_time == record.end_time,
        record.after_bids(bids).claimed == record.claimed,
    decreases bids.len(),
{
    if bids.len() > 0 {
        lemma_bids_keep_terms(record, bids.drop_last());
    }
}

/// Along every sequence of bids the leading bid never falls: after the first
/// `j` bids it is at least what it was after the first `i`, for `i <= j`.
pub proof fn lemma_leading_bid_never_falls(record: AuctionState, bids: Seq<Bid>, i: int, j: int)
    requires
        0 <= i <= j <= bids.len(),
    ensures
        record.after_bids(bids.take(i)).highest_bid <= record.after_bids(bids.take(j)).highest_bid,
    decreases j - i,
{
    if i < j {
        lemma_leading_bid_never_falls(record, bids, i, j - 1);
        assert(bids.take(j).drop_last() =~= bids.take(j - 1));
    }
}

/// After every sequence of bids the leader is the one who placed the leading
/// bid: either no bid was accepted and leader and leading bid are what they
/// were, or one of the bids was accepted, offered exactly the leading bid,
/// and came from the leader.
pub proof fn lemma_leader_placed_leading_bid(record: AuctionState, bids: Seq<Bid>)
    ensures
        ({
            let last = record.after_bids(bids);
            ||| last.highest_bid == record.highest_bid && last.highest_bidder == record.highest_bidder
            ||| exists|k: int|
                0 <= k < bids.len() && #[trigger] record.accepts(bids, k) && bids[k].amount
                    == last.highest_bid && bids[k].bidder == last.highest_bidder
        }),
    decreases bids.len(),
{
    if bids.len() > 0 {
        let earlier = bids.drop_last();
        let n = bids.len() - 1;
        lemma_leader_placed_leading_bid(record, earlier);
        assert(bids.take(n) =~= earlier);
        if record.accepts(bids, n) {
            assert(bids[n].amount == record.after_bids(bids).highest_bid);
        } else {
            let before = record.after_bids(earlier);
            if !(before.highest_bid == record.highest_bid && before.highest_bidder
                == record.highest_bidder) {
                let k = choose|k: int|
                    0 <= k < earlier.len() && #[trigger] record.accepts(earlier, k) && earlier[k].amount
                        == before.highest_bid && earlier[k].bidder == before.highest_bidder;
                assert(earlier.take(k) =~= bids.take(k));
                assert(record.accepts(bids, k));
            }
        }
    }
}

/// An accepted bid raises the leading bid strictly and makes its sender the
/// leader.
pub proof fn lemma_accepted_bid_leads(
    before: PlaceBid,
    bid_amount: u64,
    now: int,
    after: PlaceBid,
    outcome: Result<(), AuctionError>,
)
    requires
        place_bid_post(before, bid_amount, now, after, outcome),
        outcome is Ok,
    ensures
        after.auction.highest_bid == bid_amount,
        after.auction.highest_bid > before.auction.highest_bid,
        after.auction.highest_bidder@ == before.bidder@,
        after.auction.token_mint@ == before.auction.token_mint@,
        after.auction.end_time == before.auction.end_time,
        after.auction.claimed == before.auction.claimed,
        now < before.auction.end_time,
{
}

/// A bid that does not exceed the leading bid is rejected and leaves the
/// record as it is; before the deadline the rejection is `BidTooLow`.
pub proof fn lemma_low_bid_rejected(
    before: PlaceBid,
    bid_amount: u64,
    now: int,
    after: PlaceBid,
    outcome: Result<(), AuctionError>,
)
    requires
        place_bid_post(before, bid_amount, now, after, outcome),
        bid_amount <= before.auction.highest_bid,
    ensures
        after == before,
        outcome is Err,
        now < before.auction.end_time ==> outcome == Err::<(), AuctionError>(AuctionError::BidTooLow),
{
}

/// A bid at or after the deadline is rejected with `AuctionEnded`, whatever
/// its amount, and leaves the record as it is.
pub proof fn lemma_late_bid_rejected(
    before: PlaceBid,
    bid_amount: u64,
    now: int,
    after: PlaceBid,
    outcome: Result<(), AuctionError>,
)
    requires
        place_bid_post(before, bid_amount, now, after, outcome),
        now >= before.auction.end_time,
    ensures
        after == before,
        outcome == Err::<(), AuctionError>(AuctionError::AuctionEnded),
{
}

/// Before the deadline every step of a settlement is rejected with
/// `AuctionNotEnded`: the record stays unsettled, and the host is asked
/// neither to pay nor to mint.
pub proof fn lemma_early_claim_rejected(
    before: ClaimNft,
    event: ClaimEvent,
    now: int,
    authority: Option<(Seq<u8>, u8)>,
    after: ClaimNft,
    outcome: Result<ClaimAction, AuctionError>,
)
    requires
        claim_nft_post(before, event, now, authority, after, outcome),
        now < before.auction.end_time,
    ensures
        after == before,
        outcome matches Err(e) && e == AuctionError::AuctionNotEnded,
{
}

/// Once the deadline has passed, every step of a settlement claimed by
/// anyone but the highest bidder is rejected with `NotHighestBidder` and
/// changes nothing.
pub proof fn lemma_stranger_claim_rejected(
    before: ClaimNft,
    event: ClaimEvent,
    now: int,
    authority: Option<(Seq<u8>, u8)>,
    after: ClaimNft,
    outcome: Result<ClaimAction, AuctionError>,
)
    requires
        claim_nft_post(before, event, now, authority, after, outcome),
        now >= before.auction.end_time,
        before.claimant@ != before.auction.highest_bidder@,
    ensures
        after == before,
        outcome matches Err(e) && e == AuctionError::NotHighestBidder,
{
}

/// A record is marked settled by one step only: the report of a minted token,
/// accepted after the deadline from the highest bidder on a record not yet
/// settled and with the mint's authority proved. Every other step leaves the
/// record as it is, and no step changes anything but the settled flag.
pub proof fn lemma_settled_only_by_settlement(
    before: ClaimNft,
    event: ClaimEvent,
    now: int,
    authority: Option<(Seq<u8>, u8)>,
    after: ClaimNft,
    outcome: Result<ClaimAction, AuctionError>,
)
    requires
        claim_nft_post(before, event, now, authority, after, outcome),
    ensures
        after.auction.token_mint == before.auction.token_mint,
        after.auction.highest_bid == before.auction.highest_bid,
        after.auction.highest_bidder == before.auction.highest_bidder,
        after.auction.end_time == before.auction.end_time,
        before.auction.claimed ==> after.auction.claimed,
        after.auction.claimed && !before.auction.claimed ==> {
            &&& event == ClaimEvent::MintSettled
            &&& outcome matches Ok(ClaimAction::Done)
            &&& now >= before.auction.end_time
            &&& before.claimant@ == before.auction.highest_bidder@
        },
        outcome matches Ok(ClaimAction::Done) ==> after.auction.claimed && !before.auction.claimed,
{
    Pubkey::lemma_view_injective(after.auction.token_mint, before.auction.token_mint);
    Pubkey::lemma_view_injective(after.auction.highest_bidder, before.auction.highest_bidder);
}

/// After a settlement has succeeded, every further step that the highest
/// bidder takes on the record, at that time or later, is rejected with
/// `AlreadyClaimed`: the host is asked neither to pay nor to mint again.
pub proof fn lemma_second_claim_rejected(
    first: ClaimNft,
    first_now: int,
    first_authority: Option<(Seq<u8>, u8)>,
    settled: ClaimNft,
    first_outcome: Result<ClaimAction, AuctionError>,
    second: ClaimNft,
    event: ClaimEvent,
    second_now: int,
    second_authority: Option<(Seq<u8>, u8)>,
    after: ClaimNft,
    second_outcome: Result<ClaimAction, AuctionError>,
)
    requires
        claim_nft_post(first, ClaimEvent::MintSettled, first_now, first_authority, settled, first_outcome),
        first_outcome is Ok,
        second.auction == settled.auction,
        second.claimant@ == second.auction.highest_bidder@,
        second_now >= first_now,
        claim_nft_post(second, event, second_now, second_authority, after, second_outcome),
    ensures
        settled.auction.claimed,
        after == second,
        second_outcome matches Err(e) && e == AuctionError::AlreadyClaimed,
{
}

/// Starting an auction never touches a record that exists: a start on a mint
/// that has a record is rejected, and the record keeps its deadline, its
/// leader and its leading bid.
pub proof fn lemma_restart_rejected(
    before: StartAuction,
    duration: i64,
    now: int,
    record: Option<(Seq<u8>, u8)>,
    after: StartAuction,
    outcome: Result<(), AuctionError>,
)
    requires
        start_auction_post(before, duration, now, record, after, outcome),
        before.auction is Some,
    ensures
        after == before,
        outcome is Err,
{
}

/// A record that was started is never taken for no record, as long as the
/// clock is past zero: its deadline lies after the start.
pub proof fn lemma_started_record_exists(token_mint: Seq<u8>, now: int, duration: int)
    requires
        now >= 0,
        duration > 0,
    ensures
        AuctionState::started(token_mint, now, duration) != AuctionState::vacant(),
        AuctionState::started(token_mint, now, duration).end_time > now,
{
}

/// With the mint's authority proved, every quantity is minted as asked, zero
/// too: the request is for exactly that quantity, so that one of zero asks
/// the token service to add nothing.
pub proof fn lemma_every_quantity_is_minted(
    ctx: MintTokens,
    quantity: u64,
    authority: Option<(Seq<u8>, u8)>,
    outcome: Result<MintTo, AuctionError>,
)
    requires
        mint_tokens_post(ctx, quantity, authority, outcome),
        authority == Some((ctx.mint@, ctx.bumps.mint)),
    ensures
        outcome matches Ok(request) && request.amount == quantity && request.to@ == ctx.destination@,
{
}

} // verus!
