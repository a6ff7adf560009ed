//! The auction: one record per mint, started once, raised by bids until its
//! deadline, and settled once by the highest bidder after it.
//!
//! Bids are promises: nothing is paid when a bid is placed. Payment is taken
//! at settlement, so a winner who cannot pay leaves the auction unsettled,
//! and nobody else can settle it.

use vstd::prelude::*;
use crate::authority::{
    auction_seeds, authority_seeds, derivation_view, derive_auction_address, derive_authority,
    is_proved, program_address, proves, ProgramAddress,
};
use crate::clock::unix_timestamp;
use crate::error::AuctionError;
use crate::pubkey::{empty_key, Pubkey};
use crate::system::{system_transfer, Instruction};
use crate::token::{mint_request, MintTo};

verus! {

/// The stored record of an auction.
#[derive(Clone, Copy, Debug, PartialEq, Eq)]
pub struct Auction {
    /// The mint whose token is sold. Set at the start, never changed.
    pub token_mint: Pubkey,
    /// The leading bid, in the smallest unit of the currency.
    pub highest_bid: u64,
    /// Who placed the leading bid; the empty identifier until there is one.
    pub highest_bidder: Pubkey,
    /// The deadline, in seconds. Set at the start, never changed.
    pub end_time: i64,
    /// Whether the auction has been settled.
    pub claimed: bool,
}

/// An auction record as a mathematical value.
pub struct AuctionState {
    pub token_mint: Seq<u8>,
    pub highest_bid: nat,
    pub highest_bidder: Seq<u8>,
    pub end_time: int,
    pub claimed: bool,
}

impl View for Auction {
    type V = AuctionState;

    open spec fn view(&self) -> AuctionState {
        AuctionState {
            token_mint: self.token_mint@,
            highest_bid: self.highest_bid as nat,
            highest_bidder: self.highest_bidder@,
            end_time: self.end_time as int,
            claimed: self.claimed,
        }
    }
}

impl AuctionState {
    /// The record that storage holds where no auction was ever started: all
    /// zero.
    pub open spec fn vacant() -> AuctionState {
        AuctionState {
            token_mint: empty_key(),
            highest_bid: 0,
            highest_bidder: empty_key(),
            end_time: 0,
            claimed: false,
        }
    }

    /// The record of an auction of `token_mint` started at `now` for
    /// `duration` seconds: no bid, no bidder, not settled.
    pub open spec fn started(token_mint: Seq<u8>, now: int, duration: int) -> AuctionState {
        AuctionState {
            token_mint,
            highest_bid: 0,
            highest_bidder: empty_key(),
            end_time: now + duration,
            claimed: false,
        }
    }

    /// Why a bid of `amount` at `now` is rejected, if it is: the deadline is
    /// checked first, then the amount, which must exceed the leading bid.
    pub open spec fn bid_rejection(self, now: int, amount: nat) -> Option<AuctionError> {
        if now >= self.end_time {
            Some(AuctionError::AuctionEnded)
        } else if amount <= self.highest_bid {
            Some(AuctionError::BidTooLow)
        } else {
            None
        }
    }

    /// The record with `bidder` leading at `amount`.
    pub open spec fn with_bid(self, bidder: Seq<u8>, amount: nat) -> AuctionState {
        AuctionState { highest_bid: amount, highest_bidder: bidder, ..self }
    }

    /// The record after `bidder` has offered `amount` at `now`: raised where
    /// the bid is accepted, as it was where it is rejected.
    pub open spec fn after_bid(self, now: int, bidder: Seq<u8>, amount: nat) -> AuctionState {
        if self.bid_rejection(now, amount) is None {
            self.with_bid(bidder, amount)
        } else {
            self
        }
    }

    /// Why a claim by `claimant` at `now` is rejected, if it is. The deadline
    /// is checked first, then the claimant, then whether the auction has been
    /// settled before.
    pub open spec fn claim_rejection(self, now: int, claimant: Seq<u8>) -> Option<AuctionError> {
        if now < self.end_time {
            Some(AuctionError::AuctionNotEnded)
        } else if claimant != self.highest_bidder {
            Some(AuctionError::NotHighestBidder)
        } else if self.claimed {
            Some(AuctionError::AlreadyClaimed)
        } else {
            None
        }
    }

    /// The record once settled.
    pub open spec fn settled(self) -> AuctionState {
        AuctionState { claimed: true, ..self }
    }
}

impl Auction {
    /// The record that storage holds where no auction was ever started.
    pub fn vacant() -> (record: Auction)
        ensures
            record@ == AuctionState::vacant(),
    {
        Auction {
            token_mint: Pubkey::default(),
            highest_bid: 0,
            highest_bidder: Pubkey::default(),
            end_time: 0,
            claimed: false,
        }
    }

    /// Reads what storage holds at the address of a record: a record of
    /// zeroes is no record.
    pub fn existing(self) -> (record: Option<Auction>)
        ensures
            record == if self@ == AuctionState::vacant() { None } else { Some(self) },
    {
        let empty = Pubkey::default();
        if self.token_mint == empty && self.highest_bid == 0 && self.highest_bidder == empty
            && self.end_time == 0 && !self.claimed {
            None
        } else {
            Some(self)
        }
    }
}

/// The bumps that came with the accounts of [`StartAuction`].
#[derive(Clone, Copy, Debug, PartialEq, Eq)]
pub struct StartAuctionBumps {
    pub auction: u8,
}

/// The accounts with which an auction is started.
#[derive(Clone, Copy, Debug, PartialEq, Eq)]
pub struct StartAuction {
    /// The program on whose behalf the record's address is derived.
    pub program_id: Pubkey,
    /// The address at which the record is kept.
    pub auction_key: Pubkey,
    /// The record, or `None` while the mint has none.
    pub auction: Option<Auction>,
    pub mint: Pubkey,
    pub payer: Pubkey,
    pub bumps: StartAuctionBumps,
}

/// The accounts with which a bid is placed.
#[derive(Clone, Copy, Debug, PartialEq, Eq)]
pub struct PlaceBid {
    pub auction: Auction,
    pub bidder: Pubkey,
}

/// Why starting an auction is rejected, if it is, when the clock reads `now`
/// and the derivation of the record's address yielded `record`. The address
/// is checked first, then that the mint has no record yet, then the duration.
pub open spec fn start_rejection(
    ctx: StartAuction,
    duration: i64,
    now: int,
    record: Option<(Seq<u8>, u8)>,
) -> Option<AuctionError> {
    if !proves(record, ctx.auction_key@, ctx.bumps.auction) {
        Some(AuctionError::AuthorizationFailure)
    } else if ctx.auction is Some {
        Some(AuctionError::AlreadyStarted)
    } else if duration <= 0 || now + duration > i64::MAX {
        Some(AuctionError::InvalidDuration)
    } else {
        None
    }
}

/// How [`start_auction_at`] leaves the accounts, and what it returns.
pub open spec fn start_auction_post(
    before: StartAuction,
    duration: i64,
    now: int,
    record: Option<(Seq<u8>, u8)>,
    after: StartAuction,
    outcome: Result<(), AuctionError>,
) -> bool {
    match start_rejection(before, duration, now, record) {
        Some(e) => outcome == Err::<(), AuctionError>(e) && after == before,
        None => {
            &&& outcome is Ok
            &&& after == (StartAuction { auction: after.auction, ..before })
            &&& after.auction matches Some(created)
            &&& created@ == AuctionState::started(before.mint@, now, duration as int)
        },
    }
}

/// Starts the auction of `ctx.mint` at `now` for `duration` seconds, given
/// what the derivation of the record's address yielded. A mint has one
/// auction: a second start is rejected and leaves the record as it is.
pub fn start_auction_at(ctx: &mut StartAuction, duration: i64, now: i64, record: &Option<ProgramAddress>) -> (outcome: Result<(), AuctionError>)
    ensures
        start_auction_post(*old(ctx), duration, now as int, derivation_view(*record), *final(ctx), outcome),
{
    if !is_proved(record, &ctx.auction_key, ctx.bumps.auction) {
        return Err(AuctionError::AuthorizationFailure);
    }
    if ctx.auction.is_some() {
        return Err(AuctionError::AlreadyStarted);
    }
    if duration <= 0 || now > i64::MAX - duration {
        return Err(AuctionError::InvalidDuration);
    }
    ctx.auction = Some(Auction {
        token_mint: ctx.mint,
        highest_bid: 0,
        highest_bidder: Pubkey::default(),
        end_time: now + duration,
        claimed: false,
    });
    Ok(())
}

/// How [`place_bid_at`] leaves the accounts, and what it returns.
pub open spec fn place_bid_post(
    before: PlaceBid,
    bid_amount: u64,
    now: int,
    after: PlaceBid,
    outcome: Result<(), AuctionError>,
) -> bool {
    match before.auction@.bid_rejection(now, bid_amount as nat) {
        Some(e) => outcome == Err::<(), AuctionError>(e) && after == before,
        None => {
            &&& outcome is Ok
            &&& after == (PlaceBid { auction: after.auction, ..before })
            &&& after.auction@ == before.auction@.with_bid(before.bidder@, bid_amount as nat)
        },
    }
}

/// Places a bid of `bid_amount` by `ctx.bidder` at `now`. A bid at or after
/// the deadline is rejected with `AuctionEnded`, whatever its amount; one
/// that does not exceed the leading bid, with `BidTooLow`. A rejected bid
/// leaves the record as it is. An accepted one makes the bidder the leader
/// at that amount and changes nothing else.
pub fn place_bid_at(ctx: &mut PlaceBid, bid_amount: u64, now: i64) -> (outcome: Result<(), AuctionError>)
    ensures
        place_bid_post(*old(ctx), bid_amount, now as int, *final(ctx), outcome),
{
    if now >= ctx.auction.end_time {
        return Err(AuctionError::AuctionEnded);
    }
    if bid_amount > ctx.auction.highest_bid {
        ctx.auction.highest_bid = bid_amount;
        ctx.auction.highest_bidder = ctx.bidder;
    } else {
        return Err(AuctionError::BidTooLow);
    }
    Ok(())
}

/// The bumps that came with the accounts of [`ClaimNft`].
#[derive(Clone, Copy, Debug, PartialEq, Eq)]
pub struct ClaimNftBumps {
    pub mint: u8,
}

/// The accounts with which an auction is settled.
#[derive(Clone, Copy, Debug, PartialEq, Eq)]
pub struct ClaimNft {
    /// The program on whose behalf the mint's address is derived.
    pub program_id: Pubkey,
    pub auction: Auction,
    /// The winner's holding account, which receives the token.
    pub highest_bidder_token_account: Pubkey,
    /// Who claims, and pays.
    pub claimant: Pubkey,
    /// Where the payment goes.
    pub treasury: Pubkey,
    pub mint: Pubkey,
    pub token_program: Pubkey,
    pub bumps: ClaimNftBumps,
}

/// What the host reports to a settlement.
#[derive(Clone, Copy, Debug, PartialEq, Eq, Structural)]
pub enum ClaimEvent {
    /// The claimant asks for the settlement.
    Begin,
    /// The payment that was asked for has been made.
    PaymentSettled,
    /// The payment that was asked for could not be made.
    PaymentFailed,
    /// The token that was asked for has been minted.
    MintSettled,
    /// The host refused to mint the token.
    MintFailed,
}

/// What a settlement asks of the host next.
#[derive(Clone, Debug, PartialEq, Eq)]
pub enum ClaimAction {
    /// Carry this transfer out, then report `PaymentSettled` or `PaymentFailed`.
    Pay(Instruction),
    /// Hand this request to the token service, then report `MintSettled` or
    /// `MintFailed`.
    Mint(MintTo),
    /// Nothing: the auction is settled.
    Done,
}

/// Why a step of the settlement is rejected, if it is, when the clock reads
/// `now` and the derivation of the mint's address yielded `authority`. The
/// three conditions on the record come first and in their order, then the
/// proof of the mint's authority, then what the host reported.
pub open spec fn claim_rejection(
    ctx: ClaimNft,
    event: ClaimEvent,
    now: int,
    authority: Option<(Seq<u8>, u8)>,
) -> Option<AuctionError> {
    match ctx.auction@.claim_rejection(now, ctx.claimant@) {
        Some(e) => Some(e),
        None => {
            if !proves(authority, ctx.mint@, ctx.bumps.mint) {
                Some(AuctionError::AuthorizationFailure)
            } else {
                match event {
                    ClaimEvent::PaymentFailed => Some(AuctionError::PaymentTransferFailed),
                    ClaimEvent::MintFailed => Some(AuctionError::AuthorizationFailure),
                    _ => None,
                }
            }
        },
    }
}

/// How [`claim_nft_at`] leaves the accounts, and what it returns.
///
/// A rejected step changes nothing and asks for nothing. Of the accepted
/// ones, `Begin` asks for the payment of the leading bid from the claimant to
/// the treasury; `PaymentSettled` asks for one unit of the token to be minted
/// to the winner's holding account; `MintSettled` marks the record settled.
/// Only that last step changes the record, and only its `claimed` flag.
pub open spec fn claim_nft_post(
    before: ClaimNft,
    event: ClaimEvent,
    now: int,
    authority: Option<(Seq<u8>, u8)>,
    after: ClaimNft,
    outcome: Result<ClaimAction, AuctionError>,
) -> bool {
    match claim_rejection(before, event, now, authority) {
        Some(e) => (outcome matches Err(raised) && raised == e) && after == before,
        None => match event {
            ClaimEvent::Begin => {
                &&& after == before
                &&& outcome matches Ok(ClaimAction::Pay(payment))
                &&& payment.is_transfer(before.claimant@, before.treasury@, before.auction.highest_bid)
            },
            ClaimEvent::PaymentSettled => {
                &&& after == before
                &&& outcome matches Ok(ClaimAction::Mint(request))
                &&& request.mints(
                    before.token_program@,
                    before.mint@,
                    before.highest_bidder_token_account@,
                    1,
                    before.bumps.mint,
                )
            },
            ClaimEvent::MintSettled => {
                &&& outcome matches Ok(ClaimAction::Done)
                &&& after == (ClaimNft { auction: after.auction, ..before })
                &&& after.auction@ == before.auction@.settled()
            },
            _ => false,
        },
    }
}

/// Takes one step of the settlement of `ctx.auction`, at `now` and given what
/// the derivation of the mint's address yielded.
///
/// The host begins with `Begin`, carries out what each step asks for, and
/// reports back, until a step is rejected or answers `Done`. Payment comes
/// first: the request to mint is handed out only for a payment that was
/// made, and the record is marked settled only for a token that was minted.
pub fn claim_nft_at(ctx: &mut ClaimNft, event: ClaimEvent, now: i64, authority: &Option<ProgramAddress>) -> (outcome: Result<ClaimAction, AuctionError>)
    ensures
        claim_nft_post(*old(ctx), event, now as int, derivation_view(*authority), *final(ctx), outcome),
{
    if now < ctx.auction.end_time {
        return Err(AuctionError::AuctionNotEnded);
    }
    if ctx.claimant != ctx.auction.highest_bidder {
        return Err(AuctionError::NotHighestBidder);
    }
    if ctx.auction.claimed {
        return Err(AuctionError::AlreadyClaimed);
    }
    if !is_proved(authority, &ctx.mint, ctx.bumps.mint) {
        return Err(AuctionError::AuthorizationFailure);
    }
    match event {
        ClaimEvent::Begin => {
            Ok(ClaimAction::Pay(system_transfer(&ctx.claimant, &ctx.treasury, ctx.auction.highest_bid)))
        },
        ClaimEvent::PaymentSettled => {
            Ok(ClaimAction::Mint(mint_request(
                &ctx.token_program,
                &ctx.mint,
                &ctx.highest_bidder_token_account,
                1,
                ctx.bumps.mint,
            )))
        },
        ClaimEvent::PaymentFailed => Err(AuctionError::PaymentTransferFailed),
        ClaimEvent::MintSettled => {
            ctx.auction.claimed = true;
            Ok(ClaimAction::Done)
        },
        ClaimEvent::MintFailed => Err(AuctionError::AuthorizationFailure),
    }
}

/// Starts the auction of `ctx.mint` for `duration` seconds from the host's
/// time. Where the host gives no time, nothing changes and the outcome is
/// `ClockUnavailable`; else the outcome is that of [`start_auction_at`] at
/// the time that the host gave.
pub fn start_auction(ctx: &mut StartAuction, duration: i64) -> (outcome: Result<(), AuctionError>)
    ensures
        ({
            ||| outcome == Err::<(), AuctionError>(AuctionError::ClockUnavailable) && *final(ctx) == *old(ctx)
            ||| exists|now: i64| #[trigger] start_auction_post(
                *old(ctx),
                duration,
                now as int,
                program_address(auction_seeds(old(ctx).mint@), old(ctx).program_id@),
                *final(ctx),
                outcome,
            )
        }),
{
    match unix_timestamp() {
        Ok(now) => {
            let record = derive_auction_address(&ctx.program_id, &ctx.mint);
            start_auction_at(ctx, duration, now, &record)
        },
        Err(e) => Err(e),
    }
}

/// Places a bid of `bid_amount` by `ctx.bidder` at the host's time. Where the
/// host gives no time, nothing changes and the outcome is `ClockUnavailable`;
/// else the outcome is that of [`place_bid_at`] at the time that the host
/// gave.
pub fn place_bid(ctx: &mut PlaceBid, bid_amount: u64) -> (outcome: Result<(), AuctionError>)
    ensures
        ({
            ||| outcome == Err::<(), AuctionError>(AuctionError::ClockUnavailable) && *final(ctx) == *old(ctx)
            ||| exists|now: i64| #[trigger] place_bid_post(*old(ctx), bid_amount, now as int, *final(ctx), outcome)
        }),
{
    match unix_timestamp() {
        Ok(now) => place_bid_at(ctx, bid_amount, now),
        Err(e) => Err(e),
    }
}

/// Takes one step of the settlement of `ctx.auction` at the host's time.
/// Where the host gives no time, nothing changes and the outcome is
/// `ClockUnavailable`; else the outcome is that of [`claim_nft_at`] at the
/// time that the host gave.
pub fn claim_nft(ctx: &mut ClaimNft, event: ClaimEvent) -> (outcome: Result<ClaimAction, AuctionError>)
    ensures
        ({
            ||| (outcome matches Err(e) && e == AuctionError::ClockUnavailable) && *final(ctx) == *old(ctx)
            ||| exists|now: i64| #[trigger] claim_nft_post(
                *old(ctx),
                event,
                now as int,
                program_address(authority_seeds(), old(ctx).program_id@),
                *final(ctx),
                outcome,
            )
        }),
{
    match unix_timestamp() {
        Ok(now) => {
            let authority = derive_authority(&ctx.program_id);
            claim_nft_at(ctx, event, now, &authority)
        },
        Err(e) => Err(e),
    }
}

} // verus!
