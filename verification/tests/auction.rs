use token_minter::auction::{
    place_bid, place_bid_at, start_auction, start_auction_at, Auction, PlaceBid, StartAuction,
    StartAuctionBumps,
};
use solana_program::program_error::ProgramError;
use token_minter::authority::{derive_auction_address, ProgramAddress};
use token_minter::clock::{reading_of, unix_timestamp};
use token_minter::error::AuctionError;
use token_minter::pubkey::Pubkey;

const RECORD_OF_ONES_UNDER_SEVENS: [u8; 32] = [
    94, 28, 18, 17, 255, 67, 85, 223, 104, 9, 124, 143, 56, 166, 35, 22, 158, 3, 225, 135, 7, 245,
    122, 222, 207, 99, 6, 165, 207, 161, 195, 119,
];

fn key(byte: u8) -> Pubkey {
    Pubkey::new_from_array([byte; 32])
}

fn record_address() -> Option<ProgramAddress> {
    Some(ProgramAddress { address: Pubkey::new_from_array(RECORD_OF_ONES_UNDER_SEVENS), bump: 253 })
}

fn start_accounts() -> StartAuction {
    StartAuction {
        program_id: key(7),
        auction_key: Pubkey::new_from_array(RECORD_OF_ONES_UNDER_SEVENS),
        auction: None,
        mint: key(1),
        payer: key(21),
        bumps: StartAuctionBumps { auction: 253 },
    }
}

fn running(highest_bid: u64, highest_bidder: Pubkey, end_time: i64) -> Auction {
    Auction { token_mint: key(1), highest_bid, highest_bidder, end_time, claimed: false }
}

#[test]
fn start_creates_a_record_without_bids() {
    let mut ctx = start_accounts();
    assert_eq!(start_auction_at(&mut ctx, 100, 1_700_000_000, &record_address()), Ok(()));
    assert_eq!(
        ctx.auction,
        Some(Auction {
            token_mint: key(1),
            highest_bid: 0,
            highest_bidder: Pubkey::default(),
            end_time: 1_700_000_100,
            claimed: false,
        })
    );
    assert_eq!(ctx, StartAuction { auction: ctx.auction, ..start_accounts() });
}

#[test]
fn start_takes_the_derivation_from_the_ledger_library() {
    let mut ctx = start_accounts();
    let record = derive_auction_address(&ctx.program_id, &ctx.mint);
    assert_eq!(record, record_address());
    assert_eq!(start_auction_at(&mut ctx, 1, 0, &record), Ok(()));
    assert_eq!(ctx.auction.unwrap().end_time, 1);
}

#[test]
fn start_rejects_a_second_start() {
    let mut ctx = start_accounts();
    assert_eq!(start_auction_at(&mut ctx, 100, 1_000, &record_address()), Ok(()));
    let started = ctx;
    assert_eq!(
        start_auction_at(&mut ctx, 500, 1_050, &record_address()),
        Err(AuctionError::AlreadyStarted)
    );
    assert_eq!(ctx, started);
    assert_eq!(ctx.auction.unwrap().end_time, 1_100);
}

#[test]
fn start_does_not_reset_a_record_with_bids() {
    let mut ctx = start_accounts();
    ctx.auction = Some(running(60, key(3), 1_100));
    let before = ctx;
    assert_eq!(
        start_auction_at(&mut ctx, 100, 2_000, &record_address()),
        Err(AuctionError::AlreadyStarted)
    );
    assert_eq!(ctx, before);
}

#[test]
fn start_rejects_a_duration_of_zero() {
    let mut ctx = start_accounts();
    assert_eq!(
        start_auction_at(&mut ctx, 0, 1_000, &record_address()),
        Err(AuctionError::InvalidDuration)
    );
    assert_eq!(ctx, start_accounts());
}

#[test]
fn start_rejects_a_negative_duration() {
    let mut ctx = start_accounts();
    assert_eq!(
        start_auction_at(&mut ctx, -1, 1_000, &record_address()),
        Err(AuctionError::InvalidDuration)
    );
    assert_eq!(
        start_auction_at(&mut ctx, i64::MIN, 1_000, &record_address()),
        Err(AuctionError::InvalidDuration)
    );
    assert_eq!(ctx, start_accounts());
}

#[test]
fn start_rejects_a_deadline_past_the_end_of_time() {
    let mut ctx = start_accounts();
    assert_eq!(
        start_auction_at(&mut ctx, 1, i64::MAX, &record_address()),
        Err(AuctionError::InvalidDuration)
    );
    assert_eq!(
        start_auction_at(&mut ctx, i64::MAX, 1, &record_address()),
        Err(AuctionError::InvalidDuration)
    );
    assert_eq!(ctx, start_accounts());
    assert_eq!(start_auction_at(&mut ctx, i64::MAX, 0, &record_address()), Ok(()));
    assert_eq!(ctx.auction.unwrap().end_time, i64::MAX);
}

#[test]
fn start_accepts_a_clock_before_zero() {
    let mut ctx = start_accounts();
    assert_eq!(start_auction_at(&mut ctx, i64::MAX, i64::MIN, &record_address()), Ok(()));
    assert_eq!(ctx.auction.unwrap().end_time, -1);
}

#[test]
fn start_rejects_a_record_at_another_address() {
    let mut ctx = start_accounts();
    ctx.auction_key = key(50);
    assert_eq!(
        start_auction_at(&mut ctx, 100, 1_000, &record_address()),
        Err(AuctionError::AuthorizationFailure)
    );
    assert_eq!(ctx.auction, None);
}

#[test]
fn start_rejects_a_wrong_bump() {
    let mut ctx = start_accounts();
    ctx.bumps.auction = 255;
    assert_eq!(
        start_auction_at(&mut ctx, 100, 1_000, &record_address()),
        Err(AuctionError::AuthorizationFailure)
    );
    assert_eq!(start_auction_at(&mut ctx, 100, 1_000, &None), Err(AuctionError::AuthorizationFailure));
    assert_eq!(ctx.auction, None);
}

#[test]
fn start_checks_the_address_before_the_record() {
    let mut ctx = start_accounts();
    ctx.auction = Some(running(0, Pubkey::default(), 10));
    ctx.auction_key = key(50);
    assert_eq!(
        start_auction_at(&mut ctx, 0, 1_000, &record_address()),
        Err(AuctionError::AuthorizationFailure)
    );
}

#[test]
fn start_checks_the_record_before_the_duration() {
    let mut ctx = start_accounts();
    ctx.auction = Some(running(0, Pubkey::default(), 10));
    assert_eq!(
        start_auction_at(&mut ctx, 0, 1_000, &record_address()),
        Err(AuctionError::AlreadyStarted)
    );
}

#[test]
fn start_without_a_clock_changes_nothing() {
    let mut ctx = start_accounts();
    assert_eq!(start_auction(&mut ctx, 100), Err(AuctionError::ClockUnavailable));
    assert_eq!(ctx, start_accounts());
}

#[test]
fn storage_of_zeroes_holds_no_record() {
    assert_eq!(Auction::vacant().existing(), None);
    assert_eq!(
        Auction::vacant(),
        Auction {
            token_mint: key(0),
            highest_bid: 0,
            highest_bidder: key(0),
            end_time: 0,
            claimed: false,
        }
    );
}

#[test]
fn storage_of_anything_else_holds_a_record() {
    let fresh = running(0, Pubkey::default(), 1_100);
    assert_eq!(fresh.existing(), Some(fresh));
    let mut record = Auction::vacant();
    record.claimed = true;
    assert_eq!(record.existing(), Some(record));
    let mut record = Auction::vacant();
    record.end_time = -1;
    assert_eq!(record.existing(), Some(record));
    let mut record = Auction::vacant();
    record.highest_bid = 1;
    assert_eq!(record.existing(), Some(record));
    let mut record = Auction::vacant();
    record.highest_bidder = key(1);
    assert_eq!(record.existing(), Some(record));
    let mut record = Auction::vacant();
    record.token_mint = key(1);
    assert_eq!(record.existing(), Some(record));
}

#[test]
fn first_bid_leads() {
    let mut ctx = PlaceBid { auction: running(0, Pubkey::default(), 100), bidder: key(2) };
    assert_eq!(place_bid_at(&mut ctx, 50, 10), Ok(()));
    assert_eq!(ctx.auction, running(50, key(2), 100));
    assert_eq!(ctx.bidder, key(2));
}

#[test]
fn higher_bid_takes_the_lead() {
    let mut ctx = PlaceBid { auction: running(50, key(2), 100), bidder: key(3) };
    assert_eq!(place_bid_at(&mut ctx, 51, 10), Ok(()));
    assert_eq!(ctx.auction, running(51, key(3), 100));
}

#[test]
fn leader_may_raise_the_own_bid() {
    let mut ctx = PlaceBid { auction: running(50, key(2), 100), bidder: key(2) };
    assert_eq!(place_bid_at(&mut ctx, u64::MAX, 10), Ok(()));
    assert_eq!(ctx.auction, running(u64::MAX, key(2), 100));
}

#[test]
fn bid_below_the_leading_bid_is_too_low() {
    let record = running(50, key(2), 100);
    let mut ctx = PlaceBid { auction: record, bidder: key(3) };
    assert_eq!(place_bid_at(&mut ctx, 40, 10), Err(AuctionError::BidTooLow));
    assert_eq!(ctx.auction, record);
}

#[test]
fn bid_equal_to_the_leading_bid_is_too_low() {
    let record = running(50, key(2), 100);
    let mut ctx = PlaceBid { auction: record, bidder: key(3) };
    assert_eq!(place_bid_at(&mut ctx, 50, 10), Err(AuctionError::BidTooLow));
    assert_eq!(ctx.auction, record);
}

#[test]
fn bid_of_nothing_on_a_fresh_record_is_too_low() {
    let record = running(0, Pubkey::default(), 100);
    let mut ctx = PlaceBid { auction: record, bidder: key(3) };
    assert_eq!(place_bid_at(&mut ctx, 0, 10), Err(AuctionError::BidTooLow));
    assert_eq!(ctx.auction, record);
}

#[test]
fn bid_at_the_deadline_is_late() {
    let record = running(50, key(2), 100);
    let mut ctx = PlaceBid { auction: record, bidder: key(3) };
    assert_eq!(place_bid_at(&mut ctx, 60, 100), Err(AuctionError::AuctionEnded));
    assert_eq!(ctx.auction, record);
}

#[test]
fn bid_after_the_deadline_is_late() {
    let record = running(50, key(2), 100);
    let mut ctx = PlaceBid { auction: record, bidder: key(3) };
    assert_eq!(place_bid_at(&mut ctx, u64::MAX, 101), Err(AuctionError::AuctionEnded));
    assert_eq!(place_bid_at(&mut ctx, u64::MAX, i64::MAX), Err(AuctionError::AuctionEnded));
    assert_eq!(ctx.auction, record);
}

#[test]
fn bid_one_instant_before_the_deadline_counts() {
    let mut ctx = PlaceBid { auction: running(50, key(2), 100), bidder: key(3) };
    assert_eq!(place_bid_at(&mut ctx, 60, 99), Ok(()));
    assert_eq!(ctx.auction, running(60, key(3), 100));
}

#[test]
fn late_bid_is_late_whatever_its_amount() {
    let record = running(50, key(2), 100);
    let mut ctx = PlaceBid { auction: record, bidder: key(3) };
    for amount in [0u64, 40, 50, 51, u64::MAX] {
        assert_eq!(place_bid_at(&mut ctx, amount, 100), Err(AuctionError::AuctionEnded));
        assert_eq!(ctx.auction, record);
    }
}

#[test]
fn bid_on_a_settled_record_goes_by_the_deadline_alone() {
    let mut record = running(50, key(2), 100);
    record.claimed = true;
    let mut ctx = PlaceBid { auction: record, bidder: key(3) };
    assert_eq!(place_bid_at(&mut ctx, 60, 100), Err(AuctionError::AuctionEnded));
    assert_eq!(ctx.auction, record);
}

#[test]
fn leading_bid_never_falls_along_a_run_of_bids() {
    let mut ctx = PlaceBid { auction: running(0, Pubkey::default(), 1_000), bidder: key(0) };
    let bids: [(u8, u64, i64); 8] = [
        (2, 10, 1),
        (3, 5, 2),
        (4, 10, 3),
        (3, 11, 4),
        (2, 300, 5),
        (5, 299, 6),
        (5, 301, 1_000),
        (6, 302, 999),
    ];
    let mut leading = 0u64;
    let mut leader = Pubkey::default();
    for (who, amount, now) in bids {
        ctx.bidder = key(who);
        let before = ctx.auction;
        let outcome = place_bid_at(&mut ctx, amount, now);
        if outcome.is_ok() {
            assert!(amount > leading);
            leading = amount;
            leader = key(who);
        } else {
            assert_eq!(ctx.auction, before);
        }
        assert!(ctx.auction.highest_bid >= before.highest_bid);
        assert_eq!(ctx.auction.highest_bid, leading);
        assert_eq!(ctx.auction.highest_bidder, leader);
        assert_eq!(ctx.auction.end_time, 1_000);
        assert_eq!(ctx.auction.token_mint, key(1));
        assert!(!ctx.auction.claimed);
    }
    assert_eq!(ctx.auction, running(302, key(6), 1_000));
}

#[test]
fn bid_without_a_clock_changes_nothing() {
    let record = running(50, key(2), 100);
    let mut ctx = PlaceBid { auction: record, bidder: key(3) };
    assert_eq!(place_bid(&mut ctx, 60), Err(AuctionError::ClockUnavailable));
    assert_eq!(ctx.auction, record);
}

#[test]
fn clock_reading_keeps_the_time() {
    assert_eq!(reading_of(Ok(1_700_000_000)), Ok(1_700_000_000));
    assert_eq!(reading_of(Ok(0)), Ok(0));
    assert_eq!(reading_of(Ok(i64::MIN)), Ok(i64::MIN));
    assert_eq!(reading_of(Ok(i64::MAX)), Ok(i64::MAX));
}

#[test]
fn clock_refusal_is_an_unavailable_clock() {
    assert_eq!(
        reading_of(Err(ProgramError::UnsupportedSysvar)),
        Err(AuctionError::ClockUnavailable)
    );
    assert_eq!(reading_of(Err(ProgramError::Custom(7))), Err(AuctionError::ClockUnavailable));
    assert_eq!(
        reading_of(Err(ProgramError::InvalidArgument)),
        Err(AuctionError::ClockUnavailable)
    );
}

#[test]
fn clock_is_unavailable_off_the_ledger() {
    assert_eq!(unix_timestamp(), Err(AuctionError::ClockUnavailable));
}
