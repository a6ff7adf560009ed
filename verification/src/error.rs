//! The reasons for which an operation is rejected.

use vstd::prelude::*;

verus! {

/// Why an operation was rejected. Every rejection is final for the operation
/// that raised it and leaves the auction record as it was.
#[derive(Clone, Copy, Debug, PartialEq, Eq, Structural)]
pub enum AuctionError {
    /// A bid arrived at or after the deadline.
    AuctionEnded,
    /// A bid did not exceed the current highest bid.
    BidTooLow,
    /// A claim arrived before the deadline.
    AuctionNotEnded,
    /// A claim came from someone other than the highest bidder.
    NotHighestBidder,
    /// The auction has been settled before.
    AlreadyClaimed,
    /// The presented address and bump are not what the derivation yields, or
    /// the host refused to sign for them.
    AuthorizationFailure,
    /// The host could not move the winning bid to the treasury.
    PaymentTransferFailed,
    /// An auction record exists already for the mint.
    AlreadyStarted,
    /// The duration is not positive, or the deadline it gives is not representable.
    InvalidDuration,
    /// The host gave no reading of its clock.
    ClockUnavailable,
    /// A mint exists already at the derived address.
    MintAlreadyExists,
}

impl AuctionError {
    /// The text shown to a user for this rejection.
    pub open spec fn message_spec(self) -> Seq<char> {
        match self {
            AuctionError::AuctionEnded => "The auction has already ended."@,
            AuctionError::BidTooLow => "The bid is too low."@,
            AuctionError::AuctionNotEnded => "The auction has not ended yet."@,
            AuctionError::NotHighestBidder => "The claimant is not the highest bidder."@,
            AuctionError::AlreadyClaimed => "The auction has already been claimed."@,
            AuctionError::AuthorizationFailure => "The program authority could not be proved."@,
            AuctionError::PaymentTransferFailed => "The payment could not be transferred."@,
            AuctionError::AlreadyStarted => "The auction has already been started."@,
            AuctionError::InvalidDuration => "The auction duration is not valid."@,
            AuctionError::ClockUnavailable => "The clock could not be read."@,
            AuctionError::MintAlreadyExists => "The token mint has already been created."@,
        }
    }

    /// The text shown to a user for this rejection.
    pub fn message(&self) -> (text: &'static str)
        ensures
            text@ == self.message_spec(),
    {
        match self {
            AuctionError::AuctionEnded => "The auction has already ended.",
            AuctionError::BidTooLow => "The bid is too low.",
            AuctionError::AuctionNotEnded => "The auction has not ended yet.",
            AuctionError::NotHighestBidder => "The claimant is not the highest bidder.",
            AuctionError::AlreadyClaimed => "The auction has already been claimed.",
            AuctionError::AuthorizationFailure => "The program authority could not be proved.",
            AuctionError::PaymentTransferFailed => "The payment could not be transferred.",
            AuctionError::AlreadyStarted => "The auction has already been started.",
            AuctionError::InvalidDuration => "The auction duration is not valid.",
            AuctionError::ClockUnavailable => "The clock could not be read.",
            AuctionError::MintAlreadyExists => "The token mint has already been created.",
        }
    }
}

} // verus!
