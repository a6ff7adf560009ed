//! Token issuance: setting the mint up with its descriptive metadata, and
//! minting units of it. Both are carried out by services outside this
//! library; the functions here decide whether the operation is authorized and
//! say exactly what is to be asked of the service.

use vstd::prelude::*;
use crate::authority::{
    authority_seeds, derivation_view, derive_authority, is_proved, program_address, proves,
    signer_seeds, signer_seeds_spec, ProgramAddress,
};
use crate::error::AuctionError;
use crate::pubkey::Pubkey;

verus! {

/// How the token is described and divided.
#[derive(Clone, Debug, PartialEq, Eq)]
pub struct InitTokenParams {
    pub name: String,
    pub symbol: String,
    pub uri: String,
    /// The number of decimal places of one token.
    pub decimals: u8,
}

/// The bumps that came with the accounts of [`InitToken`].
#[derive(Clone, Copy, Debug, PartialEq, Eq)]
pub struct InitTokenBumps {
    pub mint: u8,
}

/// The accounts with which the mint is set up.
#[derive(Clone, Copy, Debug, PartialEq, Eq)]
pub struct InitToken {
    /// The program on whose behalf the mint's address is derived.
    pub program_id: Pubkey,
    /// Where the metadata service keeps the description.
    pub metadata: Pubkey,
    pub mint: Pubkey,
    /// Whether a mint exists at `mint` before this operation.
    pub mint_exists: bool,
    pub payer: Pubkey,
    pub rent: Pubkey,
    pub system_program: Pubkey,
    pub token_program: Pubkey,
    pub token_metadata_program: Pubkey,
    pub bumps: InitTokenBumps,
}

/// The bumps that came with the accounts of [`MintTokens`].
#[derive(Clone, Copy, Debug, PartialEq, Eq)]
pub struct MintTokensBumps {
    pub mint: u8,
}

/// The accounts with which units are minted.
#[derive(Clone, Copy, Debug, PartialEq, Eq)]
pub struct MintTokens {
    /// The program on whose behalf the mint's address is derived.
    pub program_id: Pubkey,
    pub mint: Pubkey,
    /// The holding account that is credited.
    pub destination: Pubkey,
    pub payer: Pubkey,
    pub token_program: Pubkey,
    pub bumps: MintTokensBumps,
}

/// A request to the metadata service to attach a description to a mint. It
/// names no creators, no collection and no uses.
#[derive(Clone, Debug, PartialEq, Eq)]
pub struct CreateMetadataAccounts {
    /// The metadata service.
    pub program: Pubkey,
    pub metadata: Pubkey,
    pub mint: Pubkey,
    pub mint_authority: Pubkey,
    pub payer: Pubkey,
    pub update_authority: Pubkey,
    pub system_program: Pubkey,
    pub rent: Pubkey,
    pub name: String,
    pub symbol: String,
    pub uri: String,
    pub seller_fee_basis_points: u16,
    pub is_mutable: bool,
    pub update_authority_is_signer: bool,
    /// The seeds with which the host signs as the mint.
    pub signer_seeds: Vec<Vec<u8>>,
}

/// What setting the mint up asks for: a mint of the given precision under
/// the given authority, and its description.
#[derive(Clone, Debug, PartialEq, Eq)]
pub struct TokenSetup {
    pub decimals: u8,
    pub mint_authority: Pubkey,
    pub metadata: CreateMetadataAccounts,
}

/// A request to the token service to mint `amount` units of `mint` to the
/// holding account `to`.
#[derive(Clone, Debug, PartialEq, Eq)]
pub struct MintTo {
    /// The token service.
    pub token_program: Pubkey,
    pub mint: Pubkey,
    pub to: Pubkey,
    pub authority: Pubkey,
    pub amount: u64,
    /// The seeds with which the host signs as the authority.
    pub signer_seeds: Vec<Vec<u8>>,
}

impl MintTo {
    /// That this asks `token_program` for `amount` units of `mint` to `to`,
    /// the mint being its own authority and signing with `bump`.
    pub open spec fn mints(self, token_program: Seq<u8>, mint: Seq<u8>, to: Seq<u8>, amount: u64, bump: u8) -> bool {
        &&& self.token_program@ == token_program
        &&& self.mint@ == mint
        &&& self.to@ == to
        &&& self.authority@ == mint
        &&& self.amount == amount
        &&& self.signer_seeds.deep_view() == signer_seeds_spec(bump)
    }
}

impl TokenSetup {
    /// That this sets `ctx.mint` up as `params` describe it: the mint is its
    /// own mint authority and the update authority of its metadata, the
    /// description is immutable and carries no seller fee, and the host signs
    /// as the mint.
    pub open spec fn sets_up(self, ctx: InitToken, params: InitTokenParams) -> bool {
        &&& self.decimals == params.decimals
        &&& self.mint_authority@ == ctx.mint@
        &&& self.metadata.program@ == ctx.token_metadata_program@
        &&& self.metadata.metadata@ == ctx.metadata@
        &&& self.metadata.mint@ == ctx.mint@
        &&& self.metadata.mint_authority@ == ctx.mint@
        &&& self.metadata.payer@ == ctx.payer@
        &&& self.metadata.update_authority@ == ctx.mint@
        &&& self.metadata.system_program@ == ctx.system_program@
        &&& self.metadata.rent@ == ctx.rent@
        &&& self.metadata.name@ == params.name@
        &&& self.metadata.symbol@ == params.symbol@
        &&& self.metadata.uri@ == params.uri@
        &&& self.metadata.seller_fee_basis_points == 0
        &&& !self.metadata.is_mutable
        &&& self.metadata.update_authority_is_signer
        &&& self.metadata.signer_seeds.deep_view() == signer_seeds_spec(ctx.bumps.mint)
    }
}

/// What [`init_token_as`] returns for `ctx` and `params` when the derivation
/// of the mint's address yielded `authority`.
pub open spec fn init_token_post(
    ctx: InitToken,
    params: InitTokenParams,
    authority: Option<(Seq<u8>, u8)>,
    outcome: Result<TokenSetup, AuctionError>,
) -> bool {
    if !proves(authority, ctx.mint@, ctx.bumps.mint) {
        outcome matches Err(e) && e == AuctionError::AuthorizationFailure
    } else if ctx.mint_exists {
        outcome matches Err(e) && e == AuctionError::MintAlreadyExists
    } else {
        outcome matches Ok(setup) && setup.sets_up(ctx, params)
    }
}

/// Decides the set-up of the mint, given what the derivation of the mint's
/// address yielded: it is refused with `AuthorizationFailure` unless
/// `ctx.mint` and `ctx.bumps.mint` are exactly that address and bump, and
/// with `MintAlreadyExists` where the mint has been set up before.
pub fn init_token_as(ctx: &InitToken, metadata: InitTokenParams, authority: &Option<ProgramAddress>) -> (outcome: Result<TokenSetup, AuctionError>)
    ensures
        init_token_post(*ctx, metadata, derivation_view(*authority), outcome),
{
    if !is_proved(authority, &ctx.mint, ctx.bumps.mint) {
        return Err(AuctionError::AuthorizationFailure);
    }
    if ctx.mint_exists {
        return Err(AuctionError::MintAlreadyExists);
    }
    let request = CreateMetadataAccounts {
        program: ctx.token_metadata_program,
        metadata: ctx.metadata,
        mint: ctx.mint,
        mint_authority: ctx.mint,
        payer: ctx.payer,
        update_authority: ctx.mint,
        system_program: ctx.system_program,
        rent: ctx.rent,
        name: metadata.name,
        symbol: metadata.symbol,
        uri: metadata.uri,
        seller_fee_basis_points: 0,
        is_mutable: false,
        update_authority_is_signer: true,
        signer_seeds: signer_seeds(ctx.bumps.mint),
    };
    Ok(TokenSetup { decimals: metadata.decimals, mint_authority: ctx.mint, metadata: request })
}

/// Sets the mint up: derives the mint's address and decides as
/// [`init_token_as`] does. The host then creates the mint, with no supply
/// yet, and has the metadata service register the description.
pub fn init_token(ctx: &InitToken, metadata: InitTokenParams) -> (outcome: Result<TokenSetup, AuctionError>)
    ensures
        init_token_post(*ctx, metadata, program_address(authority_seeds(), ctx.program_id@), outcome),
{
    let authority = derive_authority(&ctx.program_id);
    init_token_as(ctx, metadata, &authority)
}

/// What [`mint_tokens_as`] returns for `ctx` and `quantity` when the
/// derivation of the mint's address yielded `authority`.
pub open spec fn mint_tokens_post(
    ctx: MintTokens,
    quantity: u64,
    authority: Option<(Seq<u8>, u8)>,
    outcome: Result<MintTo, AuctionError>,
) -> bool {
    if proves(authority, ctx.mint@, ctx.bumps.mint) {
        outcome matches Ok(request) && request.mints(
            ctx.token_program@,
            ctx.mint@,
            ctx.destination@,
            quantity,
            ctx.bumps.mint,
        )
    } else {
        outcome matches Err(e) && e == AuctionError::AuthorizationFailure
    }
}

/// Builds the request that mints `amount` units of `mint` to `to`, the mint
/// signing for itself with `bump`.
pub fn mint_request(token_program: &Pubkey, mint: &Pubkey, to: &Pubkey, amount: u64, bump: u8) -> (request: MintTo)
    ensures
        request.mints(token_program@, mint@, to@, amount, bump),
{
    MintTo {
        token_program: *token_program,
        mint: *mint,
        to: *to,
        authority: *mint,
        amount,
        signer_seeds: signer_seeds(bump),
    }
}

/// Decides a minting of `quantity` units to `ctx.destination`, given what the
/// derivation of the mint's address yielded: it is refused with
/// `AuthorizationFailure` unless `ctx.mint` and `ctx.bumps.mint` are exactly
/// that address and bump. Every quantity is accepted, zero too; a request for
/// zero units adds nothing to the supply.
pub fn mint_tokens_as(ctx: &MintTokens, quantity: u64, authority: &Option<ProgramAddress>) -> (outcome: Result<MintTo, AuctionError>)
    ensures
        mint_tokens_post(*ctx, quantity, derivation_view(*authority), outcome),
{
    if !is_proved(authority, &ctx.mint, ctx.bumps.mint) {
        return Err(AuctionError::AuthorizationFailure);
    }
    Ok(mint_request(&ctx.token_program, &ctx.mint, &ctx.destination, quantity, ctx.bumps.mint))
}

/// Mints `quantity` units to `ctx.destination`: derives the mint's address
/// and decides as [`mint_tokens_as`] does. The host then hands the request to
/// the token service, which adds `quantity` to the supply.
pub fn mint_tokens(ctx: &MintTokens, quantity: u64) -> (outcome: Result<MintTo, AuctionError>)
    ensures
        mint_tokens_post(*ctx, quantity, program_address(authority_seeds(), ctx.program_id@), outcome),
{
    let authority = derive_authority(&ctx.program_id);
    mint_tokens_as(ctx, quantity, &authority)
}

} // verus!
