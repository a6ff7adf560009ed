//! Instructions for the ledger's native-currency program.

use vstd::prelude::*;
use vstd::bytes::spec_u64_to_le_bytes;
use crate::pubkey::{empty_key, Pubkey};

verus! {

/// An account that an instruction touches, and how.
#[derive(Clone, Copy, Debug, PartialEq, Eq)]
pub struct AccountMeta {
    pub pubkey: Pubkey,
    /// The account must have signed the transaction.
    pub is_signer: bool,
    /// The instruction may change the account.
    pub is_writable: bool,
}

/// A request to a program on the ledger.
#[derive(Clone, Debug, PartialEq, Eq)]
pub struct Instruction {
    /// The program that carries the request out.
    pub program_id: Pubkey,
    pub accounts: Vec<AccountMeta>,
    pub data: Vec<u8>,
}

/// The identifier of the native-currency program: 32 zero bytes.
pub open spec fn system_program_id() -> Seq<u8> {
    empty_key()
}

/// The payload of a transfer of `lamports`: the number 2 of the transfer
/// request in four bytes, then the amount in eight, both little-endian.
pub open spec fn transfer_data(lamports: u64) -> Seq<u8> {
    seq![2u8, 0u8, 0u8, 0u8] + spec_u64_to_le_bytes(lamports)
}

impl Instruction {
    /// That this is the native-currency program's transfer of `lamports`
    /// from `from`, who signs, to `to`.
    pub open spec fn is_transfer(self, from: Seq<u8>, to: Seq<u8>, lamports: u64) -> bool {
        &&& self.program_id@ == system_program_id()
        &&& self.accounts@.len() == 2
        &&& self.accounts@[0].pubkey@ == from
        &&& self.accounts@[0].is_signer
        &&& self.accounts@[0].is_writable
        &&& self.accounts@[1].pubkey@ == to
        &&& !self.accounts@[1].is_signer
        &&& self.accounts@[1].is_writable
        &&& self.data@ == transfer_data(lamports)
    }
}

/// Calls `solana_program::system_instruction::transfer` and copies the
/// instruction it returns field by field. The contract claims what the source
/// of that function shows: the program is the system program, whose identifier
/// is all zero; the accounts are the sender, writable and signing, and the
/// recipient, writable and not signing; the data is the bincode form of
/// `SystemInstruction::Transfer`, its variant index 2 as a `u32` and the
/// amount as a `u64`, both little-endian.
#[verifier::external_body]
pub(crate) fn system_transfer(from: &Pubkey, to: &Pubkey, lamports: u64) -> (instruction: Instruction)
    ensures
        instruction.is_transfer(from@, to@, lamports),
{
    let sender = solana_program::pubkey::Pubkey::new_from_array(from.bytes);
    let recipient = solana_program::pubkey::Pubkey::new_from_array(to.bytes);
    let built = solana_program::system_instruction::transfer(&sender, &recipient, lamports);
    Instruction {
        program_id: Pubkey { bytes: built.program_id.to_bytes() },
        accounts: built.accounts.iter().map(|meta| AccountMeta {
            pubkey: Pubkey { bytes: meta.pubkey.to_bytes() },
            is_signer: meta.is_signer,
            is_writable: meta.is_writable,
        }).collect(),
        data: built.data,
    }
}

} // verus!
