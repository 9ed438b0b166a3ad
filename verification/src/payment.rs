//! The payment a purchase asks for, and what became of it.
//!
//! The shop never moves assets itself. It says which transfer must happen,
//! as an instruction to Solana's system program, and is told afterwards
//! whether the transfer went through.

use vstd::prelude::*;
use vstd::bytes::spec_u64_to_le_bytes;
use anchor_lang::prelude::Pubkey;
use anchor_lang::solana_program::system_instruction;
use crate::identity::Identity;

verus! {

/// What the transfer primitive reported.
#[derive(Clone, Copy, Debug, PartialEq, Eq, Structural)]
pub enum TransferOutcome {
    /// The price moved from the buyer to the admin.
    Completed,
    /// Nothing moved: funds were short or the transfer was rejected.
    Declined,
}

/// An account that an instruction touches.
#[derive(Clone, Copy, Debug, PartialEq, Eq)]
pub struct AccountRef {
    pub key: Identity,
    /// The account must have authorized the instruction.
    pub is_signer: bool,
    /// The instruction may change the account.
    pub is_writable: bool,
}

impl AccountRef {
    /// The account with key `bytes` and the given flags.
    pub fn new(bytes: [u8; 32], is_signer: bool, is_writable: bool) -> (account: AccountRef)
        ensures
            account == (AccountRef { key: Identity { bytes }, is_signer, is_writable }),
    {
        AccountRef { key: Identity::new(bytes), is_signer, is_writable }
    }
}

/// An instruction to the system program that moves an amount between two accounts.
#[derive(Debug, PartialEq, Eq)]
pub struct TransferInstruction {
    /// The program that executes the instruction.
    pub program_id: Identity,
    pub accounts: Vec<AccountRef>,
    /// The instruction's encoded arguments.
    pub data: Vec<u8>,
}

/// What an instruction holds, as mathematical values.
pub struct InstructionView {
    pub program_id: Seq<u8>,
    pub accounts: Seq<AccountRef>,
    pub data: Seq<u8>,
}

impl View for TransferInstruction {
    type V = InstructionView;

    open spec fn view(&self) -> InstructionView {
        InstructionView {
            program_id: self.program_id@,
            accounts: self.accounts@,
            data: self.data@,
        }
    }
}

/// The key of the system program: 32 zero bytes.
pub open spec fn system_program_id() -> Seq<u8> {
    Seq::new(32, |i: int| 0u8)
}

/// The encoded arguments of a system transfer: the instruction's index, 2,
/// in four little-endian bytes, then the amount in eight.
pub open spec fn transfer_data(lamports: u64) -> Seq<u8> {
    seq![2u8, 0u8, 0u8, 0u8] + spec_u64_to_le_bytes(lamports)
}

/// The system transfer of `lamports` from `from` to `to`: `from` pays and must
/// have signed, `to` receives, and both accounts change.
pub open spec fn system_transfer(from: Identity, to: Identity, lamports: u64) -> InstructionView {
    InstructionView {
        program_id: system_program_id(),
        accounts: seq![
            AccountRef { key: from, is_signer: true, is_writable: true },
            AccountRef { key: to, is_signer: false, is_writable: true },
        ],
        data: transfer_data(lamports),
    }
}

/// Calls `system_instruction::transfer` of `anchor_lang::solana_program` and
/// copies the instruction it builds field by field. Trusted: the instruction
/// is addressed to the system program, names the payer as a writable signer
/// and the recipient as writable, and carries the transfer's index and the
/// amount in the fixed-width little-endian encoding.
#[verifier::external_body]
pub(crate) fn build_system_transfer(from: &Identity, to: &Identity, lamports: u64) -> (instruction:
    TransferInstruction)
    ensures
        instruction@ == system_transfer(*from, *to, lamports),
{
    let payer = Pubkey::new_from_array(from.bytes);
    let recipient = Pubkey::new_from_array(to.bytes);
    let built = system_instruction::transfer(&payer, &recipient, lamports);
    let accounts = built.accounts.iter().map(
        |meta| AccountRef::new(meta.pubkey.to_bytes(), meta.is_signer, meta.is_writable),
    ).collect();
    TransferInstruction { program_id: Identity::new(built.program_id.to_bytes()), accounts, data: built.data }
}

} // verus!
