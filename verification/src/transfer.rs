//! The transfers that the handlers ask the host to carry out, and their
//! encoding as instructions to the system program and the token program.

use crate::pubkey::Pubkey;
use crate::state::SignerSeeds;
use vstd::bytes::spec_u64_to_le_bytes;
use vstd::prelude::*;

verus! {

/// The address of the system program, which moves lamports.
pub const SYSTEM_PROGRAM_ID: [u8; 32] = [
    0, 0, 0, 0, 0, 0, 0, 0, 0, 0, 0, 0, 0, 0, 0, 0,
    0, 0, 0, 0, 0, 0, 0, 0, 0, 0, 0, 0, 0, 0, 0, 0,
];

/// The address of the token program, which moves tokens.
pub const TOKEN_PROGRAM_ID: [u8; 32] = [
    6, 221, 246, 225, 215, 101, 161, 147, 217, 203, 225, 70, 206, 235, 121, 172,
    28, 180, 133, 237, 95, 91, 55, 145, 58, 140, 245, 133, 126, 255, 0, 169,
];

/// The index of the transfer among the system program's instructions, which
/// opens the payload of a transfer of lamports.
pub const SYSTEM_TRANSFER_INDEX: u8 = 2;

/// The tag that opens the payload of a token transfer.
pub const TOKEN_TRANSFER_TAG: u8 = 3;

/// One account named by an instruction.
#[derive(Clone, Copy, Debug, PartialEq, Eq)]
pub struct AccountMeta {
    pub pubkey: Pubkey,
    /// The transaction must carry a signature for `pubkey`.
    pub is_signer: bool,
    /// The instruction may change the account.
    pub is_writable: bool,
}

impl AccountMeta {
    /// An account that the instruction may change.
    pub open spec fn writable(pubkey: Pubkey, is_signer: bool) -> AccountMeta {
        AccountMeta { pubkey, is_signer, is_writable: true }
    }

    /// An account that the instruction only reads.
    pub open spec fn readonly(pubkey: Pubkey, is_signer: bool) -> AccountMeta {
        AccountMeta { pubkey, is_signer, is_writable: false }
    }
}

/// A call to another program: the program, the accounts it may touch, and an
/// opaque payload that the program interprets.
#[derive(Debug, PartialEq, Eq)]
pub struct Instruction {
    pub program_id: Pubkey,
    pub accounts: Vec<AccountMeta>,
    pub data: Vec<u8>,
}

/// One call that the host makes for a handler.
#[derive(Debug, PartialEq, Eq)]
pub struct Call {
    pub instruction: Instruction,
    /// The seeds with which the faucet signs the call; `None` where the
    /// signatures of the transaction are enough.
    pub signer: Option<SignerSeeds>,
}

/// A movement of lamports from one account to another.
#[derive(Clone, Copy, Debug, PartialEq, Eq)]
pub struct LamportTransfer {
    pub from: Pubkey,
    pub to: Pubkey,
    pub lamports: u64,
}

/// A movement of tokens between two token accounts, authorised by the owner of
/// the source.
#[derive(Clone, Copy, Debug, PartialEq, Eq)]
pub struct TokenTransfer {
    pub source: Pubkey,
    pub destination: Pubkey,
    pub authority: Pubkey,
    pub amount: u64,
}

/// Builds the system program's transfer instruction with
/// `solana_program::system_instruction::transfer`, reached through
/// `anchor_lang`. Trusted: the instruction is addressed to the system program,
/// names `from` as a writable signer and `to` as writable, in that order, and
/// its payload is the index of the transfer among the system program's
/// instructions, in four bytes, followed by `lamports`, both in little-endian
/// order.
#[verifier::external_body]
fn system_transfer_instruction(from: &Pubkey, to: &Pubkey, lamports: u64) -> (ix: Instruction)
    ensures
        ix.program_id.bytes == SYSTEM_PROGRAM_ID,
        ix.accounts@ == seq![AccountMeta::writable(*from, true), AccountMeta::writable(*to, false)],
        ix.data@ == seq![SYSTEM_TRANSFER_INDEX, 0, 0, 0] + spec_u64_to_le_bytes(lamports),
{
    let raw = anchor_lang::solana_program::system_instruction::transfer(
        &from.bytes.into(),
        &to.bytes.into(),
        lamports,
    );
    let accounts = raw.accounts.iter().map(|m| AccountMeta {
        pubkey: Pubkey { bytes: m.pubkey.to_bytes() },
        is_signer: m.is_signer,
        is_writable: m.is_writable,
    }).collect();
    Instruction { program_id: Pubkey { bytes: raw.program_id.to_bytes() }, accounts, data: raw.data }
}

/// Builds the token program's transfer instruction with
/// `spl_token::instruction::transfer`, reached through `anchor_spl`, for the
/// token program's own address and a single authority. Trusted: the call
/// succeeds, since the function refuses only a program address other than the
/// token program's own; the instruction is addressed to the token program,
/// names `source` and `destination` as writable and `authority` as a
/// read-only signer, in that order, and its payload is the transfer tag
/// followed by `amount` in little-endian order.
#[verifier::external_body]
fn token_transfer_instruction(
    source: &Pubkey,
    destination: &Pubkey,
    authority: &Pubkey,
    amount: u64,
) -> (built: Option<Instruction>)
    ensures
        built is Some,
        built->0.program_id.bytes == TOKEN_PROGRAM_ID,
        built->0.accounts@ == seq![
            AccountMeta::writable(*source, false),
            AccountMeta::writable(*destination, false),
            AccountMeta::readonly(*authority, true),
        ],
        built->0.data@ == seq![TOKEN_TRANSFER_TAG] + spec_u64_to_le_bytes(amount),
{
    let raw = anchor_spl::token::spl_token::instruction::transfer(
        &anchor_spl::token::ID,
        &source.bytes.into(),
        &destination.bytes.into(),
        &authority.bytes.into(),
        &[],
        amount,
    ).ok()?;
    let accounts = raw.accounts.iter().map(|m| AccountMeta {
        pubkey: Pubkey { bytes: m.pubkey.to_bytes() },
        is_signer: m.is_signer,
        is_writable: m.is_writable,
    }).collect();
    Some(Instruction { program_id: Pubkey { bytes: raw.program_id.to_bytes() }, accounts, data: raw.data })
}

impl LamportTransfer {
    /// Whether `ix` is the instruction that asks the system program for this
    /// transfer.
    pub open spec fn encoded_by(self, ix: Instruction) -> bool {
        &&& ix.program_id.bytes == SYSTEM_PROGRAM_ID
        &&& ix.accounts@ == seq![
            AccountMeta::writable(self.from, true),
            AccountMeta::writable(self.to, false),
        ]
        &&& ix.data@ == seq![SYSTEM_TRANSFER_INDEX, 0, 0, 0] + spec_u64_to_le_bytes(self.lamports)
    }

    /// The instruction that asks the system program for this transfer.
    pub(crate) fn instruction(&self) -> (ix: Instruction)
        ensures
            self.encoded_by(ix),
    {
        system_transfer_instruction(&self.from, &self.to, self.lamports)
    }
}

impl TokenTransfer {
    /// Whether `ix` is the instruction that asks the token program for this
    /// transfer.
    pub open spec fn encoded_by(self, ix: Instruction) -> bool {
        &&& ix.program_id.bytes == TOKEN_PROGRAM_ID
        &&& ix.accounts@ == seq![
            AccountMeta::writable(self.source, false),
            AccountMeta::writable(self.destination, false),
            AccountMeta::readonly(self.authority, true),
        ]
        &&& ix.data@ == seq![TOKEN_TRANSFER_TAG] + spec_u64_to_le_bytes(self.amount)
    }

    /// The instruction that asks the token program for this transfer.
    pub(crate) fn instruction(&self) -> (ix: Instruction)
        ensures
            self.encoded_by(ix),
    {
        token_transfer_instruction(&self.source, &self.destination, &self.authority, self.amount).unwrap()
    }
}

} // verus!
