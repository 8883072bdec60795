//! The four handlers. Each derives the faucet's address, checks the
//! constraints on the accounts it is given and then the faucet's rules, and
//! answers with the transfers that the host is to carry out; none of them
//! moves anything itself.

use crate::accounts::{
    AccountError, ExchangeSolForTokens, FaucetSlot, Initialize, WithdrawSol, WithdrawTokens,
};
use crate::address::{
    address_bytes, faucet_address, found_address, found_bump, found_bytes,
    found_faucet_address,
};
use crate::pubkey::Pubkey;
use crate::state::{Faucet, FaucetError, SignerSeeds, EXCHANGE_RATE};
use crate::transfer::{Call, LamportTransfer, TokenTransfer};
use vstd::prelude::*;

verus! {

/// Why a call is refused: its accounts break a constraint, or the call breaks
/// a rule of the faucet.
#[derive(Clone, Copy, Debug, PartialEq, Eq)]
pub enum CallError {
    Account(AccountError),
    Faucet(FaucetError),
}

/// What an exchange asks of the host: the user's payment in lamports and the
/// faucet's payout in tokens, the latter signed with the faucet's seeds.
#[derive(Clone, Copy, Debug, PartialEq, Eq)]
pub struct ExchangeTransfers {
    pub payment: LamportTransfer,
    pub payout: TokenTransfer,
    pub signer: SignerSeeds,
}

/// What a withdrawal of lamports asks of the host.
#[derive(Clone, Copy, Debug, PartialEq, Eq)]
pub struct SolWithdrawal {
    pub transfer: LamportTransfer,
    pub signer: SignerSeeds,
}

/// What a withdrawal of tokens asks of the host.
#[derive(Clone, Copy, Debug, PartialEq, Eq)]
pub struct TokenWithdrawal {
    pub transfer: TokenTransfer,
    pub signer: SignerSeeds,
}

impl ExchangeTransfers {
    /// Whether `calls` carry out the exchange: first the payment, which the
    /// user's signature on the transaction covers, then the payout, which the
    /// faucet signs.
    pub open spec fn carried_out_by(self, calls: Seq<Call>) -> bool {
        &&& calls.len() == 2
        &&& self.payment.encoded_by(calls[0].instruction)
        &&& calls[0].signer is None
        &&& self.payout.encoded_by(calls[1].instruction)
        &&& calls[1].signer == Some(self.signer)
    }

    /// The calls that carry out the exchange, in the order in which the host
    /// is to make them.
    pub fn calls(&self) -> (calls: Vec<Call>)
        ensures
            self.carried_out_by(calls@),
    {
        let mut calls: Vec<Call> = Vec::new();
        calls.push(Call { instruction: self.payment.instruction(), signer: None });
        calls.push(Call { instruction: self.payout.instruction(), signer: Some(self.signer) });
        calls
    }
}

impl SolWithdrawal {
    /// Whether `calls` carry out the withdrawal: one transfer of lamports,
    /// which the faucet signs.
    pub open spec fn carried_out_by(self, calls: Seq<Call>) -> bool {
        &&& calls.len() == 1
        &&& self.transfer.encoded_by(calls[0].instruction)
        &&& calls[0].signer == Some(self.signer)
    }

    /// The call that carries out the withdrawal.
    pub fn calls(&self) -> (calls: Vec<Call>)
        ensures
            self.carried_out_by(calls@),
    {
        let mut calls: Vec<Call> = Vec::new();
        calls.push(Call { instruction: self.transfer.instruction(), signer: Some(self.signer) });
        calls
    }
}

impl TokenWithdrawal {
    /// Whether `calls` carry out the withdrawal: one transfer of tokens,
    /// which the faucet signs.
    pub open spec fn carried_out_by(self, calls: Seq<Call>) -> bool {
        &&& calls.len() == 1
        &&& self.transfer.encoded_by(calls[0].instruction)
        &&& calls[0].signer == Some(self.signer)
    }

    /// The call that carries out the withdrawal.
    pub fn calls(&self) -> (calls: Vec<Call>)
        ensures
            self.carried_out_by(calls@),
    {
        let mut calls: Vec<Call> = Vec::new();
        calls.push(Call { instruction: self.transfer.instruction(), signer: Some(self.signer) });
        calls
    }
}

/// The tokens paid out for `amount` lamports, as a mathematical integer.
pub open spec fn token_value(amount: u64) -> int {
    amount * EXCHANGE_RATE
}

/// The result of `exchange_sol_for_tokens`, where `derived` is the address
/// that the record's bump derives for the faucet.
///
/// The accounts must meet their constraints, the authority presented must be
/// the one in the record, and the faucet's token account must hold the full
/// token value of `amount`. A value beyond the range of a balance is
/// therefore never covered.
pub open spec fn exchange_outcome(ctx: ExchangeSolForTokens, derived: Option<Seq<u8>>, amount: u64)
    -> Result<ExchangeTransfers, CallError> {
    match ctx.constraints(derived) {
        Err(e) => Err(CallError::Account(e)),
        Ok(_) => if ctx.faucet.data.authority != ctx.authority {
            Err(CallError::Faucet(FaucetError::InvalidAuthority))
        } else if ctx.faucet_token_account.amount < token_value(amount) {
            Err(CallError::Faucet(FaucetError::InsufficientTokens))
        } else {
            Ok(
                ExchangeTransfers {
                    payment: LamportTransfer {
                        from: ctx.user.key,
                        to: ctx.faucet.key,
                        lamports: amount,
                    },
                    payout: TokenTransfer {
                        source: ctx.faucet_token_account.key,
                        destination: ctx.user_token_account.key,
                        authority: ctx.faucet.key,
                        amount: token_value(amount) as u64,
                    },
                    signer: ctx.faucet.data.spec_signer_seeds(),
                },
            )
        },
    }
}

/// The result of `withdraw_sol`, where `derived` is the address that the
/// record's bump derives for the faucet.
pub open spec fn withdraw_sol_outcome(ctx: WithdrawSol, derived: Option<Seq<u8>>, amount: u64)
    -> Result<SolWithdrawal, CallError> {
    match ctx.constraints(derived) {
        Err(e) => Err(CallError::Account(e)),
        Ok(_) => if ctx.faucet.data.authority != ctx.authority {
            Err(CallError::Faucet(FaucetError::InvalidAuthority))
        } else if ctx.faucet.lamports < amount {
            Err(CallError::Faucet(FaucetError::InsufficientSol))
        } else {
            Ok(
                SolWithdrawal {
                    transfer: LamportTransfer {
                        from: ctx.faucet.key,
                        to: ctx.recipient.key,
                        lamports: amount,
                    },
                    signer: ctx.faucet.data.spec_signer_seeds(),
                },
            )
        },
    }
}

/// The result of `withdraw_tokens`, where `derived` is the address that the
/// record's bump derives for the faucet.
pub open spec fn withdraw_tokens_outcome(ctx: WithdrawTokens, derived: Option<Seq<u8>>, amount: u64)
    -> Result<TokenWithdrawal, CallError> {
    match ctx.constraints(derived) {
        Err(e) => Err(CallError::Account(e)),
        Ok(_) => if ctx.faucet.data.authority != ctx.authority {
            Err(CallError::Faucet(FaucetError::InvalidAuthority))
        } else if ctx.faucet_token_account.amount < amount {
            Err(CallError::Faucet(FaucetError::InsufficientTokens))
        } else {
            Ok(
                TokenWithdrawal {
                    transfer: TokenTransfer {
                        source: ctx.faucet_token_account.key,
                        destination: ctx.recipient_token_account.key,
                        authority: ctx.faucet.key,
                        amount,
                    },
                    signer: ctx.faucet.data.spec_signer_seeds(),
                },
            )
        },
    }
}

/// The accounts after `initialize`, or the constraint that refused them,
/// where `found` is the address and bump that a search finds for the faucet.
/// The record takes the bump found.
pub open spec fn initialize_outcome(ctx: Initialize, found: Option<(Seq<u8>, u8)>) -> Result<
    Initialize,
    AccountError,
> {
    match ctx.constraints(found_address(found)) {
        Err(e) => Err(e),
        Ok(_) => Ok(
            Initialize {
                faucet: FaucetSlot {
                    key: ctx.faucet.key,
                    record: Some(
                        Faucet {
                            authority: ctx.authority,
                            token_mint: ctx.token_mint,
                            token_account: ctx.token_account.key,
                            bump: found_bump(found),
                        },
                    ),
                },
                ..ctx
            },
        ),
    }
}

/// Exchanges `amount` lamports of the user for tokens of the faucet at the
/// fixed rate, given in `derived` the address that the record's bump derives
/// for the faucet.
///
/// Fails with the first constraint that the accounts break; else with
/// `InvalidAuthority` if the authority presented is not the one in the
/// record; else with `InsufficientTokens` if the faucet's token account does
/// not hold `amount * EXCHANGE_RATE` tokens.
pub fn exchange_sol_for_tokens_at(
    ctx: &ExchangeSolForTokens,
    derived: &Option<Pubkey>,
    amount: u64,
) -> (outcome: Result<ExchangeTransfers, CallError>)
    ensures
        outcome == exchange_outcome(*ctx, address_bytes(*derived), amount),
{
    if let Err(e) = ctx.validate(derived) {
        return Err(CallError::Account(e));
    }
    if ctx.faucet.data.authority != ctx.authority {
        return Err(CallError::Faucet(FaucetError::InvalidAuthority));
    }
    let token_amount: u64 = match amount.checked_mul(EXCHANGE_RATE) {
        Some(value) => value,
        None => {
            return Err(CallError::Faucet(FaucetError::InsufficientTokens));
        },
    };
    if ctx.faucet_token_account.amount < token_amount {
        return Err(CallError::Faucet(FaucetError::InsufficientTokens));
    }
    Ok(
        ExchangeTransfers {
            payment: LamportTransfer { from: ctx.user.key, to: ctx.faucet.key, lamports: amount },
            payout: TokenTransfer {
                source: ctx.faucet_token_account.key,
                destination: ctx.user_token_account.key,
                authority: ctx.faucet.key,
                amount: token_amount,
            },
            signer: ctx.faucet.data.signer_seeds(),
        },
    )
}

/// Exchanges `amount` lamports of the user for tokens of the faucet at the
/// fixed rate: derives the faucet's address from the record's bump and the
/// program called, and goes on as `exchange_sol_for_tokens_at`.
pub fn exchange_sol_for_tokens(ctx: &ExchangeSolForTokens, amount: u64) -> (outcome: Result<
    ExchangeTransfers,
    CallError,
>)
    ensures
        outcome == exchange_outcome(
            *ctx,
            faucet_address(ctx.program_id, ctx.faucet.data.bump),
            amount,
        ),
{
    let derived = Faucet::derive_address(&ctx.program_id, ctx.faucet.data.bump);
    exchange_sol_for_tokens_at(ctx, &derived, amount)
}

/// Withdraws `amount` tokens from the faucet's token account to the
/// authority's own token account, given in `derived` the address that the
/// record's bump derives for the faucet.
///
/// Fails with the first constraint that the accounts break, among them a
/// recipient that is not the authority's own token account in the faucet's
/// mint; else with `InvalidAuthority` if the authority is not the one in the
/// record; else with `InsufficientTokens` if the faucet's token account holds
/// fewer than `amount` tokens.
pub fn withdraw_tokens_at(ctx: &WithdrawTokens, derived: &Option<Pubkey>, amount: u64) -> (outcome:
    Result<TokenWithdrawal, CallError>)
    ensures
        outcome == withdraw_tokens_outcome(*ctx, address_bytes(*derived), amount),
{
    if let Err(e) = ctx.validate(derived) {
        return Err(CallError::Account(e));
    }
    if ctx.faucet.data.authority != ctx.authority {
        return Err(CallError::Faucet(FaucetError::InvalidAuthority));
    }
    if ctx.faucet_token_account.amount < amount {
        return Err(CallError::Faucet(FaucetError::InsufficientTokens));
    }
    Ok(
        TokenWithdrawal {
            transfer: TokenTransfer {
                source: ctx.faucet_token_account.key,
                destination: ctx.recipient_token_account.key,
                authority: ctx.faucet.key,
                amount,
            },
            signer: ctx.faucet.data.signer_seeds(),
        },
    )
}

/// Withdraws `amount` tokens from the faucet's token account to the
/// authority's own token account: derives the faucet's address from the
/// record's bump and the program called, and goes on as `withdraw_tokens_at`.
pub fn withdraw_tokens(ctx: &WithdrawTokens, amount: u64) -> (outcome: Result<
    TokenWithdrawal,
    CallError,
>)
    ensures
        outcome == withdraw_tokens_outcome(
            *ctx,
            faucet_address(ctx.program_id, ctx.faucet.data.bump),
            amount,
        ),
{
    let derived = Faucet::derive_address(&ctx.program_id, ctx.faucet.data.bump);
    withdraw_tokens_at(ctx, &derived, amount)
}

/// Withdraws `amount` lamports from the faucet to the recipient, given in
/// `derived` the address that the record's bump derives for the faucet.
///
/// Fails with `AddressMismatch` if the faucet does not lie at that address;
/// else with `InvalidAuthority` if the authority is not the one in the
/// record; else with `InsufficientSol` if the faucet holds fewer than
/// `amount` lamports.
pub fn withdraw_sol_at(ctx: &WithdrawSol, derived: &Option<Pubkey>, amount: u64) -> (outcome: Result<
    SolWithdrawal,
    CallError,
>)
    ensures
        outcome == withdraw_sol_outcome(*ctx, address_bytes(*derived), amount),
{
    if let Err(e) = ctx.validate(derived) {
        return Err(CallError::Account(e));
    }
    if ctx.faucet.data.authority != ctx.authority {
        return Err(CallError::Faucet(FaucetError::InvalidAuthority));
    }
    if ctx.faucet.lamports < amount {
        return Err(CallError::Faucet(FaucetError::InsufficientSol));
    }
    Ok(
        SolWithdrawal {
            transfer: LamportTransfer {
                from: ctx.faucet.key,
                to: ctx.recipient.key,
                lamports: amount,
            },
            signer: ctx.faucet.data.signer_seeds(),
        },
    )
}

/// Withdraws `amount` lamports from the faucet to the recipient: derives the
/// faucet's address from the record's bump and the program called, and goes
/// on as `withdraw_sol_at`.
pub fn withdraw_sol(ctx: &WithdrawSol, amount: u64) -> (outcome: Result<SolWithdrawal, CallError>)
    ensures
        outcome == withdraw_sol_outcome(
            *ctx,
            faucet_address(ctx.program_id, ctx.faucet.data.bump),
            amount,
        ),
{
    let derived = Faucet::derive_address(&ctx.program_id, ctx.faucet.data.bump);
    withdraw_sol_at(ctx, &derived, amount)
}

/// Creates the faucet's record from the accounts given, where `found` is the
/// address and bump that a search finds for the faucet. The record takes the
/// bump found.
///
/// Fails, and changes nothing, with the first constraint that the accounts
/// break: the faucet is not to be created at the address found; a record
/// already exists there; the token account is not in the mint or not owned by
/// the faucet.
pub fn initialize_at(ctx: &mut Initialize, found: &Option<(Pubkey, u8)>) -> (outcome: Result<
    (),
    AccountError,
>)
    ensures
        match initialize_outcome(*old(ctx), found_bytes(*found)) {
            Ok(after) => outcome == Ok::<(), AccountError>(()) && *final(ctx) == after,
            Err(e) => outcome == Err::<(), AccountError>(e) && *final(ctx) == *old(ctx),
        },
{
    match found {
        None => Err(AccountError::AddressMismatch),
        Some((address, bump)) => {
            ctx.validate(&Some(*address))?;
            ctx.faucet.record = Some(
                Faucet {
                    authority: ctx.authority,
                    token_mint: ctx.token_mint,
                    token_account: ctx.token_account.key,
                    bump: *bump,
                },
            );
            Ok(())
        },
    }
}

/// Creates the faucet's record from the accounts given: searches the
/// faucet's address and bump for the program called, and goes on as
/// `initialize_at`. The bump of a record so created derives the faucet's
/// address.
pub fn initialize(ctx: &mut Initialize) -> (outcome: Result<(), AccountError>)
    ensures
        match initialize_outcome(*old(ctx), found_faucet_address(old(ctx).program_id)) {
            Ok(after) => outcome == Ok::<(), AccountError>(()) && *final(ctx) == after,
            Err(e) => outcome == Err::<(), AccountError>(e) && *final(ctx) == *old(ctx),
        },
        outcome is Ok ==> final(ctx).faucet.record is Some && faucet_address(
            final(ctx).program_id,
            final(ctx).faucet.record->0.bump,
        ) == Some(final(ctx).faucet.key@),
{
    let found = Faucet::find_address(&ctx.program_id);
    initialize_at(ctx, &found)
}

} // verus!
