//! What holds of the handlers taken together with the host that carries out
//! their transfers.
//!
//! In every law `derived` stands for the address that the faucet's seeds
//! derive, and `found` for the address and bump that a search finds; the laws
//! hold whatever these are.

use crate::accounts::{AccountError, ExchangeSolForTokens, Initialize, WithdrawSol, WithdrawTokens};
use crate::address::{
    faucet_address, found_address, found_bump, found_faucet_address,
    lemma_search_finds_derived, HIGHEST_BUMP,
};
use crate::processor::{
    exchange_outcome, initialize_outcome, token_value, withdraw_sol_outcome,
    withdraw_tokens_outcome, CallError, ExchangeTransfers, SolWithdrawal, TokenWithdrawal,
};
use crate::state::{Faucet, FaucetError, FAUCET_SEED};
use vstd::prelude::*;

verus! {

/// The accounts after a whole call of `exchange_sol_for_tokens`: as the host
/// leaves them if the handler accepts and the host can carry out the
/// transfers, and untouched otherwise.
pub open spec fn after_exchange(ctx: ExchangeSolForTokens, derived: Option<Seq<u8>>, amount: u64)
    -> ExchangeSolForTokens {
    match exchange_outcome(ctx, derived, amount) {
        Ok(transfers) => match ctx.settled(transfers) {
            Ok(after) => after,
            Err(_) => ctx,
        },
        Err(_) => ctx,
    }
}

/// The accounts after a whole call of `withdraw_sol`.
pub open spec fn after_withdraw_sol(ctx: WithdrawSol, derived: Option<Seq<u8>>, amount: u64)
    -> WithdrawSol {
    match withdraw_sol_outcome(ctx, derived, amount) {
        Ok(withdrawal) => match ctx.settled(withdrawal) {
            Ok(after) => after,
            Err(_) => ctx,
        },
        Err(_) => ctx,
    }
}

/// The accounts after a whole call of `withdraw_tokens`.
pub open spec fn after_withdraw_tokens(ctx: WithdrawTokens, derived: Option<Seq<u8>>, amount: u64)
    -> WithdrawTokens {
    match withdraw_tokens_outcome(ctx, derived, amount) {
        Ok(withdrawal) => match ctx.settled(withdrawal) {
            Ok(after) => after,
            Err(_) => ctx,
        },
        Err(_) => ctx,
    }
}

/// A faucet is created once. Accounts that meet the constraints of
/// `initialize` give a record with exactly the authority, mint and token
/// account supplied and the bump found, and that token account is
/// denominated in the record's mint and owned by the faucet's address; after
/// that, every `initialize` on the same faucet address fails, whatever else
/// it is given.
pub proof fn law_initialize_once(
    first: Initialize,
    found: Option<(Seq<u8>, u8)>,
    second: Initialize,
    found_again: Option<(Seq<u8>, u8)>,
)
    requires
        first.constraints(found_address(found)) is Ok,
        second.faucet == initialize_outcome(first, found)->Ok_0.faucet,
    ensures
        initialize_outcome(first, found) is Ok,
        initialize_outcome(first, found)->Ok_0.faucet.key == first.faucet.key,
        initialize_outcome(first, found)->Ok_0.faucet.record == Some(
            Faucet {
                authority: first.authority,
                token_mint: first.token_mint,
                token_account: first.token_account.key,
                bump: found_bump(found),
            },
        ),
        first.token_account.held(first.token_mint, first.faucet.key) is Ok,
        initialize_outcome(second, found_again) is Err,
        found_address(found_again) == Some(second.faucet.key@) ==> initialize_outcome(
            second,
            found_again,
        ) == Err::<Initialize, AccountError>(AccountError::AlreadyInitialized),
{
}

/// The record's bump derives the faucet's address. Where `initialize`
/// succeeds on what a search finds for the program called, the seed `faucet`
/// followed by the bump stored derives the address at which the record was
/// created, so that the faucet account meets the address constraint of every
/// later call to the same program.
pub proof fn law_initialized_faucet_is_derived(ctx: Initialize)
    ensures
        initialize_outcome(ctx, found_faucet_address(ctx.program_id)) matches Ok(after)
            ==> after.faucet.record is Some && faucet_address(
            ctx.program_id,
            after.faucet.record->0.bump,
        ) == Some(after.faucet.key@),
{
    lemma_search_finds_derived(FAUCET_SEED@, ctx.program_id@, HIGHEST_BUMP);
}

/// Accounts that break a constraint are refused with that constraint, before
/// any rule of the faucet is looked at, and nothing moves. So a withdrawal of
/// tokens to an account that is not the authority's own, or not in the
/// faucet's mint, never pays out.
pub proof fn law_constraints_come_first(
    exchange: ExchangeSolForTokens,
    withdraw_sol: WithdrawSol,
    withdraw_tokens: WithdrawTokens,
    derived: Option<Seq<u8>>,
    amount: u64,
)
    ensures
        exchange.constraints(derived) matches Err(e) ==> exchange_outcome(exchange, derived, amount)
            == Err::<ExchangeTransfers, CallError>(CallError::Account(e)) && after_exchange(
            exchange,
            derived,
            amount,
        ) == exchange,
        withdraw_sol.constraints(derived) matches Err(e) ==> withdraw_sol_outcome(
            withdraw_sol,
            derived,
            amount,
        ) == Err::<SolWithdrawal, CallError>(CallError::Account(e)) && after_withdraw_sol(
            withdraw_sol,
            derived,
            amount,
        ) == withdraw_sol,
        withdraw_tokens.constraints(derived) matches Err(e) ==> withdraw_tokens_outcome(
            withdraw_tokens,
            derived,
            amount,
        ) == Err::<TokenWithdrawal, CallError>(CallError::Account(e)) && after_withdraw_tokens(
            withdraw_tokens,
            derived,
            amount,
        ) == withdraw_tokens,
        withdraw_tokens_outcome(withdraw_tokens, derived, amount) is Ok ==> {
            &&& withdraw_tokens.recipient_token_account.owner == withdraw_tokens.authority
            &&& withdraw_tokens.recipient_token_account.mint == withdraw_tokens.faucet.data.token_mint
            &&& withdraw_tokens.authority == withdraw_tokens.faucet.data.authority
        },
{
}

/// An exchange that the faucet can cover moves the payment and the payout.
///
/// Given accounts that meet their constraints, the faucet's own authority, a
/// faucet token balance of at least `amount * EXCHANGE_RATE`, a user who is
/// not the faucet and holds `amount` lamports, two different token accounts,
/// and receiving balances that stay in range: the user pays `amount` lamports
/// to the faucet, and the faucet's token account pays
/// `amount * EXCHANGE_RATE` tokens to the user's.
pub proof fn law_exchange_moves_balances(
    ctx: ExchangeSolForTokens,
    derived: Option<Seq<u8>>,
    amount: u64,
)
    requires
        ctx.constraints(derived) is Ok,
        ctx.faucet.data.authority == ctx.authority,
        ctx.faucet_token_account.amount >= token_value(amount),
        ctx.user.key != ctx.faucet.key,
        ctx.user_token_account.key != ctx.faucet_token_account.key,
        ctx.user.lamports >= amount,
        ctx.faucet.lamports + amount <= u64::MAX,
        ctx.user_token_account.amount + token_value(amount) <= u64::MAX,
    ensures
        exchange_outcome(ctx, derived, amount) is Ok,
        ctx.settled(exchange_outcome(ctx, derived, amount)->Ok_0) is Ok,
        after_exchange(ctx, derived, amount).faucet.lamports == ctx.faucet.lamports + amount,
        after_exchange(ctx, derived, amount).user.lamports == ctx.user.lamports - amount,
        after_exchange(ctx, derived, amount).faucet_token_account.amount
            == ctx.faucet_token_account.amount - token_value(amount),
        after_exchange(ctx, derived, amount).user_token_account.amount
            == ctx.user_token_account.amount + token_value(amount),
{
}

/// An exchange that the faucet cannot cover fails with `InsufficientTokens`
/// and moves nothing, given accounts that meet their constraints and the
/// faucet's own authority.
pub proof fn law_uncovered_exchange_fails(
    ctx: ExchangeSolForTokens,
    derived: Option<Seq<u8>>,
    amount: u64,
)
    requires
        ctx.constraints(derived) is Ok,
        ctx.faucet.data.authority == ctx.authority,
        ctx.faucet_token_account.amount < token_value(amount),
    ensures
        exchange_outcome(ctx, derived, amount) == Err::<ExchangeTransfers, CallError>(
            CallError::Faucet(FaucetError::InsufficientTokens),
        ),
        after_exchange(ctx, derived, amount) == ctx,
{
}

/// A withdrawal of lamports by anyone but the faucet's authority fails with
/// `InvalidAuthority` and moves nothing, given accounts that meet their
/// constraint.
pub proof fn law_withdraw_sol_needs_authority(
    ctx: WithdrawSol,
    derived: Option<Seq<u8>>,
    amount: u64,
)
    requires
        ctx.constraints(derived) is Ok,
        ctx.faucet.data.authority != ctx.authority,
    ensures
        withdraw_sol_outcome(ctx, derived, amount) == Err::<SolWithdrawal, CallError>(
            CallError::Faucet(FaucetError::InvalidAuthority),
        ),
        after_withdraw_sol(ctx, derived, amount) == ctx,
{
}

/// A withdrawal of tokens by anyone but the faucet's authority fails with
/// `InvalidAuthority` and moves nothing, given accounts that meet their
/// constraints.
pub proof fn law_withdraw_tokens_needs_authority(
    ctx: WithdrawTokens,
    derived: Option<Seq<u8>>,
    amount: u64,
)
    requires
        ctx.constraints(derived) is Ok,
        ctx.faucet.data.authority != ctx.authority,
    ensures
        withdraw_tokens_outcome(ctx, derived, amount) == Err::<TokenWithdrawal, CallError>(
            CallError::Faucet(FaucetError::InvalidAuthority),
        ),
        after_withdraw_tokens(ctx, derived, amount) == ctx,
{
}

/// A withdrawal by the authority of more lamports than the faucet holds fails
/// with `InsufficientSol` and moves nothing, given accounts that meet their
/// constraint.
pub proof fn law_overdrawn_sol_fails(ctx: WithdrawSol, derived: Option<Seq<u8>>, amount: u64)
    requires
        ctx.constraints(derived) is Ok,
        ctx.faucet.data.authority == ctx.authority,
        amount > ctx.faucet.lamports,
    ensures
        withdraw_sol_outcome(ctx, derived, amount) == Err::<SolWithdrawal, CallError>(
            CallError::Faucet(FaucetError::InsufficientSol),
        ),
        after_withdraw_sol(ctx, derived, amount) == ctx,
{
}

/// No call rewrites the record or moves an account: whatever the handlers
/// answer and the host does, the faucet's record and every address stay as
/// they were.
pub proof fn law_record_is_written_once(
    exchange: ExchangeSolForTokens,
    withdraw_sol: WithdrawSol,
    withdraw_tokens: WithdrawTokens,
    derived: Option<Seq<u8>>,
    amount: u64,
)
    ensures
        after_exchange(exchange, derived, amount).faucet.data == exchange.faucet.data,
        after_exchange(exchange, derived, amount).faucet.key == exchange.faucet.key,
        after_exchange(exchange, derived, amount).user.key == exchange.user.key,
        after_exchange(exchange, derived, amount).user_token_account.key
            == exchange.user_token_account.key,
        after_exchange(exchange, derived, amount).faucet_token_account.key
            == exchange.faucet_token_account.key,
        after_withdraw_sol(withdraw_sol, derived, amount).faucet.data == withdraw_sol.faucet.data,
        after_withdraw_sol(withdraw_sol, derived, amount).faucet.key == withdraw_sol.faucet.key,
        after_withdraw_sol(withdraw_sol, derived, amount).recipient.key
            == withdraw_sol.recipient.key,
        after_withdraw_tokens(withdraw_tokens, derived, amount).faucet == withdraw_tokens.faucet,
        after_withdraw_tokens(withdraw_tokens, derived, amount).faucet_token_account.key
            == withdraw_tokens.faucet_token_account.key,
        after_withdraw_tokens(withdraw_tokens, derived, amount).recipient_token_account.key
            == withdraw_tokens.recipient_token_account.key,
{
}

/// An exchange followed by a withdrawal of tokens.
///
/// Let the exchange of `paid` lamports go through as in
/// `law_exchange_moves_balances`, and let the authority then withdraw
/// `withdrawn` tokens from the faucet as the exchange left it, with accounts
/// that meet their constraints, to a token account other than the faucet's
/// whose balance stays in range. If the faucet's token account held at least
/// `paid * EXCHANGE_RATE + withdrawn` tokens before the exchange, both calls
/// succeed and it ends with exactly that many tokens fewer, while the faucet
/// keeps the `paid` lamports.
pub proof fn law_exchange_then_withdraw_tokens(
    exchange: ExchangeSolForTokens,
    paid: u64,
    withdraw: WithdrawTokens,
    withdrawn: u64,
    derived: Option<Seq<u8>>,
)
    requires
        exchange.constraints(derived) is Ok,
        exchange.faucet.data.authority == exchange.authority,
        exchange.faucet_token_account.amount >= token_value(paid) + withdrawn,
        exchange.user.key != exchange.faucet.key,
        exchange.user_token_account.key != exchange.faucet_token_account.key,
        exchange.user.lamports >= paid,
        exchange.faucet.lamports + paid <= u64::MAX,
        exchange.user_token_account.amount + token_value(paid) <= u64::MAX,
        withdraw.constraints(derived) is Ok,
        withdraw.faucet == after_exchange(exchange, derived, paid).faucet,
        withdraw.faucet_token_account == after_exchange(exchange, derived, paid).faucet_token_account,
        withdraw.authority == withdraw.faucet.data.authority,
        withdraw.recipient_token_account.key != withdraw.faucet_token_account.key,
        withdraw.recipient_token_account.amount + withdrawn <= u64::MAX,
    ensures
        exchange_outcome(exchange, derived, paid) is Ok,
        withdraw_tokens_outcome(withdraw, derived, withdrawn) is Ok,
        withdraw.settled(withdraw_tokens_outcome(withdraw, derived, withdrawn)->Ok_0) is Ok,
        after_withdraw_tokens(withdraw, derived, withdrawn).faucet_token_account.amount
            == exchange.faucet_token_account.amount - token_value(paid) - withdrawn,
        after_withdraw_tokens(withdraw, derived, withdrawn).recipient_token_account.amount
            == withdraw.recipient_token_account.amount + withdrawn,
        after_withdraw_tokens(withdraw, derived, withdrawn).faucet.lamports
            == exchange.faucet.lamports + paid,
{
    law_exchange_moves_balances(exchange, derived, paid);
}

} // verus!
