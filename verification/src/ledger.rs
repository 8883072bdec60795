//! What the transfers do to balances once the host has carried them out.
//!
//! A transfer names its two accounts by address, so its effect on an account
//! depends only on that account's address and balance. The host carries out
//! the transfers of one call together or not at all.

use crate::accounts::{
    ExchangeSolForTokens, FaucetAccount, TokenAccount, Wallet, WithdrawSol, WithdrawTokens,
};
use crate::processor::{ExchangeTransfers, SolWithdrawal, TokenWithdrawal};
use crate::pubkey::Pubkey;
use crate::transfer::{LamportTransfer, TokenTransfer};
use vstd::prelude::*;

verus! {

/// Why the host cannot carry out a transfer.
#[derive(Clone, Copy, Debug, PartialEq, Eq, Structural)]
pub enum TransferError {
    /// The paying account holds less than the transfer moves.
    InsufficientFunds,
    /// The receiving account's balance would leave the range of a balance.
    Overflow,
}

/// What account `key` pays when `amount` moves out of `from`.
pub open spec fn debit(key: Pubkey, from: Pubkey, amount: u64) -> int {
    if key == from {
        amount as int
    } else {
        0
    }
}

/// What account `key` receives when `amount` moves into `to`.
pub open spec fn credit(key: Pubkey, to: Pubkey, amount: u64) -> int {
    if key == to {
        amount as int
    } else {
        0
    }
}

/// The balance of account `key`, which held `balance`, after `amount` has
/// moved from `from` to `to`: first what it pays is taken, then what it
/// receives is added.
pub open spec fn balance_after(key: Pubkey, balance: u64, from: Pubkey, to: Pubkey, amount: u64)
    -> Result<u64, TransferError> {
    if balance < debit(key, from, amount) {
        Err(TransferError::InsufficientFunds)
    } else if balance - debit(key, from, amount) + credit(key, to, amount) > u64::MAX {
        Err(TransferError::Overflow)
    } else {
        Ok((balance - debit(key, from, amount) + credit(key, to, amount)) as u64)
    }
}

/// Computes the balance of account `key` after `amount` has moved from `from`
/// to `to`.
pub fn settle_balance(key: &Pubkey, balance: u64, from: &Pubkey, to: &Pubkey, amount: u64) -> (after:
    Result<u64, TransferError>)
    ensures
        after == balance_after(*key, balance, *from, *to, amount),
{
    let mut left: u64 = balance;
    if *key == *from {
        if left < amount {
            return Err(TransferError::InsufficientFunds);
        }
        left = left - amount;
    }
    if *key == *to {
        match left.checked_add(amount) {
            Some(sum) => {
                left = sum;
            },
            None => {
                return Err(TransferError::Overflow);
            },
        }
    }
    Ok(left)
}

impl LamportTransfer {
    /// The lamports of account `key` after this transfer.
    pub open spec fn lamports_after(self, key: Pubkey, lamports: u64) -> Result<u64, TransferError> {
        balance_after(key, lamports, self.from, self.to, self.lamports)
    }

    /// Computes the lamports of account `key` after this transfer.
    pub fn settle(&self, key: &Pubkey, lamports: u64) -> (after: Result<u64, TransferError>)
        ensures
            after == self.lamports_after(*key, lamports),
    {
        settle_balance(key, lamports, &self.from, &self.to, self.lamports)
    }
}

impl TokenTransfer {
    /// The tokens of token account `key` after this transfer.
    pub open spec fn amount_after(self, key: Pubkey, amount: u64) -> Result<u64, TransferError> {
        balance_after(key, amount, self.source, self.destination, self.amount)
    }

    /// Computes the tokens of token account `key` after this transfer.
    pub fn settle(&self, key: &Pubkey, amount: u64) -> (after: Result<u64, TransferError>)
        ensures
            after == self.amount_after(*key, amount),
    {
        settle_balance(key, amount, &self.source, &self.destination, self.amount)
    }
}

impl ExchangeSolForTokens {
    /// The accounts with the four balances given and all else unchanged.
    pub open spec fn with_balances(
        self,
        user_lamports: u64,
        faucet_lamports: u64,
        faucet_tokens: u64,
        user_tokens: u64,
    ) -> ExchangeSolForTokens {
        ExchangeSolForTokens {
            user: Wallet { lamports: user_lamports, ..self.user },
            faucet: FaucetAccount { lamports: faucet_lamports, ..self.faucet },
            faucet_token_account: TokenAccount {
                amount: faucet_tokens,
                ..self.faucet_token_account
            },
            user_token_account: TokenAccount {
                amount: user_tokens,
                ..self.user_token_account
            },
            ..self
        }
    }

    /// The accounts after the host has carried out `transfers`, or the first
    /// reason for which it cannot: the payment is looked at before the
    /// payout, and the paying account of each before the receiving one.
    pub open spec fn settled(self, transfers: ExchangeTransfers) -> Result<
        ExchangeSolForTokens,
        TransferError,
    > {
        let paid = transfers.payment.lamports_after(self.user.key, self.user.lamports);
        let kept = transfers.payment.lamports_after(self.faucet.key, self.faucet.lamports);
        let given = transfers.payout.amount_after(
            self.faucet_token_account.key,
            self.faucet_token_account.amount,
        );
        let got = transfers.payout.amount_after(
            self.user_token_account.key,
            self.user_token_account.amount,
        );
        if paid is Err {
            Err(paid->Err_0)
        } else if kept is Err {
            Err(kept->Err_0)
        } else if given is Err {
            Err(given->Err_0)
        } else if got is Err {
            Err(got->Err_0)
        } else {
            Ok(self.with_balances(paid->Ok_0, kept->Ok_0, given->Ok_0, got->Ok_0))
        }
    }

    /// Updates the balances as the host does when it carries out `transfers`.
    /// If it cannot, nothing changes.
    pub fn settle(&mut self, transfers: &ExchangeTransfers) -> (done: Result<(), TransferError>)
        ensures
            match old(self).settled(*transfers) {
                Ok(after) => done == Ok::<(), TransferError>(()) && *final(self) == after,
                Err(e) => done == Err::<(), TransferError>(e) && *final(self) == *old(self),
            },
    {
        let paid = transfers.payment.settle(&self.user.key, self.user.lamports)?;
        let kept = transfers.payment.settle(&self.faucet.key, self.faucet.lamports)?;
        let given = transfers.payout.settle(
            &self.faucet_token_account.key,
            self.faucet_token_account.amount,
        )?;
        let got = transfers.payout.settle(
            &self.user_token_account.key,
            self.user_token_account.amount,
        )?;
        self.user.lamports = paid;
        self.faucet.lamports = kept;
        self.faucet_token_account.amount = given;
        self.user_token_account.amount = got;
        Ok(())
    }
}

impl WithdrawSol {
    /// The accounts with the two balances given and all else unchanged.
    pub open spec fn with_balances(self, faucet_lamports: u64, recipient_lamports: u64)
        -> WithdrawSol {
        WithdrawSol {
            faucet: FaucetAccount { lamports: faucet_lamports, ..self.faucet },
            recipient: Wallet { lamports: recipient_lamports, ..self.recipient },
            ..self
        }
    }

    /// The accounts after the host has carried out `withdrawal`, or the first
    /// reason for which it cannot; the faucet is looked at first.
    pub open spec fn settled(self, withdrawal: SolWithdrawal) -> Result<WithdrawSol, TransferError> {
        let left = withdrawal.transfer.lamports_after(self.faucet.key, self.faucet.lamports);
        let got = withdrawal.transfer.lamports_after(self.recipient.key, self.recipient.lamports);
        if left is Err {
            Err(left->Err_0)
        } else if got is Err {
            Err(got->Err_0)
        } else {
            Ok(self.with_balances(left->Ok_0, got->Ok_0))
        }
    }

    /// Updates the balances as the host does when it carries out
    /// `withdrawal`. If it cannot, nothing changes.
    pub fn settle(&mut self, withdrawal: &SolWithdrawal) -> (done: Result<(), TransferError>)
        ensures
            match old(self).settled(*withdrawal) {
                Ok(after) => done == Ok::<(), TransferError>(()) && *final(self) == after,
                Err(e) => done == Err::<(), TransferError>(e) && *final(self) == *old(self),
            },
    {
        let left = withdrawal.transfer.settle(&self.faucet.key, self.faucet.lamports)?;
        let got = withdrawal.transfer.settle(&self.recipient.key, self.recipient.lamports)?;
        self.faucet.lamports = left;
        self.recipient.lamports = got;
        Ok(())
    }
}

impl WithdrawTokens {
    /// The accounts with the two balances given and all else unchanged.
    pub open spec fn with_balances(self, faucet_tokens: u64, recipient_tokens: u64)
        -> WithdrawTokens {
        WithdrawTokens {
            faucet_token_account: TokenAccount {
                amount: faucet_tokens,
                ..self.faucet_token_account
            },
            recipient_token_account: TokenAccount {
                amount: recipient_tokens,
                ..self.recipient_token_account
            },
            ..self
        }
    }

    /// The accounts after the host has carried out `withdrawal`, or the first
    /// reason for which it cannot; the faucet's token account is looked at
    /// first.
    pub open spec fn settled(self, withdrawal: TokenWithdrawal) -> Result<
        WithdrawTokens,
        TransferError,
    > {
        let left = withdrawal.transfer.amount_after(
            self.faucet_token_account.key,
            self.faucet_token_account.amount,
        );
        let got = withdrawal.transfer.amount_after(
            self.recipient_token_account.key,
            self.recipient_token_account.amount,
        );
        if left is Err {
            Err(left->Err_0)
        } else if got is Err {
            Err(got->Err_0)
        } else {
            Ok(self.with_balances(left->Ok_0, got->Ok_0))
        }
    }

    /// Updates the balances as the host does when it carries out
    /// `withdrawal`. If it cannot, nothing changes.
    pub fn settle(&mut self, withdrawal: &TokenWithdrawal) -> (done: Result<(), TransferError>)
        ensures
            match old(self).settled(*withdrawal) {
                Ok(after) => done == Ok::<(), TransferError>(()) && *final(self) == after,
                Err(e) => done == Err::<(), TransferError>(e) && *final(self) == *old(self),
            },
    {
        let left = withdrawal.transfer.settle(
            &self.faucet_token_account.key,
            self.faucet_token_account.amount,
        )?;
        let got = withdrawal.transfer.settle(
            &self.recipient_token_account.key,
            self.recipient_token_account.amount,
        )?;
        self.faucet_token_account.amount = left;
        self.recipient_token_account.amount = got;
        Ok(())
    }
}

} // verus!
