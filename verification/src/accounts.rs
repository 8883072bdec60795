//! The accounts that each handler is called with, as plain values, and the
//! constraints that tie them together.

use crate::address::{address_bytes, is_address};
use crate::pubkey::Pubkey;
use crate::state::Faucet;
use vstd::prelude::*;

verus! {

/// The constraint that a set of accounts breaks.
#[derive(Clone, Copy, Debug, PartialEq, Eq, Structural)]
pub enum AccountError {
    /// The faucet's account does not lie at the address that its seeds derive
    /// for the program.
    AddressMismatch,
    /// A faucet record already exists at the faucet's address.
    AlreadyInitialized,
    /// An account is denominated in another token than the one expected.
    MintMismatch,
    /// A token account is owned by another account than the one expected.
    OwnerMismatch,
}

/// An account that holds lamports and nothing else.
#[derive(Clone, Copy, Debug, PartialEq, Eq)]
pub struct Wallet {
    pub key: Pubkey,
    pub lamports: u64,
}

/// An account that holds a balance of one token for one owner.
#[derive(Clone, Copy, Debug, PartialEq, Eq)]
pub struct TokenAccount {
    pub key: Pubkey,
    pub mint: Pubkey,
    pub owner: Pubkey,
    pub amount: u64,
}

/// The faucet's own account: its derived address, the lamports it has
/// collected, and its record.
#[derive(Clone, Copy, Debug, PartialEq, Eq)]
pub struct FaucetAccount {
    pub key: Pubkey,
    pub lamports: u64,
    pub data: Faucet,
}

/// The faucet's address before and after initialization: `record` is `None`
/// until a faucet has been created there.
#[derive(Clone, Copy, Debug, PartialEq, Eq)]
pub struct FaucetSlot {
    pub key: Pubkey,
    pub record: Option<Faucet>,
}

/// Accounts of `initialize`.
#[derive(Clone, Copy, Debug, PartialEq, Eq)]
pub struct Initialize {
    /// The address of the program that is called.
    pub program_id: Pubkey,
    pub faucet: FaucetSlot,
    /// Signs the call, pays for the record and becomes the faucet's authority.
    pub authority: Pubkey,
    pub token_mint: Pubkey,
    /// The token account that will hold the faucet's supply.
    pub token_account: TokenAccount,
}

/// Accounts of `exchange_sol_for_tokens`.
#[derive(Clone, Copy, Debug, PartialEq, Eq)]
pub struct ExchangeSolForTokens {
    /// The address of the program that is called.
    pub program_id: Pubkey,
    pub faucet: FaucetAccount,
    /// Signs the call and pays the lamports.
    pub user: Wallet,
    pub token_mint: Pubkey,
    pub user_token_account: TokenAccount,
    pub faucet_token_account: TokenAccount,
    /// The account presented as the faucet's authority. It does not sign.
    pub authority: Pubkey,
}

/// Accounts of `withdraw_sol`.
#[derive(Clone, Copy, Debug, PartialEq, Eq)]
pub struct WithdrawSol {
    /// The address of the program that is called.
    pub program_id: Pubkey,
    pub faucet: FaucetAccount,
    /// Signs the call.
    pub authority: Pubkey,
    pub recipient: Wallet,
}

/// Accounts of `withdraw_tokens`.
#[derive(Clone, Copy, Debug, PartialEq, Eq)]
pub struct WithdrawTokens {
    /// The address of the program that is called.
    pub program_id: Pubkey,
    pub faucet: FaucetAccount,
    /// Signs the call.
    pub authority: Pubkey,
    pub token_mint: Pubkey,
    pub faucet_token_account: TokenAccount,
    pub recipient_token_account: TokenAccount,
}

/// The first of two checks that fails, or `Ok`.
pub open spec fn both(first: Result<(), AccountError>, second: Result<(), AccountError>) -> Result<
    (),
    AccountError,
> {
    if first is Err {
        first
    } else {
        second
    }
}

impl TokenAccount {
    /// `Ok` if the account is denominated in `mint` and owned by `owner`;
    /// the mint is looked at first.
    pub open spec fn held(self, mint: Pubkey, owner: Pubkey) -> Result<(), AccountError> {
        if self.mint != mint {
            Err(AccountError::MintMismatch)
        } else if self.owner != owner {
            Err(AccountError::OwnerMismatch)
        } else {
            Ok(())
        }
    }

    /// Checks that the account is denominated in `mint` and owned by `owner`.
    pub fn check_held(&self, mint: &Pubkey, owner: &Pubkey) -> (checked: Result<(), AccountError>)
        ensures
            checked == self.held(*mint, *owner),
    {
        if self.mint != *mint {
            Err(AccountError::MintMismatch)
        } else if self.owner != *owner {
            Err(AccountError::OwnerMismatch)
        } else {
            Ok(())
        }
    }
}

/// `Ok` if `derived`, the address that the faucet's seeds derive, is `key`.
pub open spec fn lies_at(key: Pubkey, derived: Option<Seq<u8>>) -> Result<(), AccountError> {
    if derived != Some(key@) {
        Err(AccountError::AddressMismatch)
    } else {
        Ok(())
    }
}

/// Checks that `derived`, the address that the faucet's seeds derive, is
/// `key`.
pub fn check_lies_at(key: &Pubkey, derived: &Option<Pubkey>) -> (checked: Result<(), AccountError>)
    ensures
        checked == lies_at(*key, address_bytes(*derived)),
{
    if is_address(derived, key) {
        Ok(())
    } else {
        Err(AccountError::AddressMismatch)
    }
}

impl FaucetAccount {
    /// `Ok` if the faucet pays out `mint`.
    pub open spec fn pays(self, mint: Pubkey) -> Result<(), AccountError> {
        if self.data.token_mint != mint {
            Err(AccountError::MintMismatch)
        } else {
            Ok(())
        }
    }

    /// Checks that the faucet pays out `mint`.
    pub fn check_pays(&self, mint: &Pubkey) -> (checked: Result<(), AccountError>)
        ensures
            checked == self.pays(*mint),
    {
        if self.data.token_mint != *mint {
            Err(AccountError::MintMismatch)
        } else {
            Ok(())
        }
    }
}

impl Initialize {
    /// The constraints on the accounts of `initialize`, in the order in which
    /// they are checked, where `derived` is the address that a search finds
    /// for the faucet: the faucet is to be created at that address; no record
    /// exists there yet; and the token account is denominated in the mint and
    /// owned by that address.
    pub open spec fn constraints(self, derived: Option<Seq<u8>>) -> Result<(), AccountError> {
        both(
            lies_at(self.faucet.key, derived),
            if self.faucet.record is Some {
                Err(AccountError::AlreadyInitialized)
            } else {
                self.token_account.held(self.token_mint, self.faucet.key)
            },
        )
    }

    /// Checks the constraints and reports the first that fails.
    pub fn validate(&self, derived: &Option<Pubkey>) -> (checked: Result<(), AccountError>)
        ensures
            checked == self.constraints(address_bytes(*derived)),
    {
        check_lies_at(&self.faucet.key, derived)?;
        if self.faucet.record.is_some() {
            Err(AccountError::AlreadyInitialized)
        } else {
            self.token_account.check_held(&self.token_mint, &self.faucet.key)
        }
    }
}

impl ExchangeSolForTokens {
    /// The constraints on the accounts of `exchange_sol_for_tokens`, in the
    /// order in which they are checked, where `derived` is the address that
    /// the record's bump derives: the faucet lies at that address and pays out
    /// the mint; the user's token account is in that mint and owned by the
    /// user; the faucet's token account is in that mint and owned by the
    /// faucet.
    pub open spec fn constraints(self, derived: Option<Seq<u8>>) -> Result<(), AccountError> {
        both(
            lies_at(self.faucet.key, derived),
            both(
                self.faucet.pays(self.token_mint),
                both(
                    self.user_token_account.held(self.token_mint, self.user.key),
                    self.faucet_token_account.held(self.token_mint, self.faucet.key),
                ),
            ),
        )
    }

    /// Checks the constraints and reports the first that fails.
    pub fn validate(&self, derived: &Option<Pubkey>) -> (checked: Result<(), AccountError>)
        ensures
            checked == self.constraints(address_bytes(*derived)),
    {
        check_lies_at(&self.faucet.key, derived)?;
        self.faucet.check_pays(&self.token_mint)?;
        self.user_token_account.check_held(&self.token_mint, &self.user.key)?;
        self.faucet_token_account.check_held(&self.token_mint, &self.faucet.key)
    }
}

impl WithdrawSol {
    /// The constraint on the accounts of `withdraw_sol`, where `derived` is
    /// the address that the record's bump derives: the faucet lies at that
    /// address.
    pub open spec fn constraints(self, derived: Option<Seq<u8>>) -> Result<(), AccountError> {
        lies_at(self.faucet.key, derived)
    }

    /// Checks the constraint.
    pub fn validate(&self, derived: &Option<Pubkey>) -> (checked: Result<(), AccountError>)
        ensures
            checked == self.constraints(address_bytes(*derived)),
    {
        check_lies_at(&self.faucet.key, derived)
    }
}

impl WithdrawTokens {
    /// The constraints on the accounts of `withdraw_tokens`, in the order in
    /// which they are checked, where `derived` is the address that the
    /// record's bump derives: the faucet lies at that address and pays out the
    /// mint; the faucet's token account is in that mint and owned by the
    /// faucet; the recipient's token account is in that mint and owned by the
    /// authority.
    pub open spec fn constraints(self, derived: Option<Seq<u8>>) -> Result<(), AccountError> {
        both(
            lies_at(self.faucet.key, derived),
            both(
                self.faucet.pays(self.token_mint),
                both(
                    self.faucet_token_account.held(self.token_mint, self.faucet.key),
                    self.recipient_token_account.held(self.token_mint, self.authority),
                ),
            ),
        )
    }

    /// Checks the constraints and reports the first that fails.
    pub fn validate(&self, derived: &Option<Pubkey>) -> (checked: Result<(), AccountError>)
        ensures
            checked == self.constraints(address_bytes(*derived)),
    {
        check_lies_at(&self.faucet.key, derived)?;
        self.faucet.check_pays(&self.token_mint)?;
        self.faucet_token_account.check_held(&self.token_mint, &self.faucet.key)?;
        self.recipient_token_account.check_held(&self.token_mint, &self.authority)
    }
}

} // verus!
