//! The faucet's persistent record and the errors its handlers report.

use crate::pubkey::Pubkey;
use vstd::prelude::*;

verus! {

/// Tokens paid out for each lamport received.
pub const EXCHANGE_RATE: u64 = 10000;

/// The fixed seed of the faucet's derived address: the ASCII bytes of `faucet`.
pub const FAUCET_SEED: [u8; 6] = [102, 97, 117, 99, 101, 116];

/// The single persistent record of a deployment. All four fields are written
/// once, when the faucet is initialized, and never change afterwards.
#[derive(Clone, Copy, Debug, PartialEq, Eq)]
pub struct Faucet {
    /// The account allowed to withdraw from the faucet.
    pub authority: Pubkey,
    /// The token that the faucet pays out.
    pub token_mint: Pubkey,
    /// The token account, owned by the faucet's address, that holds the supply.
    pub token_account: Pubkey,
    /// The nonce that, together with [`FAUCET_SEED`], gives the faucet's address.
    pub bump: u8,
}

/// The seeds with which the faucet signs for its own derived address.
#[derive(Clone, Copy, Debug, PartialEq, Eq)]
pub struct SignerSeeds {
    pub seed: [u8; 6],
    pub bump: u8,
}

impl Faucet {
    /// The seeds under which this faucet signs: the fixed seed and its bump.
    pub open spec fn spec_signer_seeds(&self) -> SignerSeeds {
        SignerSeeds { seed: FAUCET_SEED, bump: self.bump }
    }

    /// The seeds under which this faucet signs: the fixed seed and its bump.
    #[verifier::when_used_as_spec(spec_signer_seeds)]
    pub fn signer_seeds(&self) -> (seeds: SignerSeeds)
        ensures
            seeds == self.spec_signer_seeds(),
    {
        SignerSeeds { seed: FAUCET_SEED, bump: self.bump }
    }
}

/// Why a handler refused a call.
#[derive(Clone, Copy, Debug, PartialEq, Eq, Structural)]
pub enum FaucetError {
    /// The authority given does not match the one stored in the record.
    InvalidAuthority,
    /// The faucet's token account holds fewer tokens than the call needs.
    InsufficientTokens,
    /// The faucet holds fewer lamports than the call asks for.
    InsufficientSol,
}

impl FaucetError {
    /// The text shown to the caller for this error.
    pub fn message(&self) -> (text: String)
        ensures
            text@ == match *self {
                FaucetError::InvalidAuthority => "Invalid authority"@,
                FaucetError::InsufficientTokens => "Insufficient tokens in faucet"@,
                FaucetError::InsufficientSol => "Insufficient SOL in faucet"@,
            },
    {
        match self {
            FaucetError::InvalidAuthority => "Invalid authority".to_string(),
            FaucetError::InsufficientTokens => "Insufficient tokens in faucet".to_string(),
            FaucetError::InsufficientSol => "Insufficient SOL in faucet".to_string(),
        }
    }
}

} // verus!
