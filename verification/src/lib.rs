//! A fixed-rate token faucet: users pay lamports and receive tokens at a
//! constant rate, and the faucet's authority can withdraw either asset.

pub mod accounts;
pub mod address;
pub mod laws;
pub mod layout;
pub mod ledger;
pub mod processor;
pub mod pubkey;
pub mod state;
pub mod transfer;

pub use address::{is_address, HIGHEST_BUMP};
pub use accounts::{
    check_lies_at, AccountError, ExchangeSolForTokens, FaucetAccount, FaucetSlot, Initialize,
    TokenAccount, Wallet, WithdrawSol, WithdrawTokens,
};
pub use processor::{
    exchange_sol_for_tokens, exchange_sol_for_tokens_at, initialize, initialize_at, withdraw_sol,
    withdraw_sol_at, withdraw_tokens, withdraw_tokens_at, CallError, ExchangeTransfers,
    SolWithdrawal, TokenWithdrawal,
};
pub use layout::{RecordError, DISCRIMINATOR_LEN, FAUCET_DISCRIMINATOR, RECORD_LEN};
pub use ledger::{settle_balance, TransferError};
pub use pubkey::Pubkey;
pub use state::{Faucet, FaucetError, SignerSeeds, EXCHANGE_RATE, FAUCET_SEED};
pub use transfer::{
    AccountMeta, Call, Instruction, LamportTransfer, TokenTransfer, SYSTEM_PROGRAM_ID,
    TOKEN_PROGRAM_ID,
};
