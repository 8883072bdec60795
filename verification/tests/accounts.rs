use faucet::{
    check_lies_at, AccountError, ExchangeSolForTokens, Faucet, FaucetAccount, FaucetSlot,
    Initialize, Pubkey, TokenAccount, Wallet, WithdrawSol, WithdrawTokens,
};

fn named(tag: u8) -> Pubkey {
    Pubkey { bytes: [tag; 32] }
}

fn the_faucet() -> FaucetAccount {
    FaucetAccount {
        key: named(1),
        lamports: 0,
        data: Faucet {
            authority: named(2),
            token_mint: named(3),
            token_account: named(4),
            bump: 255,
        },
    }
}

fn derived() -> Option<Pubkey> {
    Some(named(1))
}

fn tokens(tag: u8, owner: u8) -> TokenAccount {
    TokenAccount { key: named(tag), mint: named(3), owner: named(owner), amount: 0 }
}

fn valid_exchange() -> ExchangeSolForTokens {
    ExchangeSolForTokens {
        program_id: named(10),
        faucet: the_faucet(),
        user: Wallet { key: named(5), lamports: 0 },
        token_mint: named(3),
        user_token_account: tokens(6, 5),
        faucet_token_account: tokens(4, 1),
        authority: named(2),
    }
}

fn valid_withdrawal() -> WithdrawTokens {
    WithdrawTokens {
        program_id: named(10),
        faucet: the_faucet(),
        authority: named(2),
        token_mint: named(3),
        faucet_token_account: tokens(4, 1),
        recipient_token_account: tokens(8, 2),
    }
}

#[test]
fn addresses_are_equal_when_all_bytes_are() {
    let mut bytes = [9u8; 32];
    assert!(Pubkey::new_from_array(bytes) == named(9));
    bytes[31] = 8;
    assert!(Pubkey::new_from_array(bytes) != named(9));
    bytes[31] = 9;
    bytes[0] = 8;
    assert!(Pubkey::new_from_array(bytes) != named(9));
    assert_eq!(Pubkey::new_from_array(bytes).to_bytes(), bytes);
}

#[test]
fn faucet_is_checked_against_the_address_derived() {
    assert_eq!(check_lies_at(&named(1), &Some(named(1))), Ok(()));
    assert_eq!(check_lies_at(&named(1), &Some(named(2))), Err(AccountError::AddressMismatch));
    assert_eq!(check_lies_at(&named(1), &None), Err(AccountError::AddressMismatch));
}

#[test]
fn token_account_is_checked_for_mint_then_owner() {
    let account = tokens(6, 5);
    assert_eq!(account.check_held(&named(3), &named(5)), Ok(()));
    assert_eq!(account.check_held(&named(9), &named(5)), Err(AccountError::MintMismatch));
    assert_eq!(account.check_held(&named(3), &named(9)), Err(AccountError::OwnerMismatch));
    assert_eq!(account.check_held(&named(9), &named(9)), Err(AccountError::MintMismatch));
}

#[test]
fn faucet_is_checked_for_the_mint_it_pays() {
    assert_eq!(the_faucet().check_pays(&named(3)), Ok(()));
    assert_eq!(the_faucet().check_pays(&named(9)), Err(AccountError::MintMismatch));
}

#[test]
fn initialize_accounts_are_validated_in_order() {
    let valid = Initialize {
        program_id: named(10),
        faucet: FaucetSlot { key: named(1), record: None },
        authority: named(2),
        token_mint: named(3),
        token_account: tokens(4, 1),
    };
    assert_eq!(valid.validate(&derived()), Ok(()));
    assert_eq!(valid.validate(&Some(named(9))), Err(AccountError::AddressMismatch));
    assert_eq!(valid.validate(&None), Err(AccountError::AddressMismatch));

    let mut taken = valid;
    taken.faucet.record = Some(the_faucet().data);
    assert_eq!(taken.validate(&derived()), Err(AccountError::AlreadyInitialized));
    assert_eq!(taken.validate(&None), Err(AccountError::AddressMismatch));

    let mut other_mint = valid;
    other_mint.token_mint = named(9);
    assert_eq!(other_mint.validate(&derived()), Err(AccountError::MintMismatch));

    let mut other_owner = valid;
    other_owner.token_account.owner = named(2);
    assert_eq!(other_owner.validate(&derived()), Err(AccountError::OwnerMismatch));
}

#[test]
fn exchange_accounts_are_validated_in_order() {
    assert_eq!(valid_exchange().validate(&derived()), Ok(()));
    assert_eq!(valid_exchange().validate(&None), Err(AccountError::AddressMismatch));

    let mut ctx = valid_exchange();
    ctx.faucet.data.token_mint = named(9);
    assert_eq!(ctx.validate(&derived()), Err(AccountError::MintMismatch));
    assert_eq!(ctx.validate(&Some(named(9))), Err(AccountError::AddressMismatch));

    let mut ctx = valid_exchange();
    ctx.user_token_account.mint = named(9);
    assert_eq!(ctx.validate(&derived()), Err(AccountError::MintMismatch));

    let mut ctx = valid_exchange();
    ctx.user_token_account.owner = named(9);
    assert_eq!(ctx.validate(&derived()), Err(AccountError::OwnerMismatch));

    let mut ctx = valid_exchange();
    ctx.faucet_token_account.mint = named(9);
    assert_eq!(ctx.validate(&derived()), Err(AccountError::MintMismatch));

    let mut ctx = valid_exchange();
    ctx.faucet_token_account.owner = named(5);
    assert_eq!(ctx.validate(&derived()), Err(AccountError::OwnerMismatch));

    let mut ctx = valid_exchange();
    ctx.user_token_account.owner = named(9);
    ctx.faucet_token_account.mint = named(9);
    assert_eq!(ctx.validate(&derived()), Err(AccountError::OwnerMismatch));
}

#[test]
fn exchange_accounts_need_not_name_the_recorded_token_account() {
    let mut ctx = valid_exchange();
    ctx.faucet_token_account.key = named(77);
    assert_eq!(ctx.validate(&derived()), Ok(()));
}

#[test]
fn withdrawal_of_lamports_needs_the_faucet_at_its_address() {
    let ctx = WithdrawSol {
        program_id: named(10),
        faucet: the_faucet(),
        authority: named(2),
        recipient: Wallet { key: named(7), lamports: 0 },
    };
    assert_eq!(ctx.validate(&derived()), Ok(()));
    assert_eq!(ctx.validate(&Some(named(7))), Err(AccountError::AddressMismatch));
    assert_eq!(ctx.validate(&None), Err(AccountError::AddressMismatch));
}

#[test]
fn withdrawal_accounts_are_validated_in_order() {
    assert_eq!(valid_withdrawal().validate(&derived()), Ok(()));
    assert_eq!(valid_withdrawal().validate(&None), Err(AccountError::AddressMismatch));

    let mut ctx = valid_withdrawal();
    ctx.token_mint = named(9);
    assert_eq!(ctx.validate(&derived()), Err(AccountError::MintMismatch));

    let mut ctx = valid_withdrawal();
    ctx.faucet_token_account.owner = named(2);
    assert_eq!(ctx.validate(&derived()), Err(AccountError::OwnerMismatch));

    let mut ctx = valid_withdrawal();
    ctx.recipient_token_account.mint = named(9);
    assert_eq!(ctx.validate(&derived()), Err(AccountError::MintMismatch));

    let mut ctx = valid_withdrawal();
    ctx.recipient_token_account.owner = named(5);
    assert_eq!(ctx.validate(&derived()), Err(AccountError::OwnerMismatch));
}
