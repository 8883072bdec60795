use faucet::{
    exchange_sol_for_tokens_at, is_address, AccountMeta, ExchangeSolForTokens, Faucet,
    FaucetAccount, Instruction, LamportTransfer, Pubkey, RecordError, SignerSeeds, SolWithdrawal,
    TokenAccount, TokenTransfer, TokenWithdrawal, Wallet, DISCRIMINATOR_LEN, FAUCET_DISCRIMINATOR,
    HIGHEST_BUMP, RECORD_LEN, SYSTEM_PROGRAM_ID, TOKEN_PROGRAM_ID,
};

fn at(tag: u8) -> Pubkey {
    Pubkey { bytes: [tag; 32] }
}

fn program() -> Pubkey {
    Pubkey {
        bytes: [
            34, 76, 111, 187, 2, 116, 251, 212, 39, 145, 250, 114, 235, 54, 251, 109, 213, 12,
            186, 14, 97, 160, 105, 64, 74, 165, 173, 29, 176, 194, 132, 249,
        ],
    }
}

fn outside(key: &Pubkey) -> anchor_lang::prelude::Pubkey {
    anchor_lang::prelude::Pubkey::new_from_array(key.bytes)
}

fn seeds() -> SignerSeeds {
    SignerSeeds { seed: *b"faucet", bump: 251 }
}

fn lamport_instruction(from: Pubkey, to: Pubkey, lamports: u64) -> Instruction {
    let withdrawal =
        SolWithdrawal { transfer: LamportTransfer { from, to, lamports }, signer: seeds() };
    let mut calls = withdrawal.calls();
    assert_eq!(calls.len(), 1);
    let call = calls.remove(0);
    assert_eq!(call.signer, Some(seeds()));
    call.instruction
}

fn token_instruction(source: Pubkey, destination: Pubkey, authority: Pubkey, amount: u64) -> Instruction {
    let withdrawal = TokenWithdrawal {
        transfer: TokenTransfer { source, destination, authority, amount },
        signer: seeds(),
    };
    let mut calls = withdrawal.calls();
    assert_eq!(calls.len(), 1);
    let call = calls.remove(0);
    assert_eq!(call.signer, Some(seeds()));
    call.instruction
}

fn record() -> Faucet {
    Faucet { authority: at(2), token_mint: at(3), token_account: at(4), bump: 251 }
}

#[test]
fn lamport_transfer_is_encoded_for_the_system_program() {
    let ix = lamport_instruction(at(1), at(2), 258);
    assert_eq!(ix.program_id.bytes, SYSTEM_PROGRAM_ID);
    assert_eq!(ix.program_id.bytes, anchor_lang::system_program::ID.to_bytes());
    assert_eq!(
        ix.accounts,
        vec![
            AccountMeta { pubkey: at(1), is_signer: true, is_writable: true },
            AccountMeta { pubkey: at(2), is_signer: false, is_writable: true },
        ]
    );
    assert_eq!(ix.data, vec![2, 0, 0, 0, 2, 1, 0, 0, 0, 0, 0, 0]);
}

#[test]
fn lamport_transfer_payload_depends_on_the_lamports_alone() {
    let one = lamport_instruction(at(1), at(2), u64::MAX);
    let other = lamport_instruction(at(7), at(8), u64::MAX);
    assert_eq!(one.data, other.data);
    assert_eq!(one.data, vec![2, 0, 0, 0, 255, 255, 255, 255, 255, 255, 255, 255]);
    let none = lamport_instruction(at(1), at(2), 0);
    assert_eq!(none.data, vec![2, 0, 0, 0, 0, 0, 0, 0, 0, 0, 0, 0]);
}

#[test]
fn token_transfer_is_encoded_for_the_token_program() {
    let ix = token_instruction(at(3), at(4), at(5), 10000);
    assert_eq!(ix.program_id.bytes, TOKEN_PROGRAM_ID);
    assert_eq!(ix.program_id.bytes, anchor_spl::token::ID.to_bytes());
    assert_eq!(
        ix.accounts,
        vec![
            AccountMeta { pubkey: at(3), is_signer: false, is_writable: true },
            AccountMeta { pubkey: at(4), is_signer: false, is_writable: true },
            AccountMeta { pubkey: at(5), is_signer: true, is_writable: false },
        ]
    );
    assert_eq!(ix.data, vec![3, 16, 39, 0, 0, 0, 0, 0, 0]);
}

#[test]
fn token_transfer_payload_is_the_tag_and_the_amount() {
    let most = token_instruction(at(3), at(4), at(5), 0x0102_0304_0506_0708);
    assert_eq!(most.data, vec![3, 8, 7, 6, 5, 4, 3, 2, 1]);
    let none = token_instruction(at(3), at(4), at(5), 0);
    assert_eq!(none.data, vec![3, 0, 0, 0, 0, 0, 0, 0, 0]);
}

#[test]
fn exchange_is_carried_out_by_two_calls() {
    let faucet = FaucetAccount { key: at(1), lamports: 0, data: record() };
    let ctx = ExchangeSolForTokens {
        program_id: program(),
        faucet,
        user: Wallet { key: at(5), lamports: 100 },
        token_mint: at(3),
        user_token_account: TokenAccount { key: at(6), mint: at(3), owner: at(5), amount: 0 },
        faucet_token_account: TokenAccount {
            key: at(4),
            mint: at(3),
            owner: at(1),
            amount: 20_000,
        },
        authority: at(2),
    };
    let transfers = exchange_sol_for_tokens_at(&ctx, &Some(at(1)), 2).unwrap();
    let mut calls = transfers.calls();
    assert_eq!(calls.len(), 2);
    let payout_call = calls.remove(1);
    let payment_call = calls.remove(0);
    assert_eq!(payment_call.signer, None);
    assert_eq!(payout_call.signer, Some(seeds()));
    let payment = payment_call.instruction;
    assert_eq!(payment.program_id.bytes, SYSTEM_PROGRAM_ID);
    assert_eq!(payment.accounts[0].pubkey, at(5));
    assert!(payment.accounts[0].is_signer);
    assert_eq!(payment.accounts[1].pubkey, at(1));
    assert_eq!(payment.data, vec![2, 0, 0, 0, 2, 0, 0, 0, 0, 0, 0, 0]);
    let payout = payout_call.instruction;
    assert_eq!(payout.program_id.bytes, TOKEN_PROGRAM_ID);
    assert_eq!(payout.accounts[0].pubkey, at(4));
    assert_eq!(payout.accounts[1].pubkey, at(6));
    assert_eq!(payout.accounts[2].pubkey, at(1));
    assert!(payout.accounts[2].is_signer);
    assert_eq!(payout.data, vec![3, 0x20, 0x4e, 0, 0, 0, 0, 0, 0]);
    assert_eq!(transfers.signer.seed, *b"faucet");
    assert_eq!(transfers.signer.bump, 251);
}

#[test]
fn faucet_address_is_derived_from_seed_bump_and_program() {
    for bump in [255u8, 254, 253, 0] {
        let derived = Faucet::derive_address(&program(), bump);
        let expected = anchor_lang::prelude::Pubkey::create_program_address(
            &[b"faucet", &[bump]],
            &outside(&program()),
        )
        .ok()
        .map(|address| address.to_bytes());
        assert_eq!(derived.map(|address| address.bytes), expected);
        if let Some(address) = derived {
            assert!(address != program());
        }
    }
}

#[test]
fn faucet_address_differs_between_programs() {
    let (here, _) = Faucet::find_address(&program()).unwrap();
    let (there, _) = Faucet::find_address(&at(9)).unwrap();
    assert!(here != there);
}

#[test]
fn search_finds_the_address_that_its_bump_derives() {
    let (address, bump) = Faucet::find_address(&program()).unwrap();
    let (expected, expected_bump) = anchor_lang::prelude::Pubkey::find_program_address(
        &[b"faucet"],
        &outside(&program()),
    );
    assert_eq!(address.bytes, expected.to_bytes());
    assert_eq!(bump, expected_bump);
    assert_eq!(Faucet::derive_address(&program(), bump), Some(address));
}

#[test]
fn search_starts_at_the_highest_bump_and_takes_the_first_that_derives() {
    assert_eq!(HIGHEST_BUMP, 255);
    for program_id in [program(), at(9), at(10), at(0)] {
        let (address, bump) = Faucet::find_address(&program_id).unwrap();
        assert!(bump >= 1);
        assert_eq!(Faucet::derive_address(&program_id, bump), Some(address));
        for higher in (bump as u16 + 1)..=255 {
            assert_eq!(Faucet::derive_address(&program_id, higher as u8), None);
        }
    }
}

#[test]
fn addresses_are_compared_with_what_was_derived() {
    assert!(is_address(&Some(at(1)), &at(1)));
    assert!(!is_address(&Some(at(1)), &at(2)));
    assert!(!is_address(&None, &at(1)));
}

#[test]
fn record_lengths_add_up() {
    assert_eq!(DISCRIMINATOR_LEN, 8);
    assert_eq!(Faucet::INIT_SPACE, 32 + 32 + 32 + 1);
    assert_eq!(RECORD_LEN, 8 + Faucet::INIT_SPACE);
    assert_eq!(RECORD_LEN, 105);
}

#[test]
fn discriminator_is_the_start_of_the_hash_of_the_record_name() {
    let hash = anchor_lang::solana_program::hash::hash(b"account:Faucet");
    assert_eq!(&FAUCET_DISCRIMINATOR[..], &hash.to_bytes()[..8]);
}

#[test]
fn record_is_written_field_by_field() {
    let bytes = record().pack();
    assert_eq!(bytes.len(), 105);
    assert_eq!(&bytes[..8], &[146, 11, 249, 142, 199, 197, 61, 0]);
    assert_eq!(&bytes[8..40], &[2u8; 32]);
    assert_eq!(&bytes[40..72], &[3u8; 32]);
    assert_eq!(&bytes[72..104], &[4u8; 32]);
    assert_eq!(bytes[104], 251);
}

#[test]
fn record_is_read_back_as_written() {
    let mut bytes = record().pack();
    assert_eq!(Faucet::unpack(&bytes), Ok(record()));
    bytes.extend_from_slice(&[9, 9, 9]);
    assert_eq!(Faucet::unpack(&bytes), Ok(record()));
}

#[test]
fn bytes_without_a_record_are_refused() {
    let bytes = record().pack();
    assert_eq!(Faucet::unpack(&[]), Err(RecordError::MissingDiscriminator));
    assert_eq!(Faucet::unpack(&bytes[..7]), Err(RecordError::MissingDiscriminator));
    assert_eq!(Faucet::unpack(&bytes[..8]), Err(RecordError::Truncated));
    assert_eq!(Faucet::unpack(&bytes[..104]), Err(RecordError::Truncated));
    let mut wrong = bytes.clone();
    wrong[7] = 1;
    assert_eq!(Faucet::unpack(&wrong), Err(RecordError::WrongDiscriminator));
    assert_eq!(Faucet::unpack(&wrong[..8]), Err(RecordError::WrongDiscriminator));
    assert_eq!(Faucet::unpack(&[0u8; 105]), Err(RecordError::WrongDiscriminator));
}
