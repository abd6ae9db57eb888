//! Token accounts and token programs, held against the token program's own
//! code.
use fundraiser::custody::AccountRole;
use fundraiser::error::FundraiserError;
use fundraiser::outcome::Transfer;
use fundraiser::token::{is_recognised_registry, TokenBalance, TOKEN_ACCOUNT_BYTES};
use solana_program::program_option::COption;
use solana_program::program_pack::Pack;
use solana_program::pubkey::Pubkey;
use spl_token::state::{Account as TokenAccount, AccountState};

fn packed(account: TokenAccount) -> Vec<u8> {
    let mut data = vec![0u8; TokenAccount::LEN];
    account.pack_into_slice(&mut data);
    data
}

fn plain(amount: u64) -> TokenAccount {
    TokenAccount {
        mint: Pubkey::new_from_array([4; 32]),
        owner: Pubkey::new_from_array([2; 32]),
        amount,
        delegate: COption::None,
        state: AccountState::Initialized,
        is_native: COption::None,
        delegated_amount: 0,
        close_authority: COption::None,
    }
}

#[test]
fn token_account_has_165_bytes() {
    assert_eq!(TOKEN_ACCOUNT_BYTES, TokenAccount::LEN);
}

#[test]
fn balance_is_read_from_the_head_of_a_token_account() {
    let balance = TokenBalance::unpack(&packed(plain(2_000_000_000))).unwrap();
    assert_eq!(
        balance,
        TokenBalance { mint: [4; 32], owner: [2; 32], amount: 2_000_000_000 }
    );
    let mut raw = packed(plain(0));
    raw[64..72].copy_from_slice(&[1, 2, 3, 4, 5, 6, 7, 8]);
    assert_eq!(TokenBalance::unpack(&raw).unwrap().amount, 0x0807_0605_0403_0201);
}

#[test]
fn frozen_and_delegated_accounts_are_read_too() {
    let mut account = plain(77);
    account.state = AccountState::Frozen;
    account.delegate = COption::Some(Pubkey::new_from_array([8; 32]));
    account.delegated_amount = 5;
    account.is_native = COption::Some(890_880);
    account.close_authority = COption::Some(Pubkey::new_from_array([9; 32]));
    assert_eq!(TokenBalance::unpack(&packed(account)).unwrap().amount, 77);
}

#[test]
fn what_the_token_program_rejects_is_no_balance() {
    let good = packed(plain(1));
    let mut cases: Vec<Vec<u8>> =
        vec![vec![], good[..164].to_vec(), [good.clone(), vec![0]].concat()];
    for (at, value) in [
        (108usize, 0u8),
        (108, 3),
        (108, 255),
        (72, 2),
        (73, 1),
        (74, 1),
        (75, 1),
        (109, 2),
        (110, 1),
        (111, 1),
        (112, 1),
        (129, 2),
        (130, 1),
        (131, 1),
        (132, 1),
    ] {
        let mut data = good.clone();
        data[at] = value;
        cases.push(data);
    }
    for data in cases {
        assert!(TokenAccount::unpack(&data).is_err());
        assert_eq!(TokenBalance::unpack(&data), Err(FundraiserError::InvalidTokenAccount));
    }
}

#[test]
fn unpacking_agrees_with_the_token_program_byte_by_byte() {
    let good = packed(plain(123_456_789));
    for at in 0..good.len() {
        for value in [0u8, 1, 2, 255] {
            let mut data = good.clone();
            data[at] = value;
            match (TokenAccount::unpack(&data), TokenBalance::unpack(&data)) {
                (Ok(theirs), Ok(ours)) => {
                    assert_eq!(ours.mint, theirs.mint.to_bytes());
                    assert_eq!(ours.owner, theirs.owner.to_bytes());
                    assert_eq!(ours.amount, theirs.amount);
                }
                (Err(_), Err(error)) => assert_eq!(error, FundraiserError::InvalidTokenAccount),
                (theirs, ours) => panic!("byte {at} = {value}: {theirs:?} but {ours:?}"),
            }
        }
    }
}

#[test]
fn the_two_token_programs_are_recognised_and_no_other() {
    assert!(is_recognised_registry(&spl_token::id().to_bytes()));
    assert!(is_recognised_registry(&spl_token_2022::id().to_bytes()));
    assert_eq!(
        spl_token::id().to_bytes(),
        [
            6, 221, 246, 225, 215, 101, 161, 147, 217, 203, 225, 70, 206, 235, 121, 172, 28, 180,
            133, 237, 95, 91, 55, 145, 58, 140, 245, 133, 126, 255, 0, 169
        ]
    );
    assert_eq!(
        spl_token_2022::id().to_bytes(),
        [
            6, 221, 246, 225, 238, 117, 143, 222, 24, 66, 93, 188, 228, 108, 205, 218, 182, 26,
            252, 77, 131, 185, 13, 39, 254, 189, 249, 40, 216, 161, 139, 252
        ]
    );
    assert!(!is_recognised_registry(&[0; 32]));
    assert!(!is_recognised_registry(&[6; 32]));
    let mut near = spl_token::id().to_bytes();
    near[31] ^= 1;
    assert!(!is_recognised_registry(&near));
}

#[test]
fn transfer_instruction_is_the_token_programs() {
    let transfer = Transfer {
        source: [3; 32],
        destination: [5; 32],
        authority: [2; 32],
        amount: 300_000,
        seeds: None,
    };
    let built = transfer.instruction(&spl_token::id().to_bytes()).unwrap();
    assert_eq!(built.program, spl_token::id().to_bytes());
    assert_eq!(built.data, [vec![3], 300_000u64.to_le_bytes().to_vec()].concat());
    assert_eq!(
        built.accounts,
        vec![
            AccountRole { key: [3; 32], is_signer: false, is_writable: true },
            AccountRole { key: [5; 32], is_signer: false, is_writable: true },
            AccountRole { key: [2; 32], is_signer: true, is_writable: false },
        ]
    );
    let theirs = spl_token::instruction::transfer(
        &spl_token::id(),
        &Pubkey::new_from_array([3; 32]),
        &Pubkey::new_from_array([5; 32]),
        &Pubkey::new_from_array([2; 32]),
        &[],
        300_000,
    )
    .unwrap();
    assert_eq!(built.data, theirs.data);
    assert_eq!(built.accounts.len(), theirs.accounts.len());
}

#[test]
fn only_the_token_program_is_asked_to_transfer() {
    let transfer = Transfer {
        source: [3; 32],
        destination: [5; 32],
        authority: [2; 32],
        amount: 1,
        seeds: None,
    };
    assert_eq!(
        transfer.instruction(&[0; 32]).err(),
        Some(FundraiserError::InvalidAssetRegistry)
    );
    assert_eq!(
        transfer.instruction(&spl_token_2022::id().to_bytes()).err(),
        Some(FundraiserError::InvalidAssetRegistry)
    );
}
