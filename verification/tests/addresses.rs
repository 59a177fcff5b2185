use std::str::FromStr;

use anchor_lang::solana_program::pubkey::Pubkey as ChainPubkey;
use lb_positions::pda::{
    bin_id_to_bin_array_index, derive_bin_array_bitmap_extension, derive_bin_array_pda,
    derive_event_authority_pda, find_metadata_pda, find_program_address,
    get_associated_token_address, get_bin_arrays_for_pair, BIN_ARRAY_BITMAP_SEED, BIN_ARRAY_SEED,
    EVENT_AUTHORITY_SEED, MAX_BIN_PER_ARRAY, METADATA_SEED,
};
use lb_positions::pubkey::{
    array_to_vec, associated_token_program, compute_budget_program, lb_clmm_program, rent_sysvar,
    system_program, token_metadata_program, token_program, wrapped_native_mint, Pubkey,
};

fn key(fill: u8) -> Pubkey {
    let mut bytes = [fill; 32];
    bytes[0] = fill.wrapping_mul(7).wrapping_add(1);
    bytes[31] = fill.wrapping_add(3);
    Pubkey::new_from_array(bytes)
}

fn chain(key: &Pubkey) -> ChainPubkey {
    ChainPubkey::new_from_array(key.to_bytes())
}

#[test]
fn program_addresses_match_their_text() {
    let cases = [
        (lb_clmm_program(), "LBUZKhRxPF3XUpBCjp4YzTKgLccjZhTSDM9YuVaPwxo"),
        (token_program(), "TokenkegQfeZyiNwAJbNbGKPFXCWuBvf9Ss623VQ5DA"),
        (associated_token_program(), "ATokenGPvbdGVxr1b2hvZbsiqW5xWH25efTNsLJA8knL"),
        (token_metadata_program(), "metaqbxxUerdq28cj1RbAWkYQm3ybzjb6a8bt518x1s"),
        (compute_budget_program(), "ComputeBudget111111111111111111111111111111"),
        (system_program(), "11111111111111111111111111111111"),
        (rent_sysvar(), "SysvarRent111111111111111111111111111111111"),
        (wrapped_native_mint(), "So11111111111111111111111111111111111111112"),
    ];
    for (key, text) in cases {
        assert_eq!(chain(&key), ChainPubkey::from_str(text).unwrap(), "{}", text);
    }
}

#[test]
fn program_addresses_match_the_runtime_crates() {
    assert_eq!(chain(&token_program()), anchor_spl::token::ID);
    assert_eq!(chain(&wrapped_native_mint()), anchor_spl::token::spl_token::native_mint::ID);
    assert_eq!(chain(&system_program()), anchor_lang::solana_program::system_program::ID);
    assert_eq!(chain(&rent_sysvar()), anchor_lang::solana_program::sysvar::rent::ID);
    assert_eq!(chain(&compute_budget_program()), solana_compute_budget_interface::ID);
    assert_eq!(
        associated_token_program().to_bytes(),
        spl_associated_token_account::ID.to_bytes()
    );
    assert_eq!(token_metadata_program().to_bytes(), mpl_token_metadata::ID.to_bytes());
}

#[test]
fn seeds_spell_their_text() {
    assert_eq!(&BIN_ARRAY_SEED[..], &b"bin_array"[..]);
    assert_eq!(&BIN_ARRAY_BITMAP_SEED[..], &b"bitmap"[..]);
    assert_eq!(&EVENT_AUTHORITY_SEED[..], &b"__event_authority"[..]);
    assert_eq!(&METADATA_SEED[..], &b"metadata"[..]);
    assert_eq!(MAX_BIN_PER_ARRAY, 70);
}

#[test]
fn pubkey_equality_is_bytewise() {
    let a = key(1);
    let mut bytes = a.to_bytes();
    assert!(a == Pubkey::new_from_array(bytes));
    bytes[17] ^= 1;
    assert!(a != Pubkey::new_from_array(bytes));
    assert_eq!(a.to_vec(), a.to_bytes().to_vec());
    assert!(wrapped_native_mint().is_wrapped_native_mint());
    assert!(!token_program().is_wrapped_native_mint());
    assert_eq!(array_to_vec(&[1u8, 2, 3]), vec![1u8, 2, 3]);
}

#[test]
fn bin_array_index_is_floor_division() {
    let cases = [
        (0, 0),
        (1, 0),
        (69, 0),
        (70, 1),
        (100, 1),
        (139, 1),
        (140, 2),
        (-1, -1),
        (-69, -1),
        (-70, -1),
        (-71, -2),
        (-140, -2),
        (-141, -3),
        (i32::MAX, 30678337),
        (i32::MIN, -30678338),
    ];
    for (bin_id, index) in cases {
        assert_eq!(bin_id_to_bin_array_index(bin_id), index, "bin {}", bin_id);
    }
}

#[test]
fn bins_of_a_position_lie_in_its_two_arrays() {
    for lower in [-211, -140, -71, -70, -1, 0, 1, 69, 70, 100, 139] {
        let first = bin_id_to_bin_array_index(lower);
        for width in 1..=70 {
            let last = bin_id_to_bin_array_index(lower + width - 1);
            assert!(first <= last && last <= first + 1, "lower {} width {}", lower, width);
        }
    }
    assert_eq!(bin_id_to_bin_array_index(0 + 141 - 1), 2);
}

#[test]
fn event_authority_is_the_runtime_derivation() {
    let (expected, bump) =
        ChainPubkey::find_program_address(&[b"__event_authority"], &chain(&lb_clmm_program()));
    let (found, found_bump) = derive_event_authority_pda().unwrap();
    assert_eq!(chain(&found), expected);
    assert_eq!(found_bump, bump);
    assert_eq!(derive_event_authority_pda(), Some((found, found_bump)));
}

#[test]
fn bin_array_is_the_runtime_derivation() {
    let pool = key(9);
    for index in [0i64, 1, -1, 2, -3, 443636, -443636] {
        let (expected, bump) = ChainPubkey::find_program_address(
            &[b"bin_array", &pool.to_bytes(), &index.to_le_bytes()],
            &chain(&lb_clmm_program()),
        );
        let (found, found_bump) = derive_bin_array_pda(pool, index).unwrap();
        assert_eq!(chain(&found), expected, "index {}", index);
        assert_eq!(found_bump, bump);
    }
    let other = derive_bin_array_pda(key(10), 0).unwrap().0;
    assert!(other != derive_bin_array_pda(pool, 0).unwrap().0);
}

#[test]
fn bitmap_extension_is_the_runtime_derivation() {
    let pool = key(33);
    let (expected, bump) = ChainPubkey::find_program_address(
        &[b"bitmap", &pool.to_bytes()],
        &chain(&lb_clmm_program()),
    );
    assert_eq!(
        derive_bin_array_bitmap_extension(pool).map(|(found, bump)| (chain(&found), bump)),
        Some((expected, bump))
    );
}

#[test]
fn associated_token_address_agrees_with_its_crate() {
    for (wallet, mint) in [(key(1), key(2)), (key(77), wrapped_native_mint()), (key(0), key(0))] {
        let expected = spl_associated_token_account::get_associated_token_address(
            &ChainPubkey::new_from_array(wallet.to_bytes()),
            &ChainPubkey::new_from_array(mint.to_bytes()),
        );
        let (found, _) = get_associated_token_address(&wallet, &mint).unwrap();
        assert_eq!(found.to_bytes(), expected.to_bytes());
    }
}

#[test]
fn metadata_address_agrees_with_its_crate() {
    for mint in [key(5), key(200)] {
        let (expected, bump) = mpl_token_metadata::accounts::Metadata::find_pda(
            &ChainPubkey::new_from_array(mint.to_bytes()),
        );
        let (found, found_bump) = find_metadata_pda(&mint).unwrap();
        assert_eq!(found.to_bytes(), expected.to_bytes());
        assert_eq!(found_bump, bump);
    }
}

#[test]
fn bin_arrays_for_pair_are_the_lower_array_and_the_next() {
    let pool = key(4);
    let cases = [(100, 1i64), (0, 0), (-1, -1), (69, 0), (70, 1), (-71, -2)];
    for (lower_bin_id, index) in cases {
        let (lower, upper) = get_bin_arrays_for_pair(pool, lower_bin_id).unwrap();
        assert!(lower == derive_bin_array_pda(pool, index).unwrap().0);
        assert!(upper == derive_bin_array_pda(pool, index + 1).unwrap().0);
        assert_eq!(get_bin_arrays_for_pair(pool, lower_bin_id), Some((lower, upper)));
    }
}

#[test]
fn derivation_finds_nothing_for_seeds_beyond_the_limits() {
    let program = lb_clmm_program();
    assert!(find_program_address(&vec![vec![0u8; 33]], &program).is_none());
    assert!(find_program_address(&vec![vec![1u8]; 16], &program).is_none());
    let found = find_program_address(&vec![vec![0u8; 32]], &program).unwrap();
    let expected = ChainPubkey::find_program_address(&[&[0u8; 32]], &chain(&program));
    assert_eq!((chain(&found.0), found.1), expected);
    assert!(found.0 != program);
}
