use pumpfun::constants::{
    ASSOCIATED_TOKEN_PROGRAM_ID, EVENT_AUTHORITY, MPL_TOKEN_METADATA_ID, PUMP_PROGRAM_ID,
    RENT_SYSVAR_ID, SYSTEM_PROGRAM_ID, TOKEN_PROGRAM_ID,
};
use pumpfun::pda::{
    get_associated_token_address, get_bonding_curve_pda, get_global_pda, get_metadata_pda,
    get_mint_authority_pda,
};
use solana_sdk::pubkey::Pubkey;
use solana_sdk::signature::Keypair;
use solana_sdk::signer::Signer;

#[test]
fn test_get_pdas() {
    let mint = Keypair::new();
    let global_pda = get_global_pda();
    let mint_authority_pda = get_mint_authority_pda();
    let bonding_curve_pda = get_bonding_curve_pda(&mint.pubkey().to_bytes());
    let metadata_pda = get_metadata_pda(&mint.pubkey().to_bytes());

    assert!(global_pda.unwrap().address != Pubkey::default().to_bytes().to_vec());
    assert!(mint_authority_pda.unwrap().address != Pubkey::default().to_bytes().to_vec());
    assert!(bonding_curve_pda.is_some());
    assert!(metadata_pda.unwrap().address != Pubkey::default().to_bytes().to_vec());
}

#[test]
fn program_id_matches_cpi_crate() {
    assert_eq!(PUMP_PROGRAM_ID, pumpfun_cpi::ID.to_bytes());
}

#[test]
fn fixed_ids_match_sdk() {
    assert_eq!(SYSTEM_PROGRAM_ID, solana_sdk::system_program::ID.to_bytes());
    assert_eq!(RENT_SYSVAR_ID, solana_sdk::sysvar::rent::ID.to_bytes());
}

#[test]
fn token_program_constant_matches_spl_derivation() {
    // the spl crate derives an ata from [wallet, token program, mint] against
    // the associated-token program; reproducing it with our constants pins
    // TOKEN_PROGRAM_ID and ASSOCIATED_TOKEN_PROGRAM_ID to the spl crate's own
    let wallet_bytes: [u8; 32] = [11u8; 32];
    let mint_bytes: [u8; 32] = [12u8; 32];
    let (expected, _) = Pubkey::find_program_address(
        &[&wallet_bytes, &TOKEN_PROGRAM_ID, &mint_bytes],
        &Pubkey::new_from_array(ASSOCIATED_TOKEN_PROGRAM_ID),
    );
    type SplPubkey = spl_associated_token_account::solana_program::pubkey::Pubkey;
    let via_spl = spl_associated_token_account::get_associated_token_address(
        &SplPubkey::new_from_array(wallet_bytes),
        &SplPubkey::new_from_array(mint_bytes),
    );
    assert_eq!(expected.to_bytes(), via_spl.to_bytes());
}

#[test]
fn global_pda_matches_sdk_derivation() {
    let program = Pubkey::new_from_array(PUMP_PROGRAM_ID);
    let (expected, bump) = Pubkey::find_program_address(&[b"global"], &program);
    let got = get_global_pda().unwrap();
    assert_eq!(got.address, expected.to_bytes().to_vec());
    assert_eq!(got.bump, bump);
}

#[test]
fn mint_authority_pda_matches_sdk_derivation() {
    let program = Pubkey::new_from_array(PUMP_PROGRAM_ID);
    let (expected, bump) = Pubkey::find_program_address(&[b"mint-authority"], &program);
    let got = get_mint_authority_pda().unwrap();
    assert_eq!(got.address, expected.to_bytes().to_vec());
    assert_eq!(got.bump, bump);
}

#[test]
fn bonding_curve_pda_matches_sdk_derivation() {
    let mint: [u8; 32] = [7u8; 32];
    let program = Pubkey::new_from_array(PUMP_PROGRAM_ID);
    let (expected, bump) =
        Pubkey::find_program_address(&[b"bonding-curve", &mint], &program);
    let got = get_bonding_curve_pda(&mint).unwrap();
    assert_eq!(got.address, expected.to_bytes().to_vec());
    assert_eq!(got.bump, bump);
}

#[test]
fn metadata_pda_matches_sdk_derivation() {
    let mint: [u8; 32] = [9u8; 32];
    let mpl = Pubkey::new_from_array(MPL_TOKEN_METADATA_ID);
    let (expected, bump) =
        Pubkey::find_program_address(&[b"metadata", mpl.as_ref(), &mint], &mpl);
    let got = get_metadata_pda(&mint).unwrap();
    assert_eq!(got.address, expected.to_bytes().to_vec());
    assert_eq!(got.bump, bump);
}

#[test]
fn associated_token_address_matches_spl_crate() {
    let wallet_bytes: [u8; 32] = [3u8; 32];
    let mint_bytes: [u8; 32] = [4u8; 32];
    type SplPubkey = spl_associated_token_account::solana_program::pubkey::Pubkey;
    let wallet = SplPubkey::new_from_array(wallet_bytes);
    let mint = SplPubkey::new_from_array(mint_bytes);
    let expected =
        spl_associated_token_account::get_associated_token_address(&wallet, &mint);
    let got = get_associated_token_address(&wallet_bytes, &mint_bytes).unwrap();
    assert_eq!(got.address, expected.to_bytes().to_vec());
    // the spl constants the derivation is pinned to
    assert_eq!(
        ASSOCIATED_TOKEN_PROGRAM_ID,
        spl_associated_token_account::ID.to_bytes()
    );
}

#[test]
fn derivations_are_deterministic() {
    let mint: [u8; 32] = [5u8; 32];
    assert_eq!(get_global_pda(), get_global_pda());
    assert_eq!(get_mint_authority_pda(), get_mint_authority_pda());
    assert_eq!(get_bonding_curve_pda(&mint), get_bonding_curve_pda(&mint));
    assert_eq!(get_metadata_pda(&mint), get_metadata_pda(&mint));
}

#[test]
fn distinct_mints_give_distinct_bonding_curves() {
    let a = get_bonding_curve_pda(&[1u8; 32]).unwrap();
    let b = get_bonding_curve_pda(&[2u8; 32]).unwrap();
    assert_ne!(a.address, b.address);
}

#[test]
fn event_authority_is_32_bytes_and_nonzero() {
    assert_eq!(EVENT_AUTHORITY.len(), 32);
    assert!(EVENT_AUTHORITY.iter().any(|&b| b != 0));
}
