use ore_genesis::addr::mint_id_bytes;
use ore_genesis::bootstrap::{check_account_count, initialize, Invocation, Ledger, RentCosts};
use ore_genesis::derivation::derive_protocol_addresses;
use ore_genesis::error::BootstrapError;
use ore_genesis::records::{Board, Config};

fn signer_bytes() -> Vec<u8> {
    vec![7u8; 32]
}

fn costs() -> RentCosts {
    RentCosts { board: 100, config: 200, treasury: 300, treasury_tokens: 400, round0: 500 }
}

fn valid_invocation() -> Invocation {
    let addrs = derive_protocol_addresses().unwrap();
    Invocation {
        signer: signer_bytes(),
        signer_authorized: true,
        mint_address: mint_id_bytes(),
        mint_is_token_mint: true,
        system_program: solana_sdk_ids::system_program::ID.to_bytes().to_vec(),
        token_program: spl_token::ID.to_bytes().to_vec(),
        associated_token_program: spl_associated_token_account::ID.to_bytes().to_vec(),
        board_location: addrs.board,
        config_location: addrs.config,
        treasury_location: addrs.treasury,
        treasury_tokens_location: addrs.treasury_tokens,
        round0_location: addrs.round0,
    }
}

#[test]
fn unsigned_invocation_is_unauthorized() {
    let mut inv = valid_invocation();
    inv.signer_authorized = false;
    let r = initialize(&inv, Ledger::empty(), 10_000, &costs());
    assert_eq!(r.unwrap_err(), BootstrapError::Unauthorized);
}

#[test]
fn wrong_mint_is_identity_mismatch() {
    let mut inv = valid_invocation();
    inv.mint_address = vec![1u8; 32];
    let r = initialize(&inv, Ledger::empty(), 10_000, &costs());
    assert_eq!(r.unwrap_err(), BootstrapError::IdentityMismatch);
}

#[test]
fn mint_without_descriptor_is_malformed() {
    let mut inv = valid_invocation();
    inv.mint_is_token_mint = false;
    let r = initialize(&inv, Ledger::empty(), 10_000, &costs());
    assert_eq!(r.unwrap_err(), BootstrapError::MalformedInvocation);
}

#[test]
fn forged_system_program_is_identity_mismatch() {
    let mut inv = valid_invocation();
    inv.system_program = vec![2u8; 32];
    let r = initialize(&inv, Ledger::empty(), 10_000, &costs());
    assert_eq!(r.unwrap_err(), BootstrapError::IdentityMismatch);
}

#[test]
fn forged_token_program_is_identity_mismatch() {
    let mut inv = valid_invocation();
    inv.token_program = spl_associated_token_account::ID.to_bytes().to_vec();
    let r = initialize(&inv, Ledger::empty(), 10_000, &costs());
    assert_eq!(r.unwrap_err(), BootstrapError::IdentityMismatch);
}

#[test]
fn forged_associated_token_program_is_identity_mismatch() {
    let mut inv = valid_invocation();
    inv.associated_token_program = spl_token::ID.to_bytes().to_vec();
    let r = initialize(&inv, Ledger::empty(), 10_000, &costs());
    assert_eq!(r.unwrap_err(), BootstrapError::IdentityMismatch);
}

#[test]
fn misplaced_record_location_is_malformed() {
    let mut inv = valid_invocation();
    let board = inv.board_location.clone();
    inv.board_location = inv.config_location.clone();
    inv.config_location = board;
    let r = initialize(&inv, Ledger::empty(), 10_000, &costs());
    assert_eq!(r.unwrap_err(), BootstrapError::MalformedInvocation);
}

#[test]
fn poor_signer_is_insufficient_funds() {
    let inv = valid_invocation();
    let r = initialize(&inv, Ledger::empty(), 1499, &costs());
    assert_eq!(r.unwrap_err(), BootstrapError::InsufficientFunds);
}

#[test]
fn partial_ledger_needs_less_funding() {
    let inv = valid_invocation();
    let partial = Ledger {
        board: Some(Board::genesis()),
        config: Some(Config::genesis(&signer_bytes())),
        treasury: None,
        treasury_tokens: None,
        round0: None,
    };
    // 1200 covers the three missing records but not all five.
    let r = initialize(&inv, partial, 1200, &costs());
    assert!(r.is_ok());
}

#[test]
fn exact_funding_succeeds_with_zero_left() {
    let inv = valid_invocation();
    let (_, remaining) = initialize(&inv, Ledger::empty(), 1500, &costs()).unwrap();
    assert_eq!(remaining, 0);
}

#[test]
fn account_count_gate() {
    assert!(check_account_count(10).is_ok());
    assert_eq!(check_account_count(9).unwrap_err(), BootstrapError::MalformedInvocation);
    assert_eq!(check_account_count(11).unwrap_err(), BootstrapError::MalformedInvocation);
}

#[test]
fn error_descriptions_are_distinct() {
    let kinds = [
        BootstrapError::MalformedInvocation,
        BootstrapError::Unauthorized,
        BootstrapError::IdentityMismatch,
        BootstrapError::InsufficientFunds,
        BootstrapError::DerivationExhausted,
    ];
    for a in 0..kinds.len() {
        for b in 0..kinds.len() {
            if a != b {
                assert_ne!(kinds[a].describe(), kinds[b].describe());
            }
        }
    }
}
