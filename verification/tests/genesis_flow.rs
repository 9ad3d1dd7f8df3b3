use ore_genesis::addr::mint_id_bytes;
use ore_genesis::bootstrap::{ensure_created, initialize, Invocation, Ledger, RentCosts};
use ore_genesis::derivation::derive_protocol_addresses;
use ore_genesis::records::{Board, Config, Round, Treasury};

fn signer_bytes() -> Vec<u8> {
    vec![7u8; 32]
}

fn costs() -> RentCosts {
    RentCosts { board: 100, config: 200, treasury: 300, treasury_tokens: 400, round0: 500 }
}

fn valid_invocation() -> Invocation {
    let addrs = derive_protocol_addresses().unwrap();
    Invocation {
        signer: signer_bytes(),
        signer_authorized: true,
        mint_address: mint_id_bytes(),
        mint_is_token_mint: true,
        system_program: solana_sdk_ids::system_program::ID.to_bytes().to_vec(),
        token_program: spl_token::ID.to_bytes().to_vec(),
        associated_token_program: spl_associated_token_account::ID.to_bytes().to_vec(),
        board_location: addrs.board,
        config_location: addrs.config,
        treasury_location: addrs.treasury,
        treasury_tokens_location: addrs.treasury_tokens,
        round0_location: addrs.round0,
    }
}

#[test]
fn bootstrap_empty_ledger_succeeds() {
    let inv = valid_invocation();
    let (ledger, remaining) = initialize(&inv, Ledger::empty(), 10_000, &costs()).unwrap();
    assert_eq!(remaining, 10_000 - 1500);
    let config = ledger.config.clone().unwrap();
    assert_eq!(config.admin, signer_bytes());
    assert_eq!(config.bury_authority, signer_bytes());
    assert_eq!(config.fee_collector, signer_bytes());
    assert_eq!(config.swap_program, vec![0u8; 32]);
    assert_eq!(config.var_address, vec![0u8; 32]);
    assert_eq!(config.buffer, 0);
    assert!(ledger.board.is_some());
    assert!(ledger.treasury.is_some());
    assert!(ledger.treasury_tokens.is_some());
    assert!(ledger.round0.is_some());
}

#[test]
fn rerun_is_identical_and_free() {
    let inv = valid_invocation();
    let (first, b1) = initialize(&inv, Ledger::empty(), 10_000, &costs()).unwrap();
    let (second, b2) = initialize(&inv, first.clone(), b1, &costs()).unwrap();
    assert_eq!(second, first);
    assert_eq!(b2, b1);
}

#[test]
fn partial_retry_matches_full_run() {
    let inv = valid_invocation();
    let (full, _) = initialize(&inv, Ledger::empty(), 10_000, &costs()).unwrap();
    let partial = Ledger {
        board: Some(Board::genesis()),
        config: Some(Config::genesis(&signer_bytes())),
        treasury: None,
        treasury_tokens: None,
        round0: None,
    };
    let (retried, remaining) = initialize(&inv, partial.clone(), 10_000, &costs()).unwrap();
    assert_eq!(retried, full);
    assert_eq!(retried.board, partial.board);
    assert_eq!(retried.config, partial.config);
    assert_eq!(remaining, 10_000 - (300 + 400 + 500));
}

#[test]
fn genesis_zero_state() {
    let inv = valid_invocation();
    let (l, _) = initialize(&inv, Ledger::empty(), 10_000, &costs()).unwrap();
    let t = l.treasury.unwrap();
    assert_eq!(t.balance, 0);
    assert_eq!(t.motherlode, 0);
    assert_eq!(t.miner_rewards_factor, 0);
    assert_eq!(t.stake_rewards_factor, 0);
    assert_eq!(t.total_staked, 0);
    assert_eq!(t.total_unclaimed, 0);
    assert_eq!(t.total_refined, 0);
    let b = l.board.unwrap();
    assert_eq!(b.round_id, 0);
    assert_eq!(b.start_slot, u64::MAX);
    assert_eq!(b.end_slot, u64::MAX);
    let r = l.round0.unwrap();
    assert_eq!(r.id, 0);
    assert_eq!(r.deployed, vec![0u64; 25]);
    assert_eq!(r.count, vec![0u64; 25]);
    assert_eq!(r.slot_hash, vec![0u8; 32]);
    assert_eq!(r.expires_at, u64::MAX);
    assert_eq!(r.rent_payer, signer_bytes());
    assert_eq!(r.motherlode, 0);
    assert_eq!(r.top_miner, vec![0u8; 32]);
    assert_eq!(r.top_miner_reward, 0);
    assert_eq!(r.total_deployed, 0);
    assert_eq!(r.total_vaulted, 0);
    assert_eq!(r.total_winnings, 0);
    let tt = l.treasury_tokens.unwrap();
    assert_eq!(tt.amount, 0);
    assert_eq!(tt.mint, mint_id_bytes());
    let addrs = derive_protocol_addresses().unwrap();
    assert_eq!(tt.owner, addrs.treasury);
}

#[test]
fn existing_record_contents_untouched() {
    let inv = valid_invocation();
    let strange = Board { round_id: 9, start_slot: 1, end_slot: 2 };
    let ledger = Ledger {
        board: Some(strange.clone()),
        config: None,
        treasury: None,
        treasury_tokens: None,
        round0: None,
    };
    let (out, remaining) = initialize(&inv, ledger, 10_000, &costs()).unwrap();
    assert_eq!(out.board, Some(strange));
    assert_eq!(remaining, 10_000 - (200 + 300 + 400 + 500));
}

#[test]
fn idempotent_creator_unit() {
    let fresh = Board::genesis();
    let (made, created) = ensure_created(None, fresh.clone());
    assert!(created);
    assert_eq!(made, fresh);
    let existing = Board { round_id: 3, start_slot: 4, end_slot: 5 };
    let (kept, created) = ensure_created(Some(existing.clone()), fresh);
    assert!(!created);
    assert_eq!(kept, existing);
}

#[test]
fn retry_from_a_different_partial_subset() {
    let inv = valid_invocation();
    let (full, _) = initialize(&inv, Ledger::empty(), 10_000, &costs()).unwrap();
    let partial = Ledger {
        board: None,
        config: None,
        treasury: Some(Treasury::genesis()),
        treasury_tokens: None,
        round0: Some(Round::genesis(0, &signer_bytes())),
    };
    let (retried, remaining) = initialize(&inv, partial, 10_000, &costs()).unwrap();
    assert_eq!(retried, full);
    assert_eq!(remaining, 10_000 - (100 + 200 + 400));
}
