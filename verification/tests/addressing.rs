use ore_genesis::addr::{mint_id_bytes, program_id_bytes};
use ore_genesis::derivation::{derive_protocol_addresses, round_address, u64_le_bytes_vec};
use solana_program::pubkey::Pubkey;

fn program_pubkey() -> Pubkey {
    let bytes: [u8; 32] = program_id_bytes().as_slice().try_into().unwrap();
    Pubkey::new_from_array(bytes)
}

#[test]
fn derivation_is_deterministic() {
    let a = derive_protocol_addresses().unwrap();
    let b = derive_protocol_addresses().unwrap();
    assert_eq!(a.board, b.board);
    assert_eq!(a.config, b.config);
    assert_eq!(a.treasury, b.treasury);
    assert_eq!(a.treasury_tokens, b.treasury_tokens);
    assert_eq!(a.round0, b.round0);
}

#[test]
fn round_addressing_is_deterministic_for_many_ids() {
    for id in [0u64, 1, 2, 7, 1_000_000, u64::MAX] {
        let first = round_address(id).unwrap();
        let second = round_address(id).unwrap();
        assert_eq!(first, second);
    }
    assert_ne!(round_address(0).unwrap().0, round_address(1).unwrap().0);
}

#[test]
fn singleton_addresses_match_reference_derivation() {
    let addrs = derive_protocol_addresses().unwrap();
    let program = program_pubkey();
    let (board, _) = Pubkey::find_program_address(&[b"board"], &program);
    let (config, _) = Pubkey::find_program_address(&[b"config"], &program);
    let (treasury, _) = Pubkey::find_program_address(&[b"treasury"], &program);
    assert_eq!(addrs.board, board.to_bytes().to_vec());
    assert_eq!(addrs.config, config.to_bytes().to_vec());
    assert_eq!(addrs.treasury, treasury.to_bytes().to_vec());
}

#[test]
fn round_addresses_match_reference_derivation() {
    let program = program_pubkey();
    for id in [0u64, 1, 42, 9_999_999] {
        let (expected, expected_bump) =
            Pubkey::find_program_address(&[b"round", &id.to_le_bytes()], &program);
        let (address, bump) = round_address(id).unwrap();
        assert_eq!(address, expected.to_bytes().to_vec());
        assert_eq!(bump, expected_bump);
    }
}

#[test]
fn treasury_tokens_is_the_canonical_derived_token_account() {
    let addrs = derive_protocol_addresses().unwrap();
    let treasury: [u8; 32] = addrs.treasury.as_slice().try_into().unwrap();
    let mint: [u8; 32] = mint_id_bytes().as_slice().try_into().unwrap();
    #[allow(deprecated)]
    let expected = spl_associated_token_account::get_associated_token_address(
        &From::from(treasury),
        &From::from(mint),
    );
    assert_eq!(addrs.treasury_tokens, expected.to_bytes().to_vec());
}

#[test]
fn little_endian_encoding_matches_reference() {
    for n in [0u64, 1, 0x0102_0304_0506_0708, u64::MAX] {
        assert_eq!(u64_le_bytes_vec(n), n.to_le_bytes().to_vec());
    }
}
