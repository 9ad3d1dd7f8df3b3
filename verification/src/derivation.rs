//! Deterministic address derivation, and the trusted boundary to the
//! collaborator crates that compute it.
//!
//! A record location is derived from (program identity, ordered seed byte
//! strings) by an outside one-way computation. The result is named by the
//! uninterpreted function [`derived_address_of`]: the same inputs always
//! yield the same output, which is all the bootstrap's correctness needs.
//! Each protocol record has a fixed seed sequence; the treasury's token
//! holding account uses the canonical derived-token-account seeds.

use vstd::prelude::*;
use crate::addr::{
    program_id_spec, mint_id_spec, system_program_id_spec, token_program_id_spec,
    ata_program_id_spec, is_address,
};
use crate::error::BootstrapError;

verus! {

/// What the outside derivation returns for a program identity and a seed
/// sequence: `None` when no valid nonce exists (or the seeds are over the
/// derivation's limits), otherwise the unique 32-byte address and its nonce.
pub uninterp spec fn derived_address_of(program: Seq<u8>, seeds: Seq<Seq<u8>>) -> Option<
    (Seq<u8>, u8),
>;

/// Relies on `solana_program::pubkey::Pubkey::try_find_program_address`
/// (solana-pubkey `2.4`, compiled off-chain): the result is a pure
/// function of the seed strings and the program identity alone; it returns
/// `None` instead of panicking when the seeds are over the crate's limits
/// or no valid nonce exists; on success the address is 32 bytes.
#[verifier::external_body]
fn try_find_derived_address(program: &Vec<u8>, seeds: &Vec<Vec<u8>>) -> (r: Option<(Vec<u8>, u8)>)
    requires
        program@.len() == 32,
    ensures
        (match r {
            Some(p) => {
                &&& derived_address_of(program@, seeds@.map_values(|s: Vec<u8>| s@)) matches Some(
                    q,
                )
                &&& p.0@ == q.0
                &&& p.1 == q.1
                &&& q.0.len() == 32
            },
            None => derived_address_of(program@, seeds@.map_values(|s: Vec<u8>| s@)) is None,
        }),
{
    let pid = solana_program::pubkey::Pubkey::try_from(program.as_slice()).ok()?;
    let seed_refs: Vec<&[u8]> = seeds.iter().map(|s| s.as_slice()).collect();
    let (address, bump) = solana_program::pubkey::Pubkey::try_find_program_address(
        &seed_refs,
        &pid,
    )?;
    Some((address.to_bytes().to_vec(), bump))
}

/// Relies on `solana_sdk_ids::system_program::ID`: the storage allocator's
/// well-known identity is the all-zero address.
#[verifier::external_body]
pub(crate) fn fetch_system_program_id() -> (r: Vec<u8>)
    ensures
        r@ == system_program_id_spec(),
{
    solana_sdk_ids::system_program::ID.to_bytes().to_vec()
}

/// Relies on `spl_token::ID`: the asset program's well-known identity.
#[verifier::external_body]
pub(crate) fn fetch_token_program_id() -> (r: Vec<u8>)
    ensures
        r@ == token_program_id_spec(),
{
    spl_token::ID.to_bytes().to_vec()
}

/// Relies on `spl_associated_token_account::ID`: the derived-token-account
/// program's well-known identity.
#[verifier::external_body]
pub(crate) fn fetch_ata_program_id() -> (r: Vec<u8>)
    ensures
        r@ == ata_program_id_spec(),
{
    spl_associated_token_account::ID.to_bytes().to_vec()
}

/// The Board record's seed tag, `"board"`.
pub open spec fn board_tag() -> Seq<u8> {
    seq![98u8, 111u8, 97u8, 114u8, 100u8]
}

/// The Config record's seed tag, `"config"`.
pub open spec fn config_tag() -> Seq<u8> {
    seq![99u8, 111u8, 110u8, 102u8, 105u8, 103u8]
}

/// The Treasury record's seed tag, `"treasury"`.
pub open spec fn treasury_tag() -> Seq<u8> {
    seq![116u8, 114u8, 101u8, 97u8, 115u8, 117u8, 114u8, 121u8]
}

/// The Round records' seed tag, `"round"`.
pub open spec fn round_tag() -> Seq<u8> {
    seq![114u8, 111u8, 117u8, 110u8, 100u8]
}

/// The eight little-endian bytes of a 64-bit integer.
pub open spec fn u64_le_bytes(n: u64) -> Seq<u8> {
    seq![
        (n & 0xff) as u8,
        ((n >> 8) & 0xff) as u8,
        ((n >> 16) & 0xff) as u8,
        ((n >> 24) & 0xff) as u8,
        ((n >> 32) & 0xff) as u8,
        ((n >> 40) & 0xff) as u8,
        ((n >> 48) & 0xff) as u8,
        ((n >> 56) & 0xff) as u8,
    ]
}

/// The seed sequence of the Board singleton.
pub open spec fn board_seeds() -> Seq<Seq<u8>> {
    seq![board_tag()]
}

/// The seed sequence of the Config singleton.
pub open spec fn config_seeds() -> Seq<Seq<u8>> {
    seq![config_tag()]
}

/// The seed sequence of the Treasury singleton.
pub open spec fn treasury_seeds() -> Seq<Seq<u8>> {
    seq![treasury_tag()]
}

/// The seed sequence of Round `id`.
pub open spec fn round_seeds(id: u64) -> Seq<Seq<u8>> {
    seq![round_tag(), u64_le_bytes(id)]
}

/// Where the Board singleton lives.
pub open spec fn board_derivation() -> Option<(Seq<u8>, u8)> {
    derived_address_of(program_id_spec(), board_seeds())
}

/// Where the Config singleton lives.
pub open spec fn config_derivation() -> Option<(Seq<u8>, u8)> {
    derived_address_of(program_id_spec(), config_seeds())
}

/// Where the Treasury singleton lives.
pub open spec fn treasury_derivation() -> Option<(Seq<u8>, u8)> {
    derived_address_of(program_id_spec(), treasury_seeds())
}

/// Where Round `id` lives.
pub open spec fn round_derivation(id: u64) -> Option<(Seq<u8>, u8)> {
    derived_address_of(program_id_spec(), round_seeds(id))
}

/// Where the derived token holding account of `owner` for the fixed mint
/// lives: the canonical associated-token-account derivation, seeded by the
/// owner, the asset program and the mint under the derived-token-account
/// program.
pub open spec fn token_holding_derivation(owner: Seq<u8>) -> Option<(Seq<u8>, u8)> {
    derived_address_of(
        ata_program_id_spec(),
        seq![owner, token_program_id_spec(), mint_id_spec()],
    )
}

/// The eight little-endian bytes of a 64-bit integer, as a concrete value.
pub fn u64_le_bytes_vec(n: u64) -> (r: Vec<u8>)
    ensures
        r@ == u64_le_bytes(n),
{
    proof {
        assert((n & 0xff) < 256 && ((n >> 8) & 0xff) < 256 && ((n >> 16) & 0xff) < 256 && ((n
            >> 24) & 0xff) < 256 && ((n >> 32) & 0xff) < 256 && ((n >> 40) & 0xff) < 256 && ((n
            >> 48) & 0xff) < 256 && ((n >> 56) & 0xff) < 256) by (bit_vector);
    }
    let r: Vec<u8> = vec![
        (n & 0xff) as u8,
        ((n >> 8) & 0xff) as u8,
        ((n >> 16) & 0xff) as u8,
        ((n >> 24) & 0xff) as u8,
        ((n >> 32) & 0xff) as u8,
        ((n >> 40) & 0xff) as u8,
        ((n >> 48) & 0xff) as u8,
        ((n >> 56) & 0xff) as u8,
    ];
    proof {
        assert(r@ =~= u64_le_bytes(n));
    }
    r
}

/// The address and nonce of Round `id`, recomputable by any observer from
/// the protocol identity, the fixed round tag and `id` alone; `None` only
/// if derivation is exhausted.
pub fn round_address(id: u64) -> (r: Option<(Vec<u8>, u8)>)
    ensures
        (match r {
            Some(p) => {
                &&& round_derivation(id) matches Some(q)
                &&& p.0@ == q.0
                &&& p.1 == q.1
                &&& p.0@.len() == 32
            },
            None => round_derivation(id) is None,
        }),
{
    let program = crate::addr::program_id_bytes();
    let tag: Vec<u8> = vec![114u8, 111u8, 117u8, 110u8, 100u8];
    let mut seeds: Vec<Vec<u8>> = Vec::new();
    seeds.push(tag);
    seeds.push(u64_le_bytes_vec(id));
    proof {
        assert(seeds@.map_values(|s: Vec<u8>| s@) =~= round_seeds(id)) by {
            assert(seeds@.map_values(|s: Vec<u8>| s@)[0] =~= round_tag());
            assert(seeds@.map_values(|s: Vec<u8>| s@)[1] == u64_le_bytes(id));
        }
    }
    try_find_derived_address(&program, &seeds)
}

/// A single-element seed list.
fn singleton_seed(tag: Vec<u8>) -> (r: Vec<Vec<u8>>)
    ensures
        r@.map_values(|s: Vec<u8>| s@) =~= seq![tag@],
{
    let mut seeds: Vec<Vec<u8>> = Vec::new();
    seeds.push(tag);
    proof {
        assert(seeds@.map_values(|s: Vec<u8>| s@) =~= seq![seeds@[0]@]);
    }
    seeds
}

/// The five derived protocol locations, as concrete addresses.
pub struct ProtocolAddresses {
    pub board: Vec<u8>,
    pub config: Vec<u8>,
    pub treasury: Vec<u8>,
    pub treasury_tokens: Vec<u8>,
    pub round0: Vec<u8>,
}

/// Mathematical view of [`ProtocolAddresses`].
#[verifier::ext_equal]
pub ghost struct AddressesView {
    pub board: Seq<u8>,
    pub config: Seq<u8>,
    pub treasury: Seq<u8>,
    pub treasury_tokens: Seq<u8>,
    pub round0: Seq<u8>,
}

impl View for ProtocolAddresses {
    type V = AddressesView;

    open spec fn view(&self) -> AddressesView {
        AddressesView {
            board: self.board@,
            config: self.config@,
            treasury: self.treasury@,
            treasury_tokens: self.treasury_tokens@,
            round0: self.round0@,
        }
    }
}

/// Whether every protocol derivation yields an address.
pub open spec fn all_derivations_ok() -> bool {
    &&& board_derivation() is Some
    &&& config_derivation() is Some
    &&& treasury_derivation() is Some
    &&& round_derivation(0) is Some
    &&& token_holding_derivation(treasury_derivation()->Some_0.0) is Some
}

/// The five protocol addresses, when every derivation yields one.
pub open spec fn protocol_addresses_spec() -> AddressesView {
    AddressesView {
        board: board_derivation()->Some_0.0,
        config: config_derivation()->Some_0.0,
        treasury: treasury_derivation()->Some_0.0,
        treasury_tokens: token_holding_derivation(treasury_derivation()->Some_0.0)->Some_0.0,
        round0: round_derivation(0)->Some_0.0,
    }
}

/// Recompute the five protocol locations from the protocol identity and
/// the fixed seeds alone. Deterministic: every call returns the same
/// addresses. Fails only with `DerivationExhausted`, exactly when some
/// derivation yields no address.
pub fn derive_protocol_addresses() -> (r: Result<ProtocolAddresses, BootstrapError>)
    ensures
        (match r {
            Ok(a) => {
                &&& all_derivations_ok()
                &&& a@ == protocol_addresses_spec()
                &&& is_address(a@.board) && is_address(a@.config) && is_address(a@.treasury)
                &&& is_address(a@.treasury_tokens) && is_address(a@.round0)
            },
            Err(e) => e == BootstrapError::DerivationExhausted && !all_derivations_ok(),
        }),
{
    let program = crate::addr::program_id_bytes();

    let board_seed_list = singleton_seed(vec![98u8, 111u8, 97u8, 114u8, 100u8]);
    proof {
        assert(board_seed_list@.map_values(|s: Vec<u8>| s@) =~= board_seeds()) by {
            assert(board_seed_list@.map_values(|s: Vec<u8>| s@)[0] =~= board_tag());
        }
    }
    let board = match try_find_derived_address(&program, &board_seed_list) {
        Some(p) => p.0,
        None => {
            return Err(BootstrapError::DerivationExhausted);
        },
    };

    let config_seed_list = singleton_seed(vec![99u8, 111u8, 110u8, 102u8, 105u8, 103u8]);
    proof {
        assert(config_seed_list@.map_values(|s: Vec<u8>| s@) =~= config_seeds()) by {
            assert(config_seed_list@.map_values(|s: Vec<u8>| s@)[0] =~= config_tag());
        }
    }
    let config = match try_find_derived_address(&program, &config_seed_list) {
        Some(p) => p.0,
        None => {
            return Err(BootstrapError::DerivationExhausted);
        },
    };

    let treasury_seed_list = singleton_seed(
        vec![116u8, 114u8, 101u8, 97u8, 115u8, 117u8, 114u8, 121u8],
    );
    proof {
        assert(treasury_seed_list@.map_values(|s: Vec<u8>| s@) =~= treasury_seeds()) by {
            assert(treasury_seed_list@.map_values(|s: Vec<u8>| s@)[0] =~= treasury_tag());
        }
    }
    let treasury = match try_find_derived_address(&program, &treasury_seed_list) {
        Some(p) => p.0,
        None => {
            return Err(BootstrapError::DerivationExhausted);
        },
    };

    let round0 = match round_address(0) {
        Some(p) => p.0,
        None => {
            return Err(BootstrapError::DerivationExhausted);
        },
    };

    let ata_program = fetch_ata_program_id();
    let token_program = fetch_token_program_id();
    let mint = crate::addr::mint_id_bytes();
    let mut ata_seeds: Vec<Vec<u8>> = Vec::new();
    ata_seeds.push(crate::addr::copy_bytes(&treasury));
    ata_seeds.push(token_program);
    ata_seeds.push(mint);
    proof {
        assert(ata_seeds@.map_values(|s: Vec<u8>| s@) =~= seq![
            treasury@,
            token_program_id_spec(),
            mint_id_spec(),
        ]);
    }
    let treasury_tokens = match try_find_derived_address(&ata_program, &ata_seeds) {
        Some(p) => p.0,
        None => {
            return Err(BootstrapError::DerivationExhausted);
        },
    };

    Ok(ProtocolAddresses { board, config, treasury, treasury_tokens, round0 })
}

} // verus!
