//! The protocol's record schemas and their genesis values.
//!
//! All records are fixed-layout and owned exclusively by the protocol's
//! program identity. The bootstrap only ever creates them; it never mutates
//! or deletes an existing record. Each schema has a mathematical view and a
//! genesis constructor whose contract pins every field of the initial state.

use vstd::prelude::*;
use crate::addr::{
    is_address, zero_address, mint_id_spec, copy_bytes, zero_address_bytes, mint_id_bytes,
};

verus! {

/// Number of deployment slots tracked per round.
pub const SLOT_COUNT: usize = 25;

/// Number of bytes in a round's slot hash.
pub const SLOT_HASH_LEN: usize = 32;

/// Sentinel maximum: "no round scheduled" / "never expires yet".
pub const UNSCHEDULED: u64 = u64::MAX;

/// Mathematical view of the Board singleton.
#[verifier::ext_equal]
pub ghost struct BoardView {
    pub round_id: u64,
    pub start_slot: u64,
    pub end_slot: u64,
}

/// The Board singleton: which round is active and over which slot window.
#[derive(Clone, Debug, PartialEq, Eq)]
pub struct Board {
    pub round_id: u64,
    pub start_slot: u64,
    pub end_slot: u64,
}

impl View for Board {
    type V = BoardView;

    open spec fn view(&self) -> BoardView {
        BoardView { round_id: self.round_id, start_slot: self.start_slot, end_slot: self.end_slot }
    }
}

/// Board genesis: round 0 selected, no round scheduled.
pub open spec fn genesis_board_view() -> BoardView {
    BoardView { round_id: 0, start_slot: UNSCHEDULED, end_slot: UNSCHEDULED }
}

impl Board {
    /// The genesis Board.
    pub fn genesis() -> (r: Board)
        ensures
            r@ == genesis_board_view(),
    {
        Board { round_id: 0, start_slot: UNSCHEDULED, end_slot: UNSCHEDULED }
    }
}

/// Mathematical view of the Config singleton.
#[verifier::ext_equal]
pub ghost struct ConfigView {
    pub admin: Seq<u8>,
    pub bury_authority: Seq<u8>,
    pub fee_collector: Seq<u8>,
    pub swap_program: Seq<u8>,
    pub var_address: Seq<u8>,
    pub buffer: u64,
}

impl ConfigView {
    /// Well-formedness: every address field is 32 bytes.
    pub open spec fn wf(self) -> bool {
        &&& is_address(self.admin)
        &&& is_address(self.bury_authority)
        &&& is_address(self.fee_collector)
        &&& is_address(self.swap_program)
        &&& is_address(self.var_address)
    }
}

/// The Config singleton: authority roles and reserved references.
#[derive(Clone, Debug, PartialEq, Eq)]
pub struct Config {
    pub admin: Vec<u8>,
    pub bury_authority: Vec<u8>,
    pub fee_collector: Vec<u8>,
    pub swap_program: Vec<u8>,
    pub var_address: Vec<u8>,
    pub buffer: u64,
}

impl View for Config {
    type V = ConfigView;

    open spec fn view(&self) -> ConfigView {
        ConfigView {
            admin: self.admin@,
            bury_authority: self.bury_authority@,
            fee_collector: self.fee_collector@,
            swap_program: self.swap_program@,
            var_address: self.var_address@,
            buffer: self.buffer,
        }
    }
}

/// Config genesis: all three authority roles are the bootstrapper; the
/// optional references are null; the reserved field is zero.
pub open spec fn genesis_config_view(signer: Seq<u8>) -> ConfigView {
    ConfigView {
        admin: signer,
        bury_authority: signer,
        fee_collector: signer,
        swap_program: zero_address(),
        var_address: zero_address(),
        buffer: 0,
    }
}

impl Config {
    /// The genesis Config for a given bootstrapper identity.
    pub fn genesis(signer: &Vec<u8>) -> (r: Config)
        ensures
            r@ == genesis_config_view(signer@),
            is_address(signer@) ==> r@.wf(),
    {
        Config {
            admin: copy_bytes(signer),
            bury_authority: copy_bytes(signer),
            fee_collector: copy_bytes(signer),
            swap_program: zero_address_bytes(),
            var_address: zero_address_bytes(),
            buffer: 0,
        }
    }
}

/// Mathematical view of the Treasury singleton.
#[verifier::ext_equal]
pub ghost struct TreasuryView {
    pub balance: u64,
    pub motherlode: u64,
    pub miner_rewards_factor: u128,
    pub stake_rewards_factor: u128,
    pub total_staked: u64,
    pub total_unclaimed: u64,
    pub total_refined: u64,
}

impl TreasuryView {
    /// The global conservation invariant, stated over this record: the
    /// treasury's liabilities equal all value ever deployed and not yet
    /// withdrawn. At genesis the right-hand side is zero.
    pub open spec fn conserves(self, deployed_not_withdrawn: int) -> bool {
        self.balance + self.motherlode + self.total_unclaimed == deployed_not_withdrawn
    }
}

/// The Treasury singleton: balances and reward accumulators.
#[derive(Clone, Debug, PartialEq, Eq)]
pub struct Treasury {
    pub balance: u64,
    pub motherlode: u64,
    pub miner_rewards_factor: u128,
    pub stake_rewards_factor: u128,
    pub total_staked: u64,
    pub total_unclaimed: u64,
    pub total_refined: u64,
}

impl View for Treasury {
    type V = TreasuryView;

    open spec fn view(&self) -> TreasuryView {
        TreasuryView {
            balance: self.balance,
            motherlode: self.motherlode,
            miner_rewards_factor: self.miner_rewards_factor,
            stake_rewards_factor: self.stake_rewards_factor,
            total_staked: self.total_staked,
            total_unclaimed: self.total_unclaimed,
            total_refined: self.total_refined,
        }
    }
}

/// Treasury genesis: every scalar and accumulator is zero.
pub open spec fn genesis_treasury_view() -> TreasuryView {
    TreasuryView {
        balance: 0,
        motherlode: 0,
        miner_rewards_factor: 0,
        stake_rewards_factor: 0,
        total_staked: 0,
        total_unclaimed: 0,
        total_refined: 0,
    }
}

impl Treasury {
    /// The genesis Treasury.
    pub fn genesis() -> (r: Treasury)
        ensures
            r@ == genesis_treasury_view(),
    {
        Treasury {
            balance: 0,
            motherlode: 0,
            miner_rewards_factor: 0,
            stake_rewards_factor: 0,
            total_staked: 0,
            total_unclaimed: 0,
            total_refined: 0,
        }
    }
}

/// Mathematical view of the treasury's derived token holding account.
#[verifier::ext_equal]
pub ghost struct TokenHoldingView {
    pub owner: Seq<u8>,
    pub mint: Seq<u8>,
    pub amount: u64,
}

impl TokenHoldingView {
    /// Well-formedness: owner and mint are 32-byte addresses.
    pub open spec fn wf(self) -> bool {
        &&& is_address(self.owner)
        &&& is_address(self.mint)
    }
}

/// The treasury's token holding account: the record at the canonical
/// derived-token-account address for (Treasury, fixed mint).
#[derive(Clone, Debug, PartialEq, Eq)]
pub struct TokenHolding {
    pub owner: Vec<u8>,
    pub mint: Vec<u8>,
    pub amount: u64,
}

impl View for TokenHolding {
    type V = TokenHoldingView;

    open spec fn view(&self) -> TokenHoldingView {
        TokenHoldingView { owner: self.owner@, mint: self.mint@, amount: self.amount }
    }
}

/// Token holding genesis: bound to its owner and the fixed mint, empty.
pub open spec fn genesis_token_holding_view(owner: Seq<u8>) -> TokenHoldingView {
    TokenHoldingView { owner: owner, mint: mint_id_spec(), amount: 0 }
}

impl TokenHolding {
    /// The genesis token holding account for a given owner address.
    pub fn genesis(owner: &Vec<u8>) -> (r: TokenHolding)
        ensures
            r@ == genesis_token_holding_view(owner@),
            is_address(owner@) ==> r@.wf(),
    {
        TokenHolding { owner: copy_bytes(owner), mint: mint_id_bytes(), amount: 0 }
    }
}

/// Mathematical view of a per-epoch Round record.
#[verifier::ext_equal]
pub ghost struct RoundView {
    pub id: u64,
    pub deployed: Seq<u64>,
    pub slot_hash: Seq<u8>,
    pub count: Seq<u64>,
    pub expires_at: u64,
    pub rent_payer: Seq<u8>,
    pub motherlode: u64,
    pub top_miner: Seq<u8>,
    pub top_miner_reward: u64,
    pub total_deployed: u64,
    pub total_vaulted: u64,
    pub total_winnings: u64,
}

impl RoundView {
    /// Well-formedness: arrays have their fixed lengths and address fields
    /// are 32 bytes.
    pub open spec fn wf(self) -> bool {
        &&& self.deployed.len() == SLOT_COUNT
        &&& self.count.len() == SLOT_COUNT
        &&& self.slot_hash.len() == SLOT_HASH_LEN
        &&& is_address(self.rent_payer)
        &&& is_address(self.top_miner)
    }
}

/// A per-epoch Round record, addressed deterministically from its id.
#[derive(Clone, Debug, PartialEq, Eq)]
pub struct Round {
    pub id: u64,
    pub deployed: Vec<u64>,
    pub slot_hash: Vec<u8>,
    pub count: Vec<u64>,
    pub expires_at: u64,
    pub rent_payer: Vec<u8>,
    pub motherlode: u64,
    pub top_miner: Vec<u8>,
    pub top_miner_reward: u64,
    pub total_deployed: u64,
    pub total_vaulted: u64,
    pub total_winnings: u64,
}

impl View for Round {
    type V = RoundView;

    open spec fn view(&self) -> RoundView {
        RoundView {
            id: self.id,
            deployed: self.deployed@,
            slot_hash: self.slot_hash@,
            count: self.count@,
            expires_at: self.expires_at,
            rent_payer: self.rent_payer@,
            motherlode: self.motherlode,
            top_miner: self.top_miner@,
            top_miner_reward: self.top_miner_reward,
            total_deployed: self.total_deployed,
            total_vaulted: self.total_vaulted,
            total_winnings: self.total_winnings,
        }
    }
}

/// An all-zero sequence of `n` 64-bit counters.
pub open spec fn zero_counters(n: nat) -> Seq<u64> {
    Seq::new(n, |i: int| 0u64)
}

/// Round genesis for a given id and rent payer: all arrays and scalars
/// zero, expiry at the unscheduled sentinel.
pub open spec fn genesis_round_view(id: u64, rent_payer: Seq<u8>) -> RoundView {
    RoundView {
        id: id,
        deployed: zero_counters(SLOT_COUNT as nat),
        slot_hash: zero_address(),
        count: zero_counters(SLOT_COUNT as nat),
        expires_at: UNSCHEDULED,
        rent_payer: rent_payer,
        motherlode: 0,
        top_miner: zero_address(),
        top_miner_reward: 0,
        total_deployed: 0,
        total_vaulted: 0,
        total_winnings: 0,
    }
}

/// An all-zero vector of `n` 64-bit counters.
fn zero_counters_vec(n: usize) -> (r: Vec<u64>)
    ensures
        r@ == zero_counters(n as nat),
{
    let mut r: Vec<u64> = Vec::new();
    let mut i: usize = 0;
    while i < n
        invariant
            i <= n,
            r@.len() == i,
            forall|j: int| 0 <= j < i ==> r@[j] == 0u64,
        decreases n - i,
    {
        r.push(0u64);
        i += 1;
    }
    proof {
        assert(r@ =~= zero_counters(n as nat));
    }
    r
}

impl Round {
    /// The genesis Round for a given id and rent payer.
    pub fn genesis(id: u64, rent_payer: &Vec<u8>) -> (r: Round)
        ensures
            r@ == genesis_round_view(id, rent_payer@),
            is_address(rent_payer@) ==> r@.wf(),
    {
        Round {
            id: id,
            deployed: zero_counters_vec(SLOT_COUNT),
            slot_hash: zero_address_bytes(),
            count: zero_counters_vec(SLOT_COUNT),
            expires_at: UNSCHEDULED,
            rent_payer: copy_bytes(rent_payer),
            motherlode: 0,
            top_miner: zero_address_bytes(),
            top_miner_reward: 0,
            total_deployed: 0,
            total_vaulted: 0,
            total_winnings: 0,
        }
    }
}

} // verus!
