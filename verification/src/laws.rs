//! The bootstrap's global guarantees, stated and proved once over the
//! model that every executable contract is pinned to.

use vstd::prelude::*;
use crate::addr::{mint_id_spec, system_program_id_spec, token_program_id_spec, ata_program_id_spec};
use crate::error::BootstrapError;
use crate::records::{
    genesis_board_view, genesis_config_view, genesis_treasury_view, genesis_token_holding_view,
    genesis_round_view, UNSCHEDULED, SLOT_COUNT,
};
use crate::derivation::{
    board_seeds, config_seeds, treasury_seeds, round_seeds, u64_le_bytes,
};
use crate::bootstrap::{
    InvocationView, LedgerView, RentCosts, initialize_spec, validation_error, required_funding,
    filled_ledger, empty_ledger_view,
};
use crate::derivation::AddressesView;

verus! {

/// Law: bootstrapping is idempotent. If an invocation succeeds, running
/// the same invocation again on the resulting ledger succeeds, changes no
/// record, and debits nothing.
pub proof fn lemma_idempotent(
    addrs: AddressesView,
    inv: InvocationView,
    ledger: LedgerView,
    balance: u64,
    costs: RentCosts,
)
    requires
        initialize_spec(addrs, inv, ledger, balance, costs) is Ok,
    ensures
        ({
            let first = initialize_spec(addrs, inv, ledger, balance, costs)->Ok_0;
            let second = initialize_spec(addrs, inv, first.0, first.1, costs);
            &&& second is Ok
            &&& second->Ok_0.0 == first.0
            &&& second->Ok_0.1 == first.1
        }),
{
    let first = initialize_spec(addrs, inv, ledger, balance, costs)->Ok_0;
    assert(required_funding(first.0, costs) == 0);
    assert(filled_ledger(first.0, inv.signer, addrs.treasury) =~= first.0);
}

/// The ledger of a run that created Board and Config and then aborted
/// before touching the other three records.
pub open spec fn board_config_only_ledger(signer: Seq<u8>) -> LedgerView {
    LedgerView {
        board: Some(genesis_board_view()),
        config: Some(genesis_config_view(signer)),
        treasury: None,
        treasury_tokens: None,
        round0: None,
    }
}

/// Law: a retry after a partial earlier run is equivalent to one
/// uninterrupted run. If a full bootstrap of the empty ledger would
/// succeed, then bootstrapping the partial {Board, Config} ledger also
/// succeeds, produces the very same five records, leaves the already-set
/// Board and Config fields untouched, and debits only the three records
/// still missing.
pub proof fn lemma_partial_retry(
    addrs: AddressesView,
    inv: InvocationView,
    full_balance: u64,
    retry_balance: u64,
    costs: RentCosts,
)
    requires
        initialize_spec(addrs, inv, empty_ledger_view(), full_balance, costs) is Ok,
        retry_balance >= costs.treasury + costs.treasury_tokens + costs.round0,
    ensures
        ({
            let full = initialize_spec(addrs, inv, empty_ledger_view(), full_balance, costs)
                ->Ok_0.0;
            let partial = board_config_only_ledger(inv.signer);
            let second = initialize_spec(addrs, inv, partial, retry_balance, costs);
            &&& second is Ok
            &&& second->Ok_0.0 == full
            &&& second->Ok_0.0.board == partial.board
            &&& second->Ok_0.0.config == partial.config
            &&& retry_balance - second->Ok_0.1 == costs.treasury + costs.treasury_tokens
                + costs.round0
        }),
{
    let full = initialize_spec(addrs, inv, empty_ledger_view(), full_balance, costs)->Ok_0.0;
    let partial = board_config_only_ledger(inv.signer);
    assert(required_funding(partial, costs) == costs.treasury + costs.treasury_tokens
        + costs.round0);
    assert(filled_ledger(partial, inv.signer, addrs.treasury) =~= full);
}

/// Whether every record that exists in `l` already holds its genesis
/// value: the state left behind by any sequence of partial bootstrap
/// attempts on an initially empty ledger.
pub open spec fn partially_bootstrapped(
    l: LedgerView,
    signer: Seq<u8>,
    treasury_address: Seq<u8>,
) -> bool {
    &&& (l.board is Some ==> l.board == Some(genesis_board_view()))
    &&& (l.config is Some ==> l.config == Some(genesis_config_view(signer)))
    &&& (l.treasury is Some ==> l.treasury == Some(genesis_treasury_view()))
    &&& (l.treasury_tokens is Some ==> l.treasury_tokens == Some(
        genesis_token_holding_view(treasury_address),
    ))
    &&& (l.round0 is Some ==> l.round0 == Some(genesis_round_view(0, signer)))
}

/// Law: creation order is irrelevant. From any partially bootstrapped
/// ledger — whatever subset of the five records earlier attempts managed
/// to create, in whatever order — a funded invocation converges to
/// exactly the state of one uninterrupted run, keeps every existing
/// record untouched, and debits only the records still missing.
pub proof fn lemma_order_irrelevant(
    addrs: AddressesView,
    inv: InvocationView,
    partial: LedgerView,
    full_balance: u64,
    retry_balance: u64,
    costs: RentCosts,
)
    requires
        initialize_spec(addrs, inv, empty_ledger_view(), full_balance, costs) is Ok,
        partially_bootstrapped(partial, inv.signer, addrs.treasury),
        retry_balance >= required_funding(partial, costs),
    ensures
        ({
            let full = initialize_spec(addrs, inv, empty_ledger_view(), full_balance, costs)
                ->Ok_0.0;
            let second = initialize_spec(addrs, inv, partial, retry_balance, costs);
            &&& second is Ok
            &&& second->Ok_0.0 == full
            &&& (partial.board is Some ==> second->Ok_0.0.board == partial.board)
            &&& (partial.config is Some ==> second->Ok_0.0.config == partial.config)
            &&& (partial.treasury is Some ==> second->Ok_0.0.treasury == partial.treasury)
            &&& (partial.treasury_tokens is Some ==> second->Ok_0.0.treasury_tokens
                == partial.treasury_tokens)
            &&& (partial.round0 is Some ==> second->Ok_0.0.round0 == partial.round0)
            &&& retry_balance - second->Ok_0.1 == required_funding(partial, costs)
        }),
{
    let full = initialize_spec(addrs, inv, empty_ledger_view(), full_balance, costs)->Ok_0.0;
    assert(filled_ledger(partial, inv.signer, addrs.treasury) =~= full);
}

/// Law: a successful first bootstrap of the empty ledger establishes the
/// genesis zero-state. Every Treasury scalar and accumulator is zero (so
/// the conservation invariant holds trivially), the Board points at round
/// zero with no round scheduled, Config's three authority roles are all
/// the signer, and Round 0 is all-zero with the unscheduled expiry.
pub proof fn lemma_genesis_zero_state(
    addrs: AddressesView,
    inv: InvocationView,
    balance: u64,
    costs: RentCosts,
)
    requires
        initialize_spec(addrs, inv, empty_ledger_view(), balance, costs) is Ok,
    ensures
        ({
            let l = initialize_spec(addrs, inv, empty_ledger_view(), balance, costs)->Ok_0.0;
            &&& l.treasury matches Some(t) && t.balance == 0 && t.motherlode == 0
                && t.total_staked == 0 && t.total_unclaimed == 0 && t.total_refined == 0
                && t.miner_rewards_factor == 0 && t.stake_rewards_factor == 0 && t.conserves(0)
            &&& l.board matches Some(b) && b.round_id == 0 && b.start_slot == UNSCHEDULED
                && b.end_slot == UNSCHEDULED
            &&& l.config matches Some(c) && c.admin == inv.signer && c.bury_authority
                == inv.signer && c.fee_collector == inv.signer && c.buffer == 0
            &&& l.round0 matches Some(r) && r.id == 0 && r.expires_at == UNSCHEDULED
                && r.rent_payer == inv.signer && r.deployed.len() == SLOT_COUNT && r.count.len()
                == SLOT_COUNT && (forall|i: int|
                0 <= i < SLOT_COUNT ==> r.deployed[i] == 0 && r.count[i] == 0) && (forall|i: int|
                0 <= i < 32 ==> r.slot_hash[i] == 0)
            &&& l.treasury_tokens matches Some(tt) && tt.owner == addrs.treasury && tt.mint
                == mint_id_spec() && tt.amount == 0
        }),
{
}

/// Law: every failed validation gate rejects the whole invocation with
/// its own error kind, and a failing invocation commits nothing — its
/// result carries no ledger at all. An unsigned call is `Unauthorized`; a
/// non-matching mint is `IdentityMismatch`; a forged storage-allocator,
/// asset-program or derived-token-account identity is `IdentityMismatch`.
pub proof fn lemma_validation_rejection(
    addrs: AddressesView,
    inv: InvocationView,
    ledger: LedgerView,
    balance: u64,
    costs: RentCosts,
)
    ensures
        !inv.signer_authorized ==> initialize_spec(addrs, inv, ledger, balance, costs) == Err::<
            (LedgerView, u64),
            BootstrapError,
        >(BootstrapError::Unauthorized),
        inv.signer_authorized && inv.mint_address != mint_id_spec() ==> initialize_spec(
            addrs,
            inv,
            ledger,
            balance,
            costs,
        ) == Err::<(LedgerView, u64), BootstrapError>(BootstrapError::IdentityMismatch),
        inv.signer_authorized && inv.mint_address == mint_id_spec() && inv.mint_is_token_mint && (
        inv.system_program != system_program_id_spec() || inv.token_program
            != token_program_id_spec() || inv.associated_token_program != ata_program_id_spec())
            ==> initialize_spec(addrs, inv, ledger, balance, costs) == Err::<
            (LedgerView, u64),
            BootstrapError,
        >(BootstrapError::IdentityMismatch),
        validation_error(addrs, inv) matches Some(e) ==> initialize_spec(
            addrs,
            inv,
            ledger,
            balance,
            costs,
        ) == Err::<(LedgerView, u64), BootstrapError>(e),
{
}

/// Law: no two protocol records share a seed sequence, and distinct round
/// ids have distinct seed sequences — the one-way derivation is fed
/// distinct inputs for distinct records.
pub proof fn lemma_role_seeds_distinct(i: u64, j: u64)
    ensures
        board_seeds() != config_seeds(),
        board_seeds() != treasury_seeds(),
        config_seeds() != treasury_seeds(),
        round_seeds(i) != board_seeds(),
        round_seeds(i) != config_seeds(),
        round_seeds(i) != treasury_seeds(),
        i != j ==> round_seeds(i) != round_seeds(j),
{
    assert(board_seeds()[0][0] != config_seeds()[0][0]);
    assert(board_seeds()[0][0] != treasury_seeds()[0][0]);
    assert(config_seeds()[0][0] != treasury_seeds()[0][0]);
    assert(round_seeds(i).len() != board_seeds().len());
    assert(round_seeds(i).len() != config_seeds().len());
    assert(round_seeds(i).len() != treasury_seeds().len());
    if i != j && round_seeds(i) == round_seeds(j) {
        assert(u64_le_bytes(i) == u64_le_bytes(j));
        assert((i & 0xff) as u8 == (j & 0xff) as u8);
        assert(((i >> 8) & 0xff) as u8 == ((j >> 8) & 0xff) as u8);
        assert(((i >> 16) & 0xff) as u8 == ((j >> 16) & 0xff) as u8);
        assert(((i >> 24) & 0xff) as u8 == ((j >> 24) & 0xff) as u8);
        assert(((i >> 32) & 0xff) as u8 == ((j >> 32) & 0xff) as u8);
        assert(((i >> 40) & 0xff) as u8 == ((j >> 40) & 0xff) as u8);
        assert(((i >> 48) & 0xff) as u8 == ((j >> 48) & 0xff) as u8);
        assert(((i >> 56) & 0xff) as u8 == ((j >> 56) & 0xff) as u8);
        assert(((i & 0xff) as u8 == (j & 0xff) as u8 && ((i >> 8) & 0xff) as u8 == ((j >> 8)
            & 0xff) as u8 && ((i >> 16) & 0xff) as u8 == ((j >> 16) & 0xff) as u8 && ((i >> 24)
            & 0xff) as u8 == ((j >> 24) & 0xff) as u8 && ((i >> 32) & 0xff) as u8 == ((j >> 32)
            & 0xff) as u8 && ((i >> 40) & 0xff) as u8 == ((j >> 40) & 0xff) as u8 && ((i >> 48)
            & 0xff) as u8 == ((j >> 48) & 0xff) as u8 && ((i >> 56) & 0xff) as u8 == ((j >> 56)
            & 0xff) as u8) ==> i == j) by (bit_vector);
    }
}

} // verus!
