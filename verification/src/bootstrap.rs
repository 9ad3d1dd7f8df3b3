//! The bootstrap orchestrator: validation gates, the idempotent creator,
//! and the contracts that make genesis crash-safe.
//!
//! One invocation is a single atomic unit of work: either every validation
//! gate passes and every missing record is created with its genesis value,
//! or an error is returned and nothing is committed. Records that already
//! exist are left untouched regardless of their contents, which makes the
//! whole procedure idempotent and safe to retry after a partial earlier
//! attempt.

use vstd::prelude::*;
use crate::addr::{
    mint_id_spec, system_program_id_spec, token_program_id_spec, ata_program_id_spec, bytes_eq,
    mint_id_bytes,
};
use crate::error::BootstrapError;
use crate::records::{
    Board, BoardView, Config, ConfigView, Treasury, TreasuryView, TokenHolding, TokenHoldingView,
    Round, RoundView, genesis_board_view, genesis_config_view, genesis_treasury_view,
    genesis_token_holding_view, genesis_round_view,
};
use crate::derivation::{
    ProtocolAddresses, AddressesView, all_derivations_ok, protocol_addresses_spec,
    derive_protocol_addresses, fetch_system_program_id, fetch_token_program_id,
    fetch_ata_program_id,
};

verus! {

/// Number of locations an invocation must supply: signer, the five record
/// locations, the mint, and the three infrastructure collaborators.
pub const ACCOUNT_COUNT: usize = 10;

/// The plain facts about one bootstrap invocation: who signed, which
/// locations were supplied, and which collaborator identities they carry.
#[derive(Clone, Debug)]
pub struct Invocation {
    /// The bootstrapper's identity; pays for any new storage.
    pub signer: Vec<u8>,
    /// Whether the signer actually authorized the transaction.
    pub signer_authorized: bool,
    /// The supplied mint location.
    pub mint_address: Vec<u8>,
    /// Whether the supplied mint location already holds a valid
    /// fungible-asset descriptor.
    pub mint_is_token_mint: bool,
    /// The supplied storage-allocator identity.
    pub system_program: Vec<u8>,
    /// The supplied asset-program identity.
    pub token_program: Vec<u8>,
    /// The supplied derived-token-account program identity.
    pub associated_token_program: Vec<u8>,
    /// The supplied location for the Board singleton.
    pub board_location: Vec<u8>,
    /// The supplied location for the Config singleton.
    pub config_location: Vec<u8>,
    /// The supplied location for the Treasury singleton.
    pub treasury_location: Vec<u8>,
    /// The supplied location for the treasury's token holding account.
    pub treasury_tokens_location: Vec<u8>,
    /// The supplied location for Round 0.
    pub round0_location: Vec<u8>,
}

/// Mathematical view of an [`Invocation`].
#[verifier::ext_equal]
pub ghost struct InvocationView {
    pub signer: Seq<u8>,
    pub signer_authorized: bool,
    pub mint_address: Seq<u8>,
    pub mint_is_token_mint: bool,
    pub system_program: Seq<u8>,
    pub token_program: Seq<u8>,
    pub associated_token_program: Seq<u8>,
    pub board_location: Seq<u8>,
    pub config_location: Seq<u8>,
    pub treasury_location: Seq<u8>,
    pub treasury_tokens_location: Seq<u8>,
    pub round0_location: Seq<u8>,
}

impl View for Invocation {
    type V = InvocationView;

    open spec fn view(&self) -> InvocationView {
        InvocationView {
            signer: self.signer@,
            signer_authorized: self.signer_authorized,
            mint_address: self.mint_address@,
            mint_is_token_mint: self.mint_is_token_mint,
            system_program: self.system_program@,
            token_program: self.token_program@,
            associated_token_program: self.associated_token_program@,
            board_location: self.board_location@,
            config_location: self.config_location@,
            treasury_location: self.treasury_location@,
            treasury_tokens_location: self.treasury_tokens_location@,
            round0_location: self.round0_location@,
        }
    }
}

/// The five record slots the bootstrap touches. `None` means the location
/// holds no storage yet; `Some` holds whatever record is already there.
#[derive(Clone, Debug, PartialEq, Eq)]
pub struct Ledger {
    pub board: Option<Board>,
    pub config: Option<Config>,
    pub treasury: Option<Treasury>,
    pub treasury_tokens: Option<TokenHolding>,
    pub round0: Option<Round>,
}

/// Mathematical view of a [`Ledger`].
#[verifier::ext_equal]
pub ghost struct LedgerView {
    pub board: Option<BoardView>,
    pub config: Option<ConfigView>,
    pub treasury: Option<TreasuryView>,
    pub treasury_tokens: Option<TokenHoldingView>,
    pub round0: Option<RoundView>,
}

impl View for Ledger {
    type V = LedgerView;

    open spec fn view(&self) -> LedgerView {
        LedgerView {
            board: match self.board {
                Some(b) => Some(b@),
                None => None,
            },
            config: match self.config {
                Some(c) => Some(c@),
                None => None,
            },
            treasury: match self.treasury {
                Some(t) => Some(t@),
                None => None,
            },
            treasury_tokens: match self.treasury_tokens {
                Some(t) => Some(t@),
                None => None,
            },
            round0: match self.round0 {
                Some(r) => Some(r@),
                None => None,
            },
        }
    }
}

/// A ledger in which no record exists yet.
pub open spec fn empty_ledger_view() -> LedgerView {
    LedgerView { board: None, config: None, treasury: None, treasury_tokens: None, round0: None }
}

impl Ledger {
    /// The empty ledger: no record exists yet.
    pub fn empty() -> (r: Ledger)
        ensures
            r@ == empty_ledger_view(),
    {
        Ledger { board: None, config: None, treasury: None, treasury_tokens: None, round0: None }
    }
}

/// The minimum funding each record needs to stay alive, as the enclosing
/// runtime prices it for this invocation.
#[derive(Clone, Copy, PartialEq, Eq, Structural)]
pub struct RentCosts {
    pub board: u64,
    pub config: u64,
    pub treasury: u64,
    pub treasury_tokens: u64,
    pub round0: u64,
}

/// The first validation gate that fails, if any: the signer must have
/// authorized the call; the mint location must be the fixed mint identity
/// and already hold a valid fungible-asset descriptor; the three
/// collaborator identities must be the canonical ones for their roles; and
/// each supplied record location must match its derived address.
pub open spec fn validation_error(addrs: AddressesView, inv: InvocationView) -> Option<
    BootstrapError,
> {
    if !inv.signer_authorized {
        Some(BootstrapError::Unauthorized)
    } else if inv.mint_address != mint_id_spec() {
        Some(BootstrapError::IdentityMismatch)
    } else if !inv.mint_is_token_mint {
        Some(BootstrapError::MalformedInvocation)
    } else if inv.system_program != system_program_id_spec() {
        Some(BootstrapError::IdentityMismatch)
    } else if inv.token_program != token_program_id_spec() {
        Some(BootstrapError::IdentityMismatch)
    } else if inv.associated_token_program != ata_program_id_spec() {
        Some(BootstrapError::IdentityMismatch)
    } else if inv.board_location != addrs.board || inv.config_location != addrs.config
        || inv.treasury_location != addrs.treasury || inv.treasury_tokens_location
        != addrs.treasury_tokens || inv.round0_location != addrs.round0 {
        Some(BootstrapError::MalformedInvocation)
    } else {
        None
    }
}

/// The funding a successful invocation debits from the signer: the cost of
/// exactly those records that do not exist yet.
pub open spec fn required_funding(l: LedgerView, costs: RentCosts) -> int {
    (if l.board is None {
        costs.board as int
    } else {
        0
    }) + (if l.config is None {
        costs.config as int
    } else {
        0
    }) + (if l.treasury is None {
        costs.treasury as int
    } else {
        0
    }) + (if l.treasury_tokens is None {
        costs.treasury_tokens as int
    } else {
        0
    }) + (if l.round0 is None {
        costs.round0 as int
    } else {
        0
    })
}

/// The ledger after a successful invocation: every existing record is kept
/// exactly as it was, and every missing record holds its genesis value.
pub open spec fn filled_ledger(l: LedgerView, signer: Seq<u8>, treasury_address: Seq<u8>)
    -> LedgerView {
    LedgerView {
        board: if l.board is Some {
            l.board
        } else {
            Some(genesis_board_view())
        },
        config: if l.config is Some {
            l.config
        } else {
            Some(genesis_config_view(signer))
        },
        treasury: if l.treasury is Some {
            l.treasury
        } else {
            Some(genesis_treasury_view())
        },
        treasury_tokens: if l.treasury_tokens is Some {
            l.treasury_tokens
        } else {
            Some(genesis_token_holding_view(treasury_address))
        },
        round0: if l.round0 is Some {
            l.round0
        } else {
            Some(genesis_round_view(0, signer))
        },
    }
}

/// What one bootstrap invocation does, in full: the result state of the
/// five records and the signer's remaining balance on success, or the
/// exact error on failure. Nothing is committed by a failing invocation.
pub open spec fn initialize_spec(
    addrs: AddressesView,
    inv: InvocationView,
    l: LedgerView,
    balance: u64,
    costs: RentCosts,
) -> Result<(LedgerView, u64), BootstrapError> {
    if validation_error(addrs, inv) is Some {
        Err(validation_error(addrs, inv)->Some_0)
    } else if (balance as int) < required_funding(l, costs) {
        Err(BootstrapError::InsufficientFunds)
    } else {
        Ok(
            (
                filled_ledger(l, inv.signer, addrs.treasury),
                (balance - required_funding(l, costs)) as u64,
            ),
        )
    }
}

/// The idempotent creator: the protocol's single concurrency-control
/// primitive. For a record slot, it allocates the freshly initialized
/// record only if the slot is empty; a slot that already holds a record is
/// returned unchanged, regardless of its contents — a successful no-op
/// with no read-back comparison and no overwrite. The second component
/// reports whether a record was created now.
pub fn ensure_created<T>(existing: Option<T>, fresh: T) -> (r: (T, bool))
    ensures
        (match existing {
            Some(v) => r.0 == v && r.1 == false,
            None => r.0 == fresh && r.1 == true,
        }),
{
    match existing {
        Some(v) => (v, false),
        None => (fresh, true),
    }
}

/// Check that the invocation supplies the expected number of locations.
pub fn check_account_count(n: usize) -> (r: Result<(), BootstrapError>)
    ensures
        (match r {
            Ok(u) => n == ACCOUNT_COUNT,
            Err(e) => n != ACCOUNT_COUNT && e == BootstrapError::MalformedInvocation,
        }),
{
    if n == ACCOUNT_COUNT {
        Ok(())
    } else {
        Err(BootstrapError::MalformedInvocation)
    }
}

/// Run every validation gate, before any creation occurs. Returns `Ok`
/// exactly when no gate fails, and otherwise the first failing gate's
/// error.
pub fn validate_invocation(addrs: &ProtocolAddresses, inv: &Invocation) -> (r: Result<
    (),
    BootstrapError,
>)
    ensures
        (match r {
            Ok(u) => validation_error(addrs@, inv@) is None,
            Err(e) => validation_error(addrs@, inv@) == Some(e),
        }),
{
    if !inv.signer_authorized {
        return Err(BootstrapError::Unauthorized);
    }
    let mint = mint_id_bytes();
    if !bytes_eq(&inv.mint_address, &mint) {
        return Err(BootstrapError::IdentityMismatch);
    }
    if !inv.mint_is_token_mint {
        return Err(BootstrapError::MalformedInvocation);
    }
    let system_id = fetch_system_program_id();
    if !bytes_eq(&inv.system_program, &system_id) {
        return Err(BootstrapError::IdentityMismatch);
    }
    let token_id = fetch_token_program_id();
    if !bytes_eq(&inv.token_program, &token_id) {
        return Err(BootstrapError::IdentityMismatch);
    }
    let ata_id = fetch_ata_program_id();
    if !bytes_eq(&inv.associated_token_program, &ata_id) {
        return Err(BootstrapError::IdentityMismatch);
    }
    if !bytes_eq(&inv.board_location, &addrs.board) || !bytes_eq(
        &inv.config_location,
        &addrs.config,
    ) || !bytes_eq(&inv.treasury_location, &addrs.treasury) || !bytes_eq(
        &inv.treasury_tokens_location,
        &addrs.treasury_tokens,
    ) || !bytes_eq(&inv.round0_location, &addrs.round0) {
        return Err(BootstrapError::MalformedInvocation);
    }
    Ok(())
}

/// Bootstrap against already-derived protocol addresses: validate, check
/// funding, then ensure each of the five records exists. Exactly
/// [`initialize_spec`] of the inputs.
pub fn initialize_with(
    addrs: &ProtocolAddresses,
    inv: &Invocation,
    ledger: Ledger,
    balance: u64,
    costs: &RentCosts,
) -> (r: Result<(Ledger, u64), BootstrapError>)
    ensures
        (match r {
            Ok(p) => initialize_spec(addrs@, inv@, ledger@, balance, *costs) == Ok::<
                (LedgerView, u64),
                BootstrapError,
            >((p.0@, p.1)),
            Err(e) => initialize_spec(addrs@, inv@, ledger@, balance, *costs) == Err::<
                (LedgerView, u64),
                BootstrapError,
            >(e),
        }),
{
    match validate_invocation(addrs, inv) {
        Err(e) => {
            return Err(e);
        },
        Ok(u) => {},
    }

    let mut needed: u128 = 0;
    if ledger.board.is_none() {
        needed = needed + (costs.board as u128);
    }
    if ledger.config.is_none() {
        needed = needed + (costs.config as u128);
    }
    if ledger.treasury.is_none() {
        needed = needed + (costs.treasury as u128);
    }
    if ledger.treasury_tokens.is_none() {
        needed = needed + (costs.treasury_tokens as u128);
    }
    if ledger.round0.is_none() {
        needed = needed + (costs.round0 as u128);
    }
    proof {
        assert(needed == required_funding(ledger@, *costs));
    }
    if (balance as u128) < needed {
        return Err(BootstrapError::InsufficientFunds);
    }
    let spend: u64 = needed as u64;
    let remaining: u64 = balance - spend;

    let (board, _created_board) = ensure_created(ledger.board, Board::genesis());
    let (config, _created_config) = ensure_created(ledger.config, Config::genesis(&inv.signer));
    let (treasury, _created_treasury) = ensure_created(ledger.treasury, Treasury::genesis());
    let (treasury_tokens, _created_tokens) = ensure_created(
        ledger.treasury_tokens,
        TokenHolding::genesis(&addrs.treasury),
    );
    let (round0, _created_round0) = ensure_created(ledger.round0, Round::genesis(0, &inv.signer));

    let out = Ledger {
        board: Some(board),
        config: Some(config),
        treasury: Some(treasury),
        treasury_tokens: Some(treasury_tokens),
        round0: Some(round0),
    };
    proof {
        assert(out@ =~= filled_ledger(ledger@, inv@.signer, addrs@.treasury));
    }
    Ok((out, remaining))
}

/// The bootstrap entry point: recompute the five protocol addresses, then
/// bootstrap against them. On success all five records hold valid,
/// mutually consistent genesis state, whether created by this call or an
/// earlier one; nothing distinguishes "created now" from "already
/// existed".
pub fn initialize(inv: &Invocation, ledger: Ledger, balance: u64, costs: &RentCosts) -> (r: Result<
    (Ledger, u64),
    BootstrapError,
>)
    ensures
        (match r {
            Ok(p) => all_derivations_ok() && initialize_spec(
                protocol_addresses_spec(),
                inv@,
                ledger@,
                balance,
                *costs,
            ) == Ok::<(LedgerView, u64), BootstrapError>((p.0@, p.1)),
            Err(e) => if all_derivations_ok() {
                initialize_spec(protocol_addresses_spec(), inv@, ledger@, balance, *costs)
                    == Err::<(LedgerView, u64), BootstrapError>(e)
            } else {
                e == BootstrapError::DerivationExhausted
            },
        }),
{
    let addrs = match derive_protocol_addresses() {
        Ok(a) => a,
        Err(e) => {
            return Err(e);
        },
    };
    initialize_with(&addrs, inv, ledger, balance, costs)
}

} // verus!
