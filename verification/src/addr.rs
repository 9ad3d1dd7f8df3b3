//! Addresses as plain byte strings, and the protocol's fixed identities.
//!
//! A record location ("address") is a 32-byte string. The protocol's own
//! identity and the fixed mint identity are constants of this library; the
//! identities of the three infrastructure collaborators (storage allocator,
//! asset program, derived-token-account program) are stated here as exact
//! byte sequences and tied to the collaborator crates' own constants in
//! `derivation`.

use vstd::prelude::*;

verus! {

/// Number of bytes in a record address.
pub const ADDRESS_LEN: usize = 32;

/// A byte string is a well-formed address when it is exactly 32 bytes long.
pub open spec fn is_address(s: Seq<u8>) -> bool {
    s.len() == ADDRESS_LEN
}

/// The all-zero address: the null value for optional address fields, and
/// also the storage allocator's well-known identity.
pub open spec fn zero_address() -> Seq<u8> {
    Seq::new(ADDRESS_LEN as nat, |i: int| 0u8)
}

/// The protocol program's own identity.
pub open spec fn program_id_spec() -> Seq<u8> {
    seq![
        148u8, 164u8, 22u8, 81u8, 240u8, 16u8, 32u8, 142u8,
        71u8, 31u8, 175u8, 133u8, 212u8, 128u8, 45u8, 102u8,
        242u8, 234u8, 16u8, 238u8, 246u8, 35u8, 224u8, 123u8,
        20u8, 210u8, 198u8, 136u8, 197u8, 27u8, 171u8, 229u8,
    ]
}

/// The one fixed, globally-known mint identity the bootstrap accepts.
pub open spec fn mint_id_spec() -> Seq<u8> {
    seq![
        12u8, 0u8, 219u8, 206u8, 184u8, 206u8, 170u8, 115u8,
        88u8, 148u8, 90u8, 71u8, 91u8, 202u8, 159u8, 0u8,
        42u8, 208u8, 178u8, 230u8, 216u8, 176u8, 99u8, 200u8,
        37u8, 168u8, 88u8, 22u8, 67u8, 185u8, 245u8, 117u8,
    ]
}

/// The storage allocator's (system program's) well-known identity: all zeros.
pub open spec fn system_program_id_spec() -> Seq<u8> {
    zero_address()
}

/// The asset (token) program's well-known identity.
pub open spec fn token_program_id_spec() -> Seq<u8> {
    seq![
        6u8, 221u8, 246u8, 225u8, 215u8, 101u8, 161u8, 147u8,
        217u8, 203u8, 225u8, 70u8, 206u8, 235u8, 121u8, 172u8,
        28u8, 180u8, 133u8, 237u8, 95u8, 91u8, 55u8, 145u8,
        58u8, 140u8, 245u8, 133u8, 126u8, 255u8, 0u8, 169u8,
    ]
}

/// The derived-token-account (associated token) program's well-known identity.
pub open spec fn ata_program_id_spec() -> Seq<u8> {
    seq![
        140u8, 151u8, 37u8, 143u8, 78u8, 36u8, 137u8, 241u8,
        187u8, 61u8, 16u8, 41u8, 20u8, 142u8, 13u8, 131u8,
        11u8, 90u8, 19u8, 153u8, 218u8, 255u8, 16u8, 132u8,
        4u8, 142u8, 123u8, 216u8, 219u8, 233u8, 248u8, 89u8,
    ]
}

/// Byte-for-byte equality of two byte strings.
pub fn bytes_eq(a: &Vec<u8>, b: &Vec<u8>) -> (r: bool)
    ensures
        r <==> a@ == b@,
{
    if a.len() != b.len() {
        proof {
            assert(a@ != b@) by {
                assert(a@.len() != b@.len());
            }
        }
        return false;
    }
    let n: usize = a.len();
    let mut i: usize = 0;
    while i < n
        invariant
            n == a@.len() && n == b@.len(),
            i <= n,
            forall|j: int| 0 <= j < i ==> a@[j] == b@[j],
        decreases n - i,
    {
        if a[i] != b[i] {
            return false;
        }
        i += 1;
    }
    proof {
        assert(a@ =~= b@);
    }
    true
}

/// A fresh copy of a byte string.
pub fn copy_bytes(a: &Vec<u8>) -> (r: Vec<u8>)
    ensures
        r@ == a@,
{
    let mut r: Vec<u8> = Vec::new();
    let n: usize = a.len();
    let mut i: usize = 0;
    while i < n
        invariant
            n == a@.len(),
            i <= n,
            r@ =~= a@.subrange(0, i as int),
        decreases n - i,
    {
        r.push(a[i]);
        i += 1;
    }
    proof {
        assert(r@ =~= a@);
    }
    r
}

/// The all-zero address as a concrete value.
pub fn zero_address_bytes() -> (r: Vec<u8>)
    ensures
        r@ == zero_address(),
{
    let mut r: Vec<u8> = Vec::new();
    let mut i: usize = 0;
    while i < ADDRESS_LEN
        invariant
            i <= ADDRESS_LEN,
            r@.len() == i,
            forall|j: int| 0 <= j < i ==> r@[j] == 0u8,
        decreases ADDRESS_LEN - i,
    {
        r.push(0u8);
        i += 1;
    }
    proof {
        assert(r@ =~= zero_address());
    }
    r
}

/// The protocol program's identity as a concrete value.
pub fn program_id_bytes() -> (r: Vec<u8>)
    ensures
        r@ == program_id_spec(),
{
    let r: Vec<u8> = vec![
        148u8, 164u8, 22u8, 81u8, 240u8, 16u8, 32u8, 142u8,
        71u8, 31u8, 175u8, 133u8, 212u8, 128u8, 45u8, 102u8,
        242u8, 234u8, 16u8, 238u8, 246u8, 35u8, 224u8, 123u8,
        20u8, 210u8, 198u8, 136u8, 197u8, 27u8, 171u8, 229u8,
    ];
    proof {
        assert(r@ =~= program_id_spec());
    }
    r
}

/// The fixed mint identity as a concrete value.
pub fn mint_id_bytes() -> (r: Vec<u8>)
    ensures
        r@ == mint_id_spec(),
{
    let r: Vec<u8> = vec![
        12u8, 0u8, 219u8, 206u8, 184u8, 206u8, 170u8, 115u8,
        88u8, 148u8, 90u8, 71u8, 91u8, 202u8, 159u8, 0u8,
        42u8, 208u8, 178u8, 230u8, 216u8, 176u8, 99u8, 200u8,
        37u8, 168u8, 88u8, 22u8, 67u8, 185u8, 245u8, 117u8,
    ];
    proof {
        assert(r@ =~= mint_id_spec());
    }
    r
}

} // verus!
