//! The address deriver: deterministic, keyless addresses for the escrow
//! record and for asset holding accounts.
//!
//! The escrow record lives at an address derived from a fixed namespace tag,
//! the maker's identity and a caller-chosen seed, together with a single-byte
//! tie-break value ("bump") produced by the derivation search.  The holding
//! account for an asset lives at the address associated with its owning
//! wallet and the asset type.  Both derivations are pure: their results are
//! functions of their inputs alone, which is what lets any later instruction
//! re-locate the same accounts.

use vstd::prelude::*;

use crate::address::Address;
use crate::error::EscrowError;
use anchor_lang::solana_program::pubkey::Pubkey;

verus! {

/// The address and tie-break value that the program-derived-address search
/// returns for three seed slices under a program identity, or `None` when no
/// tie-break value in the search range yields a valid address.
pub uninterp spec fn pda_of(
    seed0: Seq<u8>,
    seed1: Seq<u8>,
    seed2: Seq<u8>,
    program_id: Seq<u8>,
) -> Option<(Seq<u8>, u8)>;

/// The associated holding-account address for a wallet and an asset type.
pub uninterp spec fn ata_of(wallet: Seq<u8>, asset: Seq<u8>) -> Seq<u8>;

/// The namespace tag that separates this protocol's escrow-record addresses
/// from unrelated uses of the same address space: the bytes of `escrow`.
pub open spec fn escrow_namespace() -> Seq<u8> {
    seq![101u8, 115u8, 99u8, 114u8, 111u8, 119u8]
}

/// The namespace tag as an executable value.
pub fn namespace_bytes() -> (v: Vec<u8>)
    ensures
        v@ == escrow_namespace(),
{
    let mut v: Vec<u8> = Vec::new();
    v.push(101u8);
    v.push(115u8);
    v.push(99u8);
    v.push(114u8);
    v.push(111u8);
    v.push(119u8);
    proof {
        assert(v@ =~= escrow_namespace());
    }
    v
}

/// Relies on `Pubkey::try_find_program_address` (anchor_lang's re-export of
/// the ledger's address type): the result is a function of the seed slices
/// and the program identity alone, and is `None` exactly when the bump
/// search finds no valid derived address.
#[verifier::external_body]
fn find_pda(seed0: &[u8], seed1: &Address, seed2: &[u8], program_id: &Address) -> (r: Option<
    (Address, u8),
>)
    ensures
        r matches Some(p) ==> pda_of(seed0@, seed1@, seed2@, program_id@) == Some((p.0@, p.1)),
        r is None ==> pda_of(seed0@, seed1@, seed2@, program_id@) is None,
{
    let pid = Pubkey::new_from_array(program_id.bytes);
    match Pubkey::try_find_program_address(&[seed0, &seed1.bytes, seed2], &pid) {
        Some((a, b)) => Some((Address { bytes: a.to_bytes() }, b)),
        None => None,
    }
}

/// Relies on `anchor_spl::associated_token::get_associated_token_address`:
/// the result is a function of the wallet and asset-type addresses alone.
#[verifier::external_body]
fn find_ata(wallet: &Address, asset: &Address) -> (r: Address)
    ensures
        r@ == ata_of(wallet@, asset@),
{
    let w = Pubkey::new_from_array(wallet.bytes);
    let m = Pubkey::new_from_array(asset.bytes);
    let ata = anchor_spl::associated_token::get_associated_token_address(&w, &m);
    Address { bytes: ata.to_bytes() }
}

/// The escrow record's derived address and tie-break value for a program
/// identity, a maker and a seed.
pub open spec fn escrow_address_of(program_id: Seq<u8>, maker: Seq<u8>, seed: u64) -> Option<
    (Seq<u8>, u8),
> {
    pda_of(
        escrow_namespace(),
        maker,
        vstd::bytes::spec_u64_to_le_bytes(seed),
        program_id,
    )
}

/// Derives the escrow record's address and canonical tie-break value for a
/// maker and seed under a program identity.  Fails with
/// `DerivationExhausted` exactly when no canonical derivation exists.
pub fn derive_escrow_address(program_id: &Address, maker: &Address, seed: u64) -> (r: Result<
    (Address, u8),
    EscrowError,
>)
    ensures
        match r {
            Ok(p) => escrow_address_of(program_id@, maker@, seed) == Some((p.0@, p.1)),
            Err(e) => {
                &&& e == EscrowError::DerivationExhausted
                &&& escrow_address_of(program_id@, maker@, seed) is None
            },
        },
{
    let ns = namespace_bytes();
    let seed_bytes = vstd::bytes::u64_to_le_bytes(seed);
    match find_pda(ns.as_slice(), maker, seed_bytes.as_slice(), program_id) {
        Some(p) => Ok(p),
        None => Err(EscrowError::DerivationExhausted),
    }
}

/// The address of the holding account that a wallet owns for an asset type.
/// For the escrow's vault the wallet is the escrow record's own derived
/// address, which is what makes the lock custodial: no caller-held key is
/// the holding account's owner.
pub fn associated_holding_address(wallet: &Address, asset: &Address) -> (r: Address)
    ensures
        r@ == ata_of(wallet@, asset@),
{
    find_ata(wallet, asset)
}

/// Determinism of the deriver: the derived address and tie-break value are a
/// function of the program identity, maker and seed alone, so any two
/// results of the same derivation are equal.
pub proof fn lemma_derivation_deterministic(
    program_id: Seq<u8>,
    maker: Seq<u8>,
    seed: u64,
    r1: Option<(Seq<u8>, u8)>,
    r2: Option<(Seq<u8>, u8)>,
)
    requires
        r1 == escrow_address_of(program_id, maker, seed),
        r2 == escrow_address_of(program_id, maker, seed),
    ensures
        r1 == r2,
{
}

} // verus!
