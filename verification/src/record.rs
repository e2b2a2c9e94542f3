//! The escrow record and its fixed persisted layout.
//!
//! One record describes one pending swap.  Persisted form, fixed width:
//! an 8-byte record tag reserved by the allocation mechanism, then
//! `seed` (8 bytes, little endian), `maker` (32 bytes), `asset_offered`
//! (32 bytes), `asset_requested` (32 bytes), `amount_requested` (8 bytes,
//! little endian) and `derivation_bump` (1 byte): 121 bytes in all.

use vstd::prelude::*;

use crate::address::Address;

verus! {

broadcast use vstd::array::group_array_axioms;

/// Total width of a persisted escrow record in bytes.
pub const RECORD_LEN: usize = 121;

/// The authoritative description of one pending swap.
#[derive(Clone, Copy, Debug, PartialEq, Eq)]
pub struct EscrowRecord {
    /// Caller-chosen nonce; used only for address derivation, so one maker
    /// can keep several escrows open at once.
    pub seed: u64,
    /// The party who created the escrow and may reclaim the locked asset.
    pub maker: Address,
    /// Asset type locked in the holding account.
    pub asset_offered: Address,
    /// Asset type the maker wants in return.
    pub asset_requested: Address,
    /// Quantity of `asset_requested` a counterparty must supply to claim.
    pub amount_requested: u64,
    /// Canonical tie-break value returned by the address-derivation search;
    /// later instructions need it to re-derive the record's authority.
    pub derivation_bump: u8,
}

impl EscrowRecord {
    /// A record is well formed when its two asset types are distinct.
    pub open spec fn wf(self) -> bool {
        self.asset_offered@ != self.asset_requested@
    }
}

/// The fixed 8-byte tag at the head of every persisted escrow record.
pub open spec fn record_tag() -> Seq<u8> {
    seq![31u8, 213u8, 123u8, 187u8, 186u8, 22u8, 218u8, 155u8]
}

/// The persisted form of a record.
pub open spec fn spec_encode(r: EscrowRecord) -> Seq<u8> {
    record_tag() + vstd::bytes::spec_u64_to_le_bytes(r.seed) + r.maker@ + r.asset_offered@
        + r.asset_requested@ + vstd::bytes::spec_u64_to_le_bytes(r.amount_requested)
        + seq![r.derivation_bump]
}

/// Appends an address's 32 bytes to a byte buffer.
fn push_address(out: &mut Vec<u8>, a: &Address)
    ensures
        final(out)@ == old(out)@ + a@,
{
    proof {
        assert(out@ =~= old(out)@ + a@.subrange(0, 0));
    }
    let mut i: usize = 0;
    while i < 32
        invariant
            i <= 32,
            out@ == old(out)@ + a@.subrange(0, i as int),
        decreases 32 - i,
    {
        out.push(a.bytes[i]);
        proof {
            assert(old(out)@ + a@.subrange(0, i + 1 as int) =~= (old(out)@ + a@.subrange(
                0,
                i as int,
            )).push(a@[i as int]));
        }
        i += 1;
    }
    proof {
        assert(a@.subrange(0, 32) =~= a@);
    }
}

impl EscrowRecord {
    /// Serialises the record into its fixed persisted layout.
    pub fn encode(&self) -> (out: Vec<u8>)
        ensures
            out@ == spec_encode(*self),
            out@.len() == RECORD_LEN,
    {
        let mut out: Vec<u8> = Vec::new();
        out.push(31u8);
        out.push(213u8);
        out.push(123u8);
        out.push(187u8);
        out.push(186u8);
        out.push(22u8);
        out.push(218u8);
        out.push(155u8);
        proof {
            assert(out@ =~= record_tag());
        }
        let mut seed_bytes = vstd::bytes::u64_to_le_bytes(self.seed);
        out.append(&mut seed_bytes);
        push_address(&mut out, &self.maker);
        push_address(&mut out, &self.asset_offered);
        push_address(&mut out, &self.asset_requested);
        let mut amount_bytes = vstd::bytes::u64_to_le_bytes(self.amount_requested);
        out.append(&mut amount_bytes);
        out.push(self.derivation_bump);
        proof {
            vstd::bytes::lemma_auto_spec_u64_to_from_le_bytes();
            assert(out@ =~= spec_encode(*self));
        }
        out
    }

    /// Reads a record back out of its persisted layout.  Succeeds exactly on
    /// byte strings of the right length that carry the record tag, and the
    /// record read back is the one whose encoding the bytes are.
    pub fn decode(bytes: &[u8]) -> (r: Option<EscrowRecord>)
        ensures
            r is Some <==> (bytes@.len() == RECORD_LEN && bytes@.subrange(0, 8) == record_tag()),
            r matches Some(rec) ==> bytes@ == spec_encode(rec),
    {
        if bytes.len() != RECORD_LEN {
            return None;
        }
        let tag: [u8; 8] = [31u8, 213u8, 123u8, 187u8, 186u8, 22u8, 218u8, 155u8];
        let mut i: usize = 0;
        while i < 8
            invariant
                i <= 8,
                bytes@.len() == 121,
                tag@ == record_tag(),
                forall|j: int| 0 <= j < i ==> bytes@[j] == record_tag()[j],
            decreases 8 - i,
        {
            if *vstd::slice::slice_index_get(bytes, i) != tag[i] {
                proof {
                    assert(bytes@.subrange(0, 8) != record_tag());
                }
                return None;
            }
            i += 1;
        }
        proof {
            assert(bytes@.subrange(0, 8) =~= record_tag());
        }
        let seed = vstd::bytes::u64_from_le_bytes(vstd::slice::slice_subrange(bytes, 8, 16));
        let maker = Address::from_slice(vstd::slice::slice_subrange(bytes, 16, 48));
        let asset_offered = Address::from_slice(vstd::slice::slice_subrange(bytes, 48, 80));
        let asset_requested = Address::from_slice(vstd::slice::slice_subrange(bytes, 80, 112));
        let amount_requested = vstd::bytes::u64_from_le_bytes(
            vstd::slice::slice_subrange(bytes, 112, 120),
        );
        let derivation_bump = *vstd::slice::slice_index_get(bytes, 120);
        let rec = EscrowRecord {
            seed,
            maker,
            asset_offered,
            asset_requested,
            amount_requested,
            derivation_bump,
        };
        proof {
            vstd::bytes::lemma_auto_spec_u64_to_from_le_bytes();
            assert(vstd::bytes::spec_u64_to_le_bytes(seed) =~= bytes@.subrange(8, 16));
            assert(vstd::bytes::spec_u64_to_le_bytes(amount_requested) =~= bytes@.subrange(
                112,
                120,
            ));
            assert(bytes@ =~= spec_encode(rec));
        }
        Some(rec)
    }
}

/// The persisted layout is injective: two records with the same encoding are
/// the same record, so nothing is lost by writing a record to storage.
pub proof fn lemma_encode_injective(r1: EscrowRecord, r2: EscrowRecord)
    requires
        spec_encode(r1) == spec_encode(r2),
    ensures
        r1 == r2,
{
    vstd::bytes::lemma_auto_spec_u64_to_from_le_bytes();
    assert(spec_encode(r1).subrange(8, 16) =~= vstd::bytes::spec_u64_to_le_bytes(r1.seed));
    assert(spec_encode(r2).subrange(8, 16) =~= vstd::bytes::spec_u64_to_le_bytes(r2.seed));
    assert(r1.seed == r2.seed);
    assert(spec_encode(r1).subrange(16, 48) =~= r1.maker@);
    assert(spec_encode(r2).subrange(16, 48) =~= r2.maker@);
    assert(r1.maker.bytes =~= r2.maker.bytes);
    assert(spec_encode(r1).subrange(48, 80) =~= r1.asset_offered@);
    assert(spec_encode(r2).subrange(48, 80) =~= r2.asset_offered@);
    assert(r1.asset_offered.bytes =~= r2.asset_offered.bytes);
    assert(spec_encode(r1).subrange(80, 112) =~= r1.asset_requested@);
    assert(spec_encode(r2).subrange(80, 112) =~= r2.asset_requested@);
    assert(r1.asset_requested.bytes =~= r2.asset_requested.bytes);
    assert(spec_encode(r1).subrange(112, 120) =~= vstd::bytes::spec_u64_to_le_bytes(
        r1.amount_requested,
    ));
    assert(spec_encode(r2).subrange(112, 120) =~= vstd::bytes::spec_u64_to_le_bytes(
        r2.amount_requested,
    ));
    assert(r1.amount_requested == r2.amount_requested);
    assert(r1.derivation_bump == spec_encode(r1)[120]);
    assert(r2.derivation_bump == spec_encode(r2)[120]);
}

} // verus!
