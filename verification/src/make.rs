//! The escrow initializer: validates a creation request against the ledger
//! and, only when every precondition holds, atomically allocates the escrow
//! record and its holding account.

use vstd::prelude::*;

use crate::address::Address;
use crate::derivation::{
    associated_holding_address, ata_of, derive_escrow_address, escrow_address_of,
};
use crate::error::EscrowError;
use crate::ledger::{has_key, lemma_lookup_push, lemma_push_keeps_unique, Ledger, TokenAccount};
use crate::record::EscrowRecord;

verus! {

/// The bound set of accounts a creation request supplies.  The framework
/// layer authenticates signatures and hands the addresses over; everything
/// here is then checked, not assumed, against what the deriver computes and
/// against the ledger.
#[derive(Clone, Copy, Debug, PartialEq, Eq)]
pub struct Make {
    /// The party creating the escrow.
    pub maker: Address,
    /// Whether the maker signed the request.
    pub maker_signed: bool,
    /// Asset type the maker offers (and locks in the holding account).
    pub mint_a: Address,
    /// Asset type the maker asks for in return.
    pub mint_b: Address,
    /// The maker's own holding account for the offered asset: the funding
    /// source later instructions rely on.
    pub maker_ata_a: Address,
    /// Where the caller says the escrow record will live.
    pub escrow: Address,
    /// Where the caller says the escrow's holding account (the vault) will
    /// live.
    pub vault: Address,
}

impl Make {
    /// The maker's source account is legitimate: it sits at the associated
    /// holding address for (maker, offered asset), exists on the ledger,
    /// holds the offered asset type and is owned by the maker.
    pub open spec fn source_account_valid(self, ledger: Ledger) -> bool {
        &&& self.maker_ata_a@ == ata_of(self.maker@, self.mint_a@)
        &&& match ledger.token_at(self.maker_ata_a@) {
            Some(t) => t.asset_type@ == self.mint_a@ && t.authority@ == self.maker@,
            None => false,
        }
    }

    /// What a creation request decides, checked in order before anything is
    /// allocated: the maker must have signed; the asset pair must be
    /// distinct; a canonical derivation must exist; the supplied escrow,
    /// vault and source addresses must match what the deriver computes; and
    /// both target addresses must be fresh.  On success, the escrow
    /// record's derived address and canonical tie-break value.
    pub open spec fn creation_outcome(self, ledger: Ledger, seed: u64) -> Result<
        (Seq<u8>, u8),
        EscrowError,
    > {
        if !self.maker_signed {
            Err(EscrowError::Unauthenticated)
        } else if self.mint_a@ == self.mint_b@ {
            Err(EscrowError::InvalidAssetPair)
        } else {
            match escrow_address_of(ledger.program_id@, self.maker@, seed) {
                None => Err(EscrowError::DerivationExhausted),
                Some(derived) => {
                    if self.escrow@ != derived.0 {
                        Err(EscrowError::AddressMismatch)
                    } else if self.vault@ != ata_of(derived.0, self.mint_a@) {
                        Err(EscrowError::AddressMismatch)
                    } else if !self.source_account_valid(ledger) {
                        Err(EscrowError::AddressMismatch)
                    } else if ledger.allocated(self.escrow@) || ledger.allocated(self.vault@)
                        || self.vault@ == self.escrow@ {
                        Err(EscrowError::AlreadyInitialized)
                    } else {
                        Ok(derived)
                    }
                },
            }
        }
    }

    /// The record that a successful creation persists: the request's terms
    /// verbatim, plus the canonical tie-break value the derivation search
    /// produced.
    pub open spec fn created_record(self, seed: u64, receive: u64, bump: u8) -> EscrowRecord {
        EscrowRecord {
            seed,
            maker: self.maker,
            asset_offered: self.mint_a,
            asset_requested: self.mint_b,
            amount_requested: receive,
            derivation_bump: bump,
        }
    }

    /// The holding account that a successful creation allocates: it holds
    /// the offered asset type, its authority is the escrow record's own
    /// derived address, and it starts empty.
    pub open spec fn created_vault(self) -> TokenAccount {
        TokenAccount { asset_type: self.mint_a, authority: self.escrow, amount: 0 }
    }

    /// Creates the escrow: checks every precondition, then atomically
    /// allocates the escrow record and the vault.  On any failure the
    /// ledger is left exactly as it was.
    pub fn init_escrow(&self, ledger: &mut Ledger, seed: u64, receive: u64) -> (r: Result<
        (),
        EscrowError,
    >)
        requires
            old(ledger).wf(),
        ensures
            final(ledger).wf(),
            final(ledger).program_id == old(ledger).program_id,
            match self.creation_outcome(*old(ledger), seed) {
                Ok(derived) => {
                    &&& r is Ok
                    &&& final(ledger).escrows@ == old(ledger).escrows@.push(
                        (self.escrow, self.created_record(seed, receive, derived.1)),
                    )
                    &&& final(ledger).tokens@ == old(ledger).tokens@.push(
                        (self.vault, self.created_vault()),
                    )
                },
                Err(e) => {
                    &&& r == Err::<(), EscrowError>(e)
                    &&& *final(ledger) == *old(ledger)
                },
            },
    {
        if !self.maker_signed {
            return Err(EscrowError::Unauthenticated);
        }
        if self.mint_a.eq_bytes(&self.mint_b) {
            return Err(EscrowError::InvalidAssetPair);
        }
        let (derived_escrow, bump) = match derive_escrow_address(
            &ledger.program_id,
            &self.maker,
            seed,
        ) {
            Ok(p) => p,
            Err(e) => {
                return Err(e);
            },
        };
        if !self.escrow.eq_bytes(&derived_escrow) {
            return Err(EscrowError::AddressMismatch);
        }
        let derived_vault = associated_holding_address(&derived_escrow, &self.mint_a);
        if !self.vault.eq_bytes(&derived_vault) {
            return Err(EscrowError::AddressMismatch);
        }
        let source_addr = associated_holding_address(&self.maker, &self.mint_a);
        if !self.maker_ata_a.eq_bytes(&source_addr) {
            return Err(EscrowError::AddressMismatch);
        }
        match ledger.find_token(&self.maker_ata_a) {
            Some(t) => {
                if !(t.asset_type.eq_bytes(&self.mint_a) && t.authority.eq_bytes(&self.maker)) {
                    return Err(EscrowError::AddressMismatch);
                }
            },
            None => {
                return Err(EscrowError::AddressMismatch);
            },
        }
        if ledger.is_allocated(&self.escrow) {
            return Err(EscrowError::AlreadyInitialized);
        }
        if ledger.is_allocated(&self.vault) {
            return Err(EscrowError::AlreadyInitialized);
        }
        if self.vault.eq_bytes(&self.escrow) {
            return Err(EscrowError::AlreadyInitialized);
        }
        let record = EscrowRecord {
            seed,
            maker: self.maker,
            asset_offered: self.mint_a,
            asset_requested: self.mint_b,
            amount_requested: receive,
            derivation_bump: bump,
        };
        let vault_account = TokenAccount {
            asset_type: self.mint_a,
            authority: self.escrow,
            amount: 0,
        };
        proof {
            lemma_push_keeps_unique(ledger.escrows@, (self.escrow, record));
            lemma_push_keeps_unique(ledger.tokens@, (self.vault, vault_account));
        }
        ledger.escrows.push((self.escrow, record));
        ledger.tokens.push((self.vault, vault_account));
        proof {
            assert forall|i: int, j: int|
                0 <= i < ledger.escrows@.len() && 0 <= j < ledger.tokens@.len() implies ledger
                .escrows@[i].0@ != ledger.tokens@[j].0@ by {
                if i < old(ledger).escrows@.len() && j < old(ledger).tokens@.len() {
                    assert(old(ledger).escrows@[i].0@ != old(ledger).tokens@[j].0@);
                } else if i == old(ledger).escrows@.len() && j < old(ledger).tokens@.len() {
                    assert(ledger.escrows@[i] == (self.escrow, record));
                    assert(!has_key(old(ledger).tokens@, self.escrow@));
                } else if i < old(ledger).escrows@.len() && j == old(ledger).tokens@.len() {
                    assert(ledger.tokens@[j] == (self.vault, vault_account));
                    assert(!has_key(old(ledger).escrows@, self.vault@));
                } else {
                    assert(ledger.escrows@[i] == (self.escrow, record));
                    assert(ledger.tokens@[j] == (self.vault, vault_account));
                }
            }
        }
        Ok(())
    }
}

/// A ledger that a successful creation produced from `before`: `before` plus
/// exactly the new escrow record and the new vault.
pub open spec fn creation_result(
    m: Make,
    before: Ledger,
    after: Ledger,
    seed: u64,
    receive: u64,
) -> bool {
    &&& m.creation_outcome(before, seed) is Ok
    &&& after.program_id == before.program_id
    &&& after.escrows@ == before.escrows@.push(
        (m.escrow, m.created_record(seed, receive, m.creation_outcome(before, seed)->Ok_0.1)),
    )
    &&& after.tokens@ == before.tokens@.push((m.vault, m.created_vault()))
}

/// Invariant preservation: the instant a creation succeeds, the four record
/// invariants hold on the resulting ledger.  The holding account holds the
/// offered asset type; its authority is the escrow record's own derived
/// address; the record carries the request's terms verbatim with the
/// canonical tie-break value from the derivation search; and the two asset
/// types are distinct.
pub proof fn lemma_creation_invariants(
    m: Make,
    before: Ledger,
    after: Ledger,
    seed: u64,
    receive: u64,
)
    requires
        before.wf(),
        creation_result(m, before, after, seed, receive),
    ensures
        ({
            let bump = m.creation_outcome(before, seed)->Ok_0.1;
            let rec = after.escrow_at(m.escrow@);
            let vault = after.token_at(m.vault@);
            &&& rec == Some(m.created_record(seed, receive, bump))
            &&& vault == Some(m.created_vault())
            &&& vault->Some_0.asset_type@ == rec->Some_0.asset_offered@
            &&& vault->Some_0.authority@ == m.escrow@
            &&& rec->Some_0.amount_requested == receive
            &&& rec->Some_0.asset_requested == m.mint_b
            &&& rec->Some_0.wf()
            &&& escrow_address_of(before.program_id@, m.maker@, seed) == Some(
                (m.escrow@, rec->Some_0.derivation_bump),
            )
        }),
{
    let bump = m.creation_outcome(before, seed)->Ok_0.1;
    lemma_lookup_push(before.escrows@, (m.escrow, m.created_record(seed, receive, bump)), m.escrow@);
    lemma_lookup_push(before.tokens@, (m.vault, m.created_vault()), m.vault@);
}

/// Creation touches nothing else: every account that existed before a
/// successful creation still exists afterwards, unchanged.  Together with
/// the absence of any other writer this is what keeps an open record's terms
/// immutable.
pub proof fn lemma_creation_preserves_existing(
    m: Make,
    before: Ledger,
    after: Ledger,
    seed: u64,
    receive: u64,
)
    requires
        before.wf(),
        creation_result(m, before, after, seed, receive),
    ensures
        forall|key: Seq<u8>|
            before.escrow_at(key) is Some ==> after.escrow_at(key) == before.escrow_at(key),
        forall|key: Seq<u8>|
            before.token_at(key) is Some ==> after.token_at(key) == before.token_at(key),
{
    let bump = m.creation_outcome(before, seed)->Ok_0.1;
    assert forall|key: Seq<u8>| before.escrow_at(key) is Some implies after.escrow_at(key)
        == before.escrow_at(key) by {
        lemma_lookup_push(
            before.escrows@,
            (m.escrow, m.created_record(seed, receive, bump)),
            key,
        );
    }
    assert forall|key: Seq<u8>| before.token_at(key) is Some implies after.token_at(key)
        == before.token_at(key) by {
        lemma_lookup_push(before.tokens@, (m.vault, m.created_vault()), key);
    }
}

/// Rejection of equal-asset pairs: a signed request whose offered and
/// requested asset types coincide is rejected as an invalid pair, before
/// anything else is even looked at.
pub proof fn lemma_equal_pair_rejected(m: Make, ledger: Ledger, seed: u64)
    requires
        m.maker_signed,
        m.mint_a@ == m.mint_b@,
    ensures
        m.creation_outcome(ledger, seed) == Err::<(Seq<u8>, u8), EscrowError>(
            EscrowError::InvalidAssetPair,
        ),
{
}

/// Re-use rejection: once a creation for `(maker, seed)` has succeeded, the
/// same request against the resulting ledger fails with
/// `AlreadyInitialized` — the address-uniqueness check is the concurrency
/// control.
pub proof fn lemma_reuse_rejected(m: Make, before: Ledger, after: Ledger, seed: u64, receive: u64)
    requires
        before.wf(),
        creation_result(m, before, after, seed, receive),
    ensures
        m.creation_outcome(after, seed) == Err::<(Seq<u8>, u8), EscrowError>(
            EscrowError::AlreadyInitialized,
        ),
{
    let bump = m.creation_outcome(before, seed)->Ok_0.1;
    let derived = m.creation_outcome(before, seed)->Ok_0;
    assert(escrow_address_of(after.program_id@, m.maker@, seed) == Some(derived));
    // The maker's source account is distinct from the two fresh addresses,
    // so it is still present and unchanged on the new ledger.
    assert(has_key(before.tokens@, m.maker_ata_a@));
    lemma_lookup_push(before.tokens@, (m.vault, m.created_vault()), m.maker_ata_a@);
    assert(m.source_account_valid(after));
    // The escrow record's address is now occupied.
    assert(after.escrows@[before.escrows@.len() as int] == (
        m.escrow,
        m.created_record(seed, receive, bump),
    ));
    assert(has_key(after.escrows@, m.escrow@));
}

} // verus!
