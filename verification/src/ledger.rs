//! A model of the slice of the host ledger that the creation protocol reads
//! and writes: the escrow records and asset holding accounts, each stored at
//! a unique address.

use vstd::prelude::*;

use crate::address::Address;
use crate::error::EscrowError;
use crate::record::EscrowRecord;

verus! {

/// An asset holding account: what asset type it holds, which address has
/// authority over it, and how much it currently holds.
#[derive(Clone, Copy, Debug, PartialEq, Eq)]
pub struct TokenAccount {
    /// Asset type this account holds.
    pub asset_type: Address,
    /// The address whose signature (or derived authority) can move funds.
    pub authority: Address,
    /// Current balance.
    pub amount: u64,
}

/// No two entries share an address.
pub open spec fn keys_unique<V>(s: Seq<(Address, V)>) -> bool {
    forall|i: int, j: int| 0 <= i < j < s.len() ==> s[i].0@ != s[j].0@
}

/// Some entry carries the given address.
pub open spec fn has_key<V>(s: Seq<(Address, V)>, key: Seq<u8>) -> bool {
    exists|i: int| 0 <= i < s.len() && s[i].0@ == key
}

/// The value stored under an address, when the entries' addresses are
/// unique.
pub open spec fn lookup<V>(s: Seq<(Address, V)>, key: Seq<u8>) -> Option<V> {
    if has_key(s, key) {
        Some(s[choose|i: int| 0 <= i < s.len() && s[i].0@ == key].1)
    } else {
        None
    }
}

/// Appending an entry under a fresh address keeps addresses unique.
pub proof fn lemma_push_keeps_unique<V>(s: Seq<(Address, V)>, entry: (Address, V))
    requires
        keys_unique(s),
        !has_key(s, entry.0@),
    ensures
        keys_unique(s.push(entry)),
{
    let t = s.push(entry);
    assert forall|i: int, j: int| 0 <= i < j < t.len() implies t[i].0@ != t[j].0@ by {
        if j < s.len() {
            assert(s[i].0@ != s[j].0@);
        } else {
            assert(t[j] == entry);
            assert(t[i] == s[i]);
            assert(s[i].0@ != entry.0@);
        }
    }
}

/// What appending an entry under a fresh address does to every lookup.
pub proof fn lemma_lookup_push<V>(s: Seq<(Address, V)>, entry: (Address, V), key: Seq<u8>)
    requires
        keys_unique(s),
        !has_key(s, entry.0@),
    ensures
        lookup(s.push(entry), key) == if entry.0@ == key {
            Some(entry.1)
        } else {
            lookup(s, key)
        },
{
    let t = s.push(entry);
    if entry.0@ == key {
        assert(t[s.len() as int] == entry);
        assert(has_key(t, key));
        let k = choose|i: int| 0 <= i < t.len() && t[i].0@ == key;
        if k < s.len() {
            assert(s[k] == t[k]);
            assert(has_key(s, key));
        }
        assert(t[k] == entry);
    } else {
        if has_key(s, key) {
            let k = choose|i: int| 0 <= i < s.len() && s[i].0@ == key;
            assert(t[k] == s[k]);
            assert(has_key(t, key));
            let k2 = choose|i: int| 0 <= i < t.len() && t[i].0@ == key;
            assert(k2 < s.len());
            assert(s[k2] == t[k2]);
            if k != k2 {
                assert(s[k].0@ == s[k2].0@);
                assert(false);
            }
        } else {
            if has_key(t, key) {
                let k = choose|i: int| 0 <= i < t.len() && t[i].0@ == key;
                assert(k == s.len());
                assert(t[k] == entry);
                assert(false);
            }
        }
    }
}

/// Looks up the value stored under an address in an association list whose
/// addresses are unique.
fn assoc_find<V: Copy>(entries: &Vec<(Address, V)>, key: &Address) -> (r: Option<V>)
    requires
        keys_unique(entries@),
    ensures
        r == lookup(entries@, key@),
{
    let mut i: usize = 0;
    while i < entries.len()
        invariant
            i <= entries@.len(),
            keys_unique(entries@),
            forall|j: int| 0 <= j < i ==> entries@[j].0@ != key@,
        decreases entries@.len() - i,
    {
        if entries[i].0.eq_bytes(key) {
            proof {
                assert(has_key(entries@, key@));
                let k = choose|k: int| 0 <= k < entries@.len() && entries@[k].0@ == key@;
                if k != i as int {
                    assert(entries@[k].0@ == entries@[i as int].0@);
                    assert(false);
                }
            }
            return Some(entries[i].1);
        }
        i += 1;
    }
    proof {
        if has_key(entries@, key@) {
            let k = choose|k: int| 0 <= k < entries@.len() && entries@[k].0@ == key@;
            assert(entries@[k].0@ != key@);
        }
    }
    None
}

/// The slice of the host ledger this protocol touches.  Creation is the only
/// writer, and it only appends: nothing here mutates an existing record or
/// holding account, which is what keeps a record's terms immutable for its
/// whole open lifetime.
pub struct Ledger {
    /// Identity of the deployed protocol program; the namespace under which
    /// escrow-record addresses are derived.
    pub program_id: Address,
    /// Escrow records by address.
    pub escrows: Vec<(Address, EscrowRecord)>,
    /// Asset holding accounts by address.
    pub tokens: Vec<(Address, TokenAccount)>,
}

impl Ledger {
    /// Addresses are unique: within the records, within the holding
    /// accounts, and across the two.
    pub open spec fn wf(self) -> bool {
        &&& keys_unique(self.escrows@)
        &&& keys_unique(self.tokens@)
        &&& forall|i: int, j: int|
            0 <= i < self.escrows@.len() && 0 <= j < self.tokens@.len()
                ==> self.escrows@[i].0@ != self.tokens@[j].0@
    }

    /// The escrow record stored at an address.
    pub open spec fn escrow_at(self, key: Seq<u8>) -> Option<EscrowRecord> {
        lookup(self.escrows@, key)
    }

    /// The holding account stored at an address.
    pub open spec fn token_at(self, key: Seq<u8>) -> Option<TokenAccount> {
        lookup(self.tokens@, key)
    }

    /// Whether any account already occupies an address.
    pub open spec fn allocated(self, key: Seq<u8>) -> bool {
        has_key(self.escrows@, key) || has_key(self.tokens@, key)
    }

    /// An empty ledger under a program identity.
    pub fn new(program_id: Address) -> (l: Ledger)
        ensures
            l.wf(),
            l.program_id == program_id,
            l.escrows@.len() == 0,
            l.tokens@.len() == 0,
    {
        Ledger { program_id, escrows: Vec::new(), tokens: Vec::new() }
    }

    /// Reads the escrow record at an address.
    pub fn find_escrow(&self, addr: &Address) -> (r: Option<EscrowRecord>)
        requires
            self.wf(),
        ensures
            r == self.escrow_at(addr@),
    {
        assoc_find(&self.escrows, addr)
    }

    /// Reads the holding account at an address.
    pub fn find_token(&self, addr: &Address) -> (r: Option<TokenAccount>)
        requires
            self.wf(),
        ensures
            r == self.token_at(addr@),
    {
        assoc_find(&self.tokens, addr)
    }

    /// Allocates a holding account at a fresh address, as the host ledger's
    /// account-creation capability does; re-use of an occupied address is
    /// rejected and changes nothing.
    pub fn add_token_account(&mut self, addr: Address, account: TokenAccount) -> (r: Result<
        (),
        EscrowError,
    >)
        requires
            old(self).wf(),
        ensures
            final(self).wf(),
            final(self).program_id == old(self).program_id,
            if old(self).allocated(addr@) {
                &&& r == Err::<(), EscrowError>(
                    EscrowError::AlreadyInitialized,
                )
                &&& *final(self) == *old(self)
            } else {
                &&& r is Ok
                &&& final(self).tokens@ == old(self).tokens@.push((addr, account))
                &&& final(self).escrows@ == old(self).escrows@
            },
    {
        if self.is_allocated(&addr) {
            return Err(EscrowError::AlreadyInitialized);
        }
        proof {
            lemma_push_keeps_unique(self.tokens@, (addr, account));
        }
        self.tokens.push((addr, account));
        proof {
            assert forall|i: int, j: int|
                0 <= i < self.escrows@.len() && 0 <= j < self.tokens@.len() implies self
                .escrows@[i].0@ != self.tokens@[j].0@ by {
                if j < old(self).tokens@.len() {
                    assert(old(self).escrows@[i].0@ != old(self).tokens@[j].0@);
                } else {
                    assert(self.tokens@[j] == (addr, account));
                    assert(!has_key(old(self).escrows@, addr@));
                }
            }
        }
        Ok(())
    }

    /// Whether an address is already occupied by any account.
    pub fn is_allocated(&self, addr: &Address) -> (r: bool)
        requires
            self.wf(),
        ensures
            r == self.allocated(addr@),
    {
        let e = assoc_find(&self.escrows, addr);
        if e.is_some() {
            return true;
        }
        let t = assoc_find(&self.tokens, addr);
        t.is_some()
    }
}

} // verus!
