use escrow::address::Address;
use escrow::derivation::{associated_holding_address, derive_escrow_address};
use escrow::error::EscrowError;
use escrow::ledger::{Ledger, TokenAccount};
use escrow::make::Make;

fn addr(byte: u8) -> Address {
    Address::new([byte; 32])
}

/// A ledger holding the maker's funded source account, plus the request that
/// supplies exactly the addresses the deriver computes.
fn valid_setup(program_id: Address, maker: Address, mint_a: Address, mint_b: Address, seed: u64) -> (Ledger, Make, Address, u8) {
    let (escrow_addr, bump) = derive_escrow_address(&program_id, &maker, seed).unwrap();
    let vault = associated_holding_address(&escrow_addr, &mint_a);
    let maker_ata_a = associated_holding_address(&maker, &mint_a);
    let mut ledger = Ledger::new(program_id);
    ledger
        .add_token_account(
            maker_ata_a,
            TokenAccount { asset_type: mint_a, authority: maker, amount: 1_000 },
        )
        .unwrap();
    let make = Make {
        maker,
        maker_signed: true,
        mint_a,
        mint_b,
        maker_ata_a,
        escrow: escrow_addr,
        vault,
    };
    (ledger, make, escrow_addr, bump)
}

#[test]
fn derivation_is_deterministic() {
    let program_id = addr(9);
    let maker = addr(2);
    let first = derive_escrow_address(&program_id, &maker, 7).unwrap();
    let second = derive_escrow_address(&program_id, &maker, 7).unwrap();
    assert_eq!(first, second);
    let mint = addr(3);
    let a1 = associated_holding_address(&maker, &mint);
    let a2 = associated_holding_address(&maker, &mint);
    assert_eq!(a1, a2);
}

#[test]
fn derivation_depends_on_its_inputs() {
    let program_id = addr(9);
    let maker = addr(2);
    let (escrow_addr, _) = derive_escrow_address(&program_id, &maker, 7).unwrap();
    // A derived address echoes neither the maker nor the program identity.
    assert_ne!(escrow_addr, maker);
    assert_ne!(escrow_addr, program_id);
    let mint = addr(3);
    let holding = associated_holding_address(&maker, &mint);
    assert_ne!(holding, maker);
    assert_ne!(holding, mint);
}

#[test]
fn distinct_seeds_give_distinct_addresses() {
    let program_id = addr(9);
    let maker = addr(2);
    let mut seen: Vec<Address> = Vec::new();
    let mut seed: u64 = 0;
    while seed < 100 {
        // Spread the seeds out rather than walking 0..100.
        let s = seed.wrapping_mul(0x9e37_79b9_7f4a_7c15).wrapping_add(seed);
        let (a, _) = derive_escrow_address(&program_id, &maker, s).unwrap();
        for earlier in &seen {
            assert_ne!(*earlier, a);
        }
        seen.push(a);
        seed += 1;
    }
}

#[test]
fn creation_scenario() {
    let program_id = addr(9);
    let maker = addr(2);
    let mint_a = addr(3);
    let mint_b = addr(4);
    let (mut ledger, make, escrow_addr, bump) = valid_setup(program_id, maker, mint_a, mint_b, 7);
    let result = make.init_escrow(&mut ledger, 7, 500);
    assert_eq!(result, Ok(()));

    let record = ledger.find_escrow(&escrow_addr).unwrap();
    assert_eq!(record.seed, 7);
    assert_eq!(record.maker, maker);
    assert_eq!(record.asset_offered, mint_a);
    assert_eq!(record.asset_requested, mint_b);
    assert_eq!(record.amount_requested, 500);
    assert_eq!(record.derivation_bump, bump);

    let vault = ledger.find_token(&make.vault).unwrap();
    assert_eq!(vault.asset_type, mint_a);
    assert_eq!(vault.authority, escrow_addr);
    assert_eq!(vault.amount, 0);
}

#[test]
fn equal_asset_pair_is_rejected() {
    let program_id = addr(9);
    let maker = addr(2);
    let mint_a = addr(3);
    let (mut ledger, make, _, _) = valid_setup(program_id, maker, mint_a, mint_a, 7);
    let escrows_before = ledger.escrows.len();
    let tokens_before = ledger.tokens.len();
    let result = make.init_escrow(&mut ledger, 7, 500);
    assert_eq!(result, Err(EscrowError::InvalidAssetPair));
    assert_eq!(ledger.escrows.len(), escrows_before);
    assert_eq!(ledger.tokens.len(), tokens_before);
}

#[test]
fn unsigned_request_is_rejected() {
    let program_id = addr(9);
    let maker = addr(2);
    let (mut ledger, mut make, _, _) = valid_setup(program_id, maker, addr(3), addr(4), 7);
    make.maker_signed = false;
    let result = make.init_escrow(&mut ledger, 7, 500);
    assert_eq!(result, Err(EscrowError::Unauthenticated));
    assert_eq!(ledger.escrows.len(), 0);
    assert_eq!(ledger.tokens.len(), 1);
}

#[test]
fn wrong_escrow_address_is_rejected() {
    let program_id = addr(9);
    let maker = addr(2);
    let (mut ledger, mut make, _, _) = valid_setup(program_id, maker, addr(3), addr(4), 7);
    make.escrow = addr(77);
    let result = make.init_escrow(&mut ledger, 7, 500);
    assert_eq!(result, Err(EscrowError::AddressMismatch));
    assert_eq!(ledger.escrows.len(), 0);
}

#[test]
fn wrong_vault_address_is_rejected() {
    let program_id = addr(9);
    let maker = addr(2);
    let (mut ledger, mut make, _, _) = valid_setup(program_id, maker, addr(3), addr(4), 7);
    make.vault = addr(78);
    let result = make.init_escrow(&mut ledger, 7, 500);
    assert_eq!(result, Err(EscrowError::AddressMismatch));
    assert_eq!(ledger.escrows.len(), 0);
}

#[test]
fn missing_source_account_is_rejected() {
    let program_id = addr(9);
    let maker = addr(2);
    let (_, make, _, _) = valid_setup(program_id, maker, addr(3), addr(4), 7);
    // Same request, but against a ledger without the maker's source account.
    let mut empty = Ledger::new(program_id);
    let result = make.init_escrow(&mut empty, 7, 500);
    assert_eq!(result, Err(EscrowError::AddressMismatch));
    assert_eq!(empty.escrows.len(), 0);
    assert_eq!(empty.tokens.len(), 0);
}

#[test]
fn foreign_source_account_is_rejected() {
    let program_id = addr(9);
    let maker = addr(2);
    let mint_a = addr(3);
    let (_, make, _, _) = valid_setup(program_id, maker, mint_a, addr(4), 7);
    // The account at the source address exists but belongs to someone else.
    let mut ledger = Ledger::new(program_id);
    ledger
        .add_token_account(
            make.maker_ata_a,
            TokenAccount { asset_type: mint_a, authority: addr(66), amount: 1_000 },
        )
        .unwrap();
    let result = make.init_escrow(&mut ledger, 7, 500);
    assert_eq!(result, Err(EscrowError::AddressMismatch));
    assert_eq!(ledger.escrows.len(), 0);
}

#[test]
fn reuse_of_a_seed_is_rejected() {
    let program_id = addr(9);
    let maker = addr(2);
    let (mut ledger, make, _, _) = valid_setup(program_id, maker, addr(3), addr(4), 7);
    assert_eq!(make.init_escrow(&mut ledger, 7, 500), Ok(()));
    let escrows_after_first = ledger.escrows.len();
    let tokens_after_first = ledger.tokens.len();
    let second = make.init_escrow(&mut ledger, 7, 500);
    assert_eq!(second, Err(EscrowError::AlreadyInitialized));
    assert_eq!(ledger.escrows.len(), escrows_after_first);
    assert_eq!(ledger.tokens.len(), tokens_after_first);
}

#[test]
fn distinct_seeds_create_independent_escrows() {
    let program_id = addr(9);
    let maker = addr(2);
    let (mut ledger, make, first_escrow, _) = valid_setup(program_id, maker, addr(3), addr(4), 7);
    assert_eq!(make.init_escrow(&mut ledger, 7, 500), Ok(()));

    let (second_escrow, _) = derive_escrow_address(&program_id, &maker, 8).unwrap();
    let second_vault = associated_holding_address(&second_escrow, &addr(3));
    let make2 = Make { escrow: second_escrow, vault: second_vault, ..make };
    assert_eq!(make2.init_escrow(&mut ledger, 8, 250), Ok(()));

    assert_ne!(first_escrow, second_escrow);
    assert!(ledger.find_escrow(&first_escrow).is_some());
    assert!(ledger.find_escrow(&second_escrow).is_some());
}

#[test]
fn allocation_rejects_an_occupied_address() {
    let mut ledger = Ledger::new(addr(9));
    let account = TokenAccount { asset_type: addr(3), authority: addr(2), amount: 5 };
    assert_eq!(ledger.add_token_account(addr(50), account), Ok(()));
    let again = ledger.add_token_account(addr(50), account);
    assert_eq!(again, Err(EscrowError::AlreadyInitialized));
    assert_eq!(ledger.tokens.len(), 1);
}
