//! Creation step of a two-party conditional asset swap (an escrow).
//!
//! A maker locks a quantity of one asset into a protocol-controlled holding
//! account and records the terms under which a counterparty may later claim
//! it.  This crate covers the creation protocol: deterministic derivation of
//! the escrow record's address and of the holding account's address, the
//! validation that must pass before anything is allocated, the atomic
//! allocation of the two accounts on a ledger model, and the fixed byte
//! layout of the persisted record.

pub mod address;
pub mod derivation;
pub mod error;
pub mod ledger;
pub mod make;
pub mod record;
