//! A linear payment-streaming escrow.
//!
//! A payer deposits funds up front into a custodial stream account; the
//! payee may withdraw a continuously-vesting fraction of the deposit as
//! time elapses; either party may cancel, which settles the vested share
//! to the payee and returns the unvested remainder to the payer.
//!
//! The crate is organised around three components:
//! - `instruction`: the call decoder, parsing an opaque byte payload into
//!   one of the three typed operations (Create, Withdraw, Cancel);
//! - `state`: the persistent stream record, its invariant and its fixed
//!   byte layout;
//! - `engine`: the state machine that validates and applies the three
//!   operations against a record and the calling context.
//!
//! `processor` composes the three into a single dispatch entry point, and
//! `laws` states and proves the system-wide properties (balance invariant,
//! monotonic vesting, terminal-state idempotence, authorization).
//!
//! The host ledger (account storage, balance transfers, the time oracle,
//! signature verification, the minimum-balance reservation) is an external
//! collaborator: every engine function receives its readings as plain
//! values and returns the effects the host must apply atomically.

pub mod error;
pub mod state;
pub mod instruction;
pub mod engine;
pub mod processor;
pub mod laws;
