//! A two-party Prisoner's Dilemma escrow game and a single-player variant
//! against a deterministic synthetic opponent.
//!
//! The library holds the whole game state machine: creation, joining, move
//! submission and resolution for the two-player engine, and the atomic
//! create-and-resolve operation of the single-player engine, together with
//! the payoff calculator and the opponent move generator. The host ledger's
//! services — authorization, durable storage, value transfer, and the clock —
//! stay outside: operations take the caller's principal and the ledger's
//! timestamp and sequence number as plain values, and the escrow engine
//! reports the transfers the host must execute.

pub mod payoff;
pub mod single_player;
pub mod two_player;
pub mod types;
pub mod xlm;
