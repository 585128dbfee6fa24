//! Coordination core for a two-player hidden-board game (a Battleship
//! variant) whose board layouts stay confidential until a targeted cell is
//! resolved by an external secure-multiparty-computation service, or until
//! the game ends and both boards are revealed for audit.
//!
//! The crate holds the ledger-resident logic only: the session state machine
//! that gates every player-facing operation, the commitment store for the
//! encrypted boards, the bounded shot ledger, the request/callback bridge to
//! the confidential-computation service, and the end-of-game audit check.
//! The hosting ledger, the encryption scheme and the service itself are
//! external collaborators; this crate models what they carry as plain values
//! and proves the transitions between them.

pub mod audit;
pub mod bridge;
pub mod circuits;
pub mod game;
pub mod types;
