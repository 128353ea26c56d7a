//! Verified core of an event-ticketing program for a Solana-style runtime.
//!
//! Every instruction of the program is modelled as a pure, verified
//! transition over decoded account images: the caller (the runtime shim)
//! hands in the typed records and raw lamport balances it decoded, and
//! receives either a typed error or an effects record describing the
//! account mutations and token-program calls to commit atomically.

pub mod accounts;
pub mod bytes;
pub mod close_expired_ticket;
pub mod create_event;
pub mod dispatch;
pub mod effects;
pub mod errors;
pub mod laws;
pub mod metadata;
pub mod mint_ticket;
pub mod pda;
pub mod return_ticket;
pub mod state;
pub mod transfer_hook;
pub mod use_ticket;
pub mod validate;
pub mod withdraw_funds;
