//! A stateless instruction processor that manages one fungible-token asset
//! through the SPL token program: it creates and initialises a mint at a
//! program-derived address, provisions holder token accounts idempotently, and
//! burns a holder's balance given in whole-token units.
//!
//! Every handler re-derives the addresses it acts on, checks the caller's
//! account handles, and answers with the exact sequence of calls to forward to
//! outside programs, or with the first guard that failed.

pub mod address;
pub mod error;
pub mod account;
pub mod call;
pub mod token;
pub mod instruction;
pub mod processor;
pub mod lemmas;
