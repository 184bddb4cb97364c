//! A fixed-supply token presale escrow.
//!
//! An administrator locks a fixed quantity of a fungible asset into an
//! escrow account and sells portions of it at a fixed unit price during a
//! bounded time window, with payments flowing to the administrator. The
//! ledger host executes each operation atomically and serializes access to
//! the shared records; this crate holds the state machine itself — the
//! singleton sale record, the validation rules, and the two-legged exchange
//! over modeled account balances — with its behaviour proved.

pub mod engine;
pub mod laws;
pub mod state;

pub use engine::create_presale;
pub use engine::participate;
pub use state::PresaleConfig;
pub use state::PresaleError;
pub use state::PresaleParticipation;
