//! A social-video ledger core: users, videos, comments, and likes held as
//! independently addressed records, with deterministic address derivation,
//! upfront storage budgeting, monotonic per-video comment counters, and a
//! bounded like ledger with duplicate rejection.

pub mod keys;
pub mod laws;
pub mod ops;
pub mod pda;
pub mod records;
pub mod space;
pub mod store;
pub mod text;
