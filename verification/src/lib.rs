//! An escrow ledger that prices, collects, and linearly releases payment for
//! time-bounded content storage.
//!
//! Users deposit funds sized to `file_size × duration × rate`; a service
//! provider later claims the deposited funds as a linear vesting stream
//! proportional to elapsed time; an administrator can adjust pricing and sweep
//! accumulated fees. The surrounding ledger host — account allocation, address
//! derivation, signature checking, the actual balance transfers — is an
//! external collaborator: this crate is the accounting core it calls into.

pub mod content_id;
pub mod errors;
pub mod ops;
pub mod pricing;
pub mod system;
pub mod types;
pub mod vesting;
