//! A fixed-size two-dimensional grid of 6-character cell values with a
//! pay-per-write economic model.
//!
//! The grid is stored as one flat character buffer, a packed bit-per-cell
//! "is set" bitfield, and one saturating write counter per cell. Every
//! operation on that state is verified: creation, point updates (including
//! payment checking against an exponential bonding-curve cost), and the
//! read-only queries. The bonding-curve terms themselves are evaluated by
//! the embedding host, which hands the two priced amounts in as plain
//! integers.

pub mod contract;
pub mod error;
pub mod grid;
pub mod laws;
pub mod msg;
pub mod pricing;
pub mod state;
