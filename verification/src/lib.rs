//! Heuristic static analysis for Move smart-contract source text.
//!
//! The library examines an in-memory corpus of source files line by line and
//! produces security findings, per-function gas estimates, gas-optimization
//! suggestions and approximate test-coverage ratios.  All analysis is pure:
//! reading files, invoking external tools and rendering reports live outside
//! this crate.

pub mod config;
pub mod corpus;
pub mod coverage;
pub mod deploy;
pub mod error;
pub mod gas;
pub mod hashing;
pub mod optimize;
pub mod profiles;
pub mod scan;
pub mod templates;
pub mod text;
