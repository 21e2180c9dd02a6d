//! Custody and fee-entitlement bookkeeping for liquidity positions locked
//! in a concentrated-liquidity engine or a constant-product engine.
//!
//! - `keys`: identifiers, program identities and seed labels.
//! - `derive`: derived addresses of authorities, records and token accounts.
//! - `states`: lock records and errors.
//! - `fee`: fee accrual of a constant-product stake from invariant growth.
//! - `cp`: locking constant-product liquidity and collecting its fees.
//! - `clmm`: locking concentrated positions and harvesting their fees.
pub mod keys;
pub mod derive;
pub mod states;
pub mod wide;
pub mod fee;
pub mod cp;
pub mod clmm;
