//! Knowledge-power scoring engine.
//!
//! Documents, comments and accounts of a multi-tenant contribution
//! marketplace are scored by normalizing raw metrics against per-tenant
//! running maxima, combining the normalized rates through weighted
//! fixed-point formulas, and propagating the resulting power values to
//! accounts and to a global total.  All arithmetic is scaled-integer
//! arithmetic, so every replica that applies the same events in the same
//! order reaches bit-identical state.

pub mod compute;
pub mod engine;
pub mod laws;
pub mod store;
pub mod types;
