//! Aggregation and scoring engine for per-user financial reports.
//!
//! The engine consumes already-materialized records from independent domain
//! services (remittance splitting, savings goals, bill payments, insurance
//! policies) and reduces them into composite reports and a normalized 0-100
//! financial health score. Every figure is derived deterministically, with an
//! explicit policy for each edge case (no goals, no bills, zero denominators)
//! and a fatal `Overflow` error wherever a result would not be representable.
//!
//! The host layer is expected to perform caller authentication, fetch the
//! collaborator data, and hand it to this crate as plain values; identities
//! are represented as opaque numeric ids assigned by that layer.

pub mod arith;
pub mod bills;
pub mod contract;
pub mod health;
pub mod insurance;
pub mod remittance;
pub mod savings;
pub mod trend;
pub mod types;
