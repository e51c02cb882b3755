//! Bulk operation engine for a wiki content backend.
//!
//! The library covers the logic of bulk page administration: listing and
//! filtering pages by path prefix, classifying privacy-sensitive pages,
//! deriving a deterministic safety tag for an operation, building the
//! mutation requests of a batch, classifying per-request outcomes, and
//! reconciling them into a single report. Transport (HTTP, JSON bodies)
//! stays outside; callers hand the library plain values.

pub mod catalog;
pub mod config;
pub mod dispatch;
pub mod error;
pub mod privacy;
pub mod queries;
pub mod reconcile;
pub mod safety;
pub mod strutil;
