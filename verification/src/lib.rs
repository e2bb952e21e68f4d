//! Read-side core of a bulk email-verification service.
//!
//! Given a job's metadata and its stored per-email verification documents,
//! this crate derives the job's status, aggregates per-category counts, and
//! exports the stored documents either as a JSON envelope or as a flattened
//! CSV table. All of it is pure computation over plain values; fetching the
//! rows from the store and serving the result over HTTP happen outside.

use vstd::prelude::*;

pub mod doc;
pub mod export;
pub mod csv_out;
pub mod flatten;
pub mod json_out;
pub mod status;
pub mod text;

verus! {

/// How a read-side request fails.
#[derive(Clone, Copy, Debug, PartialEq, Eq, Structural)]
pub enum ApiError {
    /// The job id has no metadata row.
    NotFound,
    /// A stored document could not be flattened for CSV export.
    Conversion(crate::flatten::ConversionError),
}

} // verus!
