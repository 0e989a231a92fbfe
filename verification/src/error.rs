//! Errors of the checkers' own processing, as opposed to failures the RPC
//! collaborator reports.

use vstd::prelude::*;

verus! {

/// A checker-side processing error.
#[derive(Clone, Debug)]
pub enum CustomError {
    /// A transaction byte buffer could not be decoded.
    Transcode { reason: String },
    /// A value could not be formatted.
    IllegalFormat,
}

} // verus!
