//! Failures of certificate enrollment.

use vstd::prelude::*;

verus! {

/// Why an enrollment operation failed.
#[derive(Debug, Clone, Copy, PartialEq, Eq, Structural)]
pub enum EnrollmentError {
    /// The signing request is malformed or not signed by its own key.
    InvalidCsr,
    /// The signing request names another App.
    CsrMismatch,
    /// A generation is zero.
    InvalidGeneration,
    /// Protected material or certificate metadata is not acceptable.
    InvalidMetadata,
    /// The App is already enrolled.
    DuplicateEnrollment,
    /// The App may not update the Relay.
    UpdateUnauthorized,
}

/// State of an App on the allowlist.
#[derive(Debug, Clone, Copy, PartialEq, Eq, Structural)]
pub enum AllowlistState {
    /// Enrolled, not yet confirmed.
    Pending,
    /// Confirmed.
    Active,
    /// Revoked.
    Revoked,
}

} // verus!
