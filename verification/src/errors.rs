//! Error taxonomy of the control plane.
//!
//! Authentication and authorization failures are surfaced before any business
//! logic runs; certificate and encoding failures are synchronous and
//! non-retryable.

use vstd::prelude::*;

verus! {

/// The error taxonomy shared by the gateway, the certificate authority and
/// the artifact registries.
#[derive(Clone, Copy, Debug, PartialEq, Eq, Structural)]
pub enum ControlPlaneError {
    /// Missing or unrecognized credential.
    Unauthenticated,
    /// Disabled or expired credential, or tier below the minimum required.
    PermissionDenied,
    /// Rate limit, allocation quota, or concurrent-allocation cap reached.
    ResourceExhausted,
    /// Certificate or record absent.
    NotFound,
    /// Double revocation, renewing a revoked certificate, or credential
    /// mismatch on renewal.
    InvalidState,
    /// Signing or encoding failure.
    Internal,
}

impl ControlPlaneError {
    /// A short, stable label for the error.
    pub fn label(&self) -> (r: &'static str)
        ensures
            self is Unauthenticated ==> r@ == "unauthenticated"@,
            self is PermissionDenied ==> r@ == "permission_denied"@,
            self is ResourceExhausted ==> r@ == "resource_exhausted"@,
            self is NotFound ==> r@ == "not_found"@,
            self is InvalidState ==> r@ == "invalid_state"@,
            self is Internal ==> r@ == "internal"@,
    {
        match self {
            ControlPlaneError::Unauthenticated => "unauthenticated",
            ControlPlaneError::PermissionDenied => "permission_denied",
            ControlPlaneError::ResourceExhausted => "resource_exhausted",
            ControlPlaneError::NotFound => "not_found",
            ControlPlaneError::InvalidState => "invalid_state",
            ControlPlaneError::Internal => "internal",
        }
    }
}

} // verus!
