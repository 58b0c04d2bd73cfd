use vstd::prelude::*;

verus! {

/// The failure kinds of the registry. Every operation either completes fully
/// or returns one of these with no observable state change.
#[derive(Clone, Copy, Debug, PartialEq, Eq, Structural)]
pub enum CertError {
    /// Issuance was asked for an id that is already recorded.
    AlreadyExists,
    /// The id names no recorded certificate.
    NotFound,
    /// Revocation was asked for a certificate that is already revoked.
    AlreadyRevoked,
    /// The caller does not authenticate as the required identity.
    Unauthorized,
    /// A batch holds more items than the supported maximum.
    BatchTooLarge,
}

} // verus!
