use vstd::prelude::*;

verus! {

// `std::io::Error` can carry the failure of writing a commitment encoding.
#[verifier::external_type_specification]
#[verifier::external_body]
pub struct ExIoError(std::io::Error);

// The error type that both polynomial commitment backends return from
// `open` and `check`.
#[verifier::external_type_specification]
#[verifier::external_body]
pub struct ExPolyCommitError(ark_poly_commit::Error);

/// The error taxonomy of the equivalence protocol.
///
/// `KZGFailed` and `IPAFailed` are expected negative verification outcomes:
/// the named backend's `check` ran and returned `false`. The other variants
/// mean an operation could not be carried out at all. Backend faults carry
/// `backend_id`: 1 for the pairing-based (KZG) backend, 2 for the
/// inner-product-argument backend.
#[derive(Debug)]
pub enum EquivalenceError {
    /// Serializing a commitment for the Fiat-Shamir transcript failed.
    FiatShamirError(std::io::Error),
    /// A backend surfaced one of ark_poly_commit's own errors.
    PolyCommitError(ark_poly_commit::Error),
    /// The first (pairing-based) backend's check rejected the opening.
    KZGFailed,
    /// The second (inner-product-argument) backend's check rejected the opening.
    IPAFailed,
    /// The named backend's `open` failed; no partial proof exists.
    BackendOpenError { backend_id: u8, inner: ark_poly_commit::Error },
    /// The named backend's `check` could not be evaluated at all — distinct
    /// from a negative verification result.
    BackendCheckError { backend_id: u8, inner: ark_poly_commit::Error },
    /// A rendered backend error with no structure, for callers that only
    /// want text.
    PCError { error: String },
}

impl From<std::io::Error> for EquivalenceError {
    fn from(e: std::io::Error) -> (r: Self) {
        Self::FiatShamirError(e)
    }
}

impl vstd::std_specs::convert::FromSpecImpl<std::io::Error> for EquivalenceError {
    open spec fn obeys_from_spec() -> bool {
        true
    }

    open spec fn from_spec(e: std::io::Error) -> Self {
        EquivalenceError::FiatShamirError(e)
    }
}

impl From<ark_poly_commit::Error> for EquivalenceError {
    fn from(e: ark_poly_commit::Error) -> (r: Self) {
        Self::PolyCommitError(e)
    }
}

impl vstd::std_specs::convert::FromSpecImpl<ark_poly_commit::Error> for EquivalenceError {
    open spec fn obeys_from_spec() -> bool {
        true
    }

    open spec fn from_spec(e: ark_poly_commit::Error) -> Self {
        EquivalenceError::PolyCommitError(e)
    }
}

/// Turn a backend's error into the protocol's own error type.
///
/// Relies on the `Debug` rendering of `ark_poly_commit::Error` for the
/// message text; the result is always the `PCError` variant.
#[verifier::external_body]
pub fn from_pc_error(error: ark_poly_commit::Error) -> (r: EquivalenceError)
    ensures
        r is PCError,
{
    EquivalenceError::PCError { error: format!("Polynomial Commitment Error: {:?}", error) }
}

} // verus!
