//! The two polynomial commitment backends, as the protocol consumes them.
//!
//! The first backend is a sonic-style KZG scheme over the BN254 pairing; the
//! second is an inner-product-argument scheme over the same curve's G1 group.
//! Each backend's setup artifacts, commitments, blinding randomness and
//! opening proofs are opaque values: the protocol never looks inside them, it
//! only carries them between the backend's own operations. Those operations —
//! `setup`/`trim`, `commit`, `open`, `check`, polynomial evaluation, and the
//! canonical commitment encodings — are consumed through trusted entry
//! points, one per backend operation.

use vstd::prelude::*;
use crate::error::EquivalenceError;
use crate::error::from_pc_error;

verus! {

// ---------------------------------------------------------------------------
// The scalar field. Field elements are opaque values; the protocol derives
// them from the transcript and hands them to the backends unchanged.
// ---------------------------------------------------------------------------

#[verifier::external_type_specification]
#[verifier::external_body]
#[verifier::reject_recursive_types(P)]
pub struct ExFp256<P>(ark_ff::Fp256<P>);

#[verifier::external_type_specification]
#[verifier::external_body]
pub struct ExFrParameters(ark_bn254::FrParameters);

/// The scalar field both backends commit over.
pub type Fr = ark_bn254::Fr;

// ---------------------------------------------------------------------------
// The opaque values of the capability interface.
// ---------------------------------------------------------------------------

/// A univariate polynomial with its label, degree bound and hiding bound,
/// the value both backends commit to and open.
#[verifier::external_body]
pub struct Polynomial {
    pub(crate) inner: ark_poly_commit::LabeledPolynomial<Fr, ark_poly::univariate::DensePolynomial<Fr>>,
}

/// The first backend's committer key.
#[verifier::external_body]
pub struct KzgCommitterKey {
    pub(crate) inner: ark_poly_commit::sonic_pc::CommitterKey<ark_bn254::Bn254>,
}

/// The first backend's verifier key.
#[verifier::external_body]
pub struct KzgVerifierKey {
    pub(crate) inner: ark_poly_commit::sonic_pc::VerifierKey<ark_bn254::Bn254>,
}

/// The first backend's commitment, with its label and degree bound.
#[verifier::external_body]
pub struct KzgCommitment {
    pub(crate) inner: ark_poly_commit::LabeledCommitment<
        ark_poly_commit::kzg10::Commitment<ark_bn254::Bn254>,
    >,
}

/// The first backend's blinding randomness, consumed once by `open`.
#[verifier::external_body]
pub struct KzgRandomness {
    pub(crate) inner: ark_poly_commit::kzg10::Randomness<
        Fr,
        ark_poly::univariate::DensePolynomial<Fr>,
    >,
}

/// The first backend's opening proof.
#[verifier::external_body]
pub struct KzgOpening {
    pub(crate) inner: ark_poly_commit::kzg10::Proof<ark_bn254::Bn254>,
}

/// The second backend's committer key.
#[verifier::external_body]
pub struct IpaCommitterKey {
    pub(crate) inner: ark_poly_commit::ipa_pc::CommitterKey<ark_bn254::G1Affine>,
}

/// The second backend's verifier key.
#[verifier::external_body]
pub struct IpaVerifierKey {
    pub(crate) inner: ark_poly_commit::ipa_pc::VerifierKey<ark_bn254::G1Affine>,
}

/// The second backend's commitment, with its label and degree bound.
#[verifier::external_body]
pub struct IpaCommitment {
    pub(crate) inner: ark_poly_commit::LabeledCommitment<
        ark_poly_commit::ipa_pc::Commitment<ark_bn254::G1Affine>,
    >,
}

/// The second backend's blinding randomness, consumed once by `open`.
#[verifier::external_body]
pub struct IpaRandomness {
    pub(crate) inner: ark_poly_commit::ipa_pc::Randomness<ark_bn254::G1Affine>,
}

/// The second backend's opening proof.
#[verifier::external_body]
pub struct IpaOpening {
    pub(crate) inner: ark_poly_commit::ipa_pc::Proof<ark_bn254::G1Affine>,
}

// ---------------------------------------------------------------------------
// Deterministic outside results, by name.
// ---------------------------------------------------------------------------

/// The canonical byte encoding of the first backend's commitment, the form in
/// which it is absorbed into the Fiat-Shamir transcript. A function of the
/// commitment value alone.
pub uninterp spec fn kzg_commitment_bytes(c: KzgCommitment) -> Seq<u8>;

/// The canonical byte encoding of the second backend's commitment, the form
/// in which it is absorbed into the Fiat-Shamir transcript. A function of the
/// commitment value alone.
pub uninterp spec fn ipa_commitment_bytes(c: IpaCommitment) -> Seq<u8>;

/// The value of the polynomial at a point. A function of the polynomial and
/// the point alone.
pub uninterp spec fn evaluation_of(p: Polynomial, point: Fr) -> Fr;

/// The polynomial's label, as `LabeledPolynomial::new` stored it.
pub uninterp spec fn poly_label(p: Polynomial) -> Seq<char>;

/// The polynomial's degree bound, as `LabeledPolynomial::new` stored it.
pub uninterp spec fn poly_degree_bound(p: Polynomial) -> Option<usize>;

/// Whether the polynomial carries a hiding bound.
pub uninterp spec fn poly_is_hiding(p: Polynomial) -> bool;

/// The label of the second backend's labeled commitment.
pub uninterp spec fn ipa_commitment_label(c: IpaCommitment) -> Seq<char>;

/// The degree bound of the second backend's labeled commitment.
pub uninterp spec fn ipa_commitment_degree_bound(c: IpaCommitment) -> Option<usize>;

/// Whether the second backend's commitment carries a shifted part.
pub uninterp spec fn ipa_commitment_shifted(c: IpaCommitment) -> bool;

/// Whether the second backend's blinding randomness carries a shifted part.
pub uninterp spec fn ipa_randomness_shifted(r: IpaRandomness) -> bool;

/// Whether the second backend's opening has its hiding commitment and hiding
/// randomness both present or both absent — the shape the backend's
/// succinct check asserts before it decides anything.
pub uninterp spec fn ipa_opening_consistent(o: IpaOpening) -> bool;

/// The degree the second backend's verifier key supports.
pub uninterp spec fn ipa_supported_degree(vk: IpaVerifierKey) -> usize;

/// What the first backend's `open` returns. In the vendored backend the rng
/// argument is ignored and the blinding comes from the passed randomness, so
/// the whole result — opening or error — is a function of these arguments
/// alone.
pub uninterp spec fn kzg_open_result(
    ck: KzgCommitterKey,
    p: Polynomial,
    c: KzgCommitment,
    point: Fr,
    opening_challenge: Fr,
    rand: KzgRandomness,
) -> Result<KzgOpening, ark_poly_commit::Error>;

/// Whether the second backend's `open` succeeds, and with which error it
/// fails. Its only failure paths are deterministic degree checks, so the
/// outcome is a function of these arguments alone; only the returned
/// opening's value is randomized (hiding), and is not named.
pub uninterp spec fn ipa_open_outcome(
    ck: IpaCommitterKey,
    p: Polynomial,
    c: IpaCommitment,
    point: Fr,
    opening_challenge: Fr,
    rand: IpaRandomness,
) -> Result<(), ark_poly_commit::Error>;

/// What the first backend's `check` returns. In the vendored backend the rng
/// argument is ignored and the accumulation is not randomized, so the
/// verdict is a function of these arguments alone.
pub uninterp spec fn kzg_check_verdict(
    vk: KzgVerifierKey,
    c: KzgCommitment,
    point: Fr,
    value: Fr,
    o: KzgOpening,
    opening_challenge: Fr,
) -> Result<bool, ark_poly_commit::Error>;

/// What the second backend's `check` returns; its rng argument is likewise
/// ignored, so the verdict is a function of these arguments alone.
pub uninterp spec fn ipa_check_verdict(
    vk: IpaVerifierKey,
    c: IpaCommitment,
    point: Fr,
    value: Fr,
    o: IpaOpening,
    opening_challenge: Fr,
) -> Result<bool, ark_poly_commit::Error>;

/// The shape the second backend's `open` asserts of its inputs before doing
/// any work: matching labels, matching degree bounds, a shifted commitment
/// part exactly when there is a degree bound, and shifted blinding
/// randomness when a bounded polynomial is hiding. On inputs outside this
/// shape the backend panics, so `open` is only ever called inside it.
pub open spec fn ipa_open_ready(p: Polynomial, c: IpaCommitment, rand: IpaRandomness) -> bool {
    &&& ipa_commitment_label(c) == poly_label(p)
    &&& ipa_commitment_degree_bound(c) == poly_degree_bound(p)
    &&& ipa_commitment_shifted(c) == (poly_degree_bound(p) is Some)
    &&& ((poly_degree_bound(p) is Some && poly_is_hiding(p)) ==> ipa_randomness_shifted(rand))
}

/// The shape the second backend's `check` asserts of a commitment: the
/// shifted part is present exactly when there is a degree bound, and the
/// bound does not exceed what the verifier key supports. Outside this shape
/// the backend panics, so `check` is only ever called inside it.
pub open spec fn ipa_check_ready(vk: IpaVerifierKey, c: IpaCommitment) -> bool {
    &&& ipa_commitment_shifted(c) == (ipa_commitment_degree_bound(c) is Some)
    &&& (ipa_commitment_degree_bound(c) matches Some(b) ==> b <= ipa_supported_degree(vk))
}

// ---------------------------------------------------------------------------
// Construction of the opaque values, for the callers that set a protocol run
// up. The protocol core itself only consumes the values.
// ---------------------------------------------------------------------------

impl Polynomial {
    /// Relies on `UVPolynomial::from_coefficients_vec` and
    /// `LabeledPolynomial::new`: packs the coefficients (ascending powers)
    /// with the label, degree bound and hiding bound, which the constructor
    /// stores unchanged.
    #[verifier::external_body]
    pub fn new(
        label: String,
        coefficients: Vec<Fr>,
        degree_bound: Option<usize>,
        hiding_bound: Option<usize>,
    ) -> (r: Polynomial)
        ensures
            poly_label(r) == label@,
            poly_degree_bound(r) == degree_bound,
            poly_is_hiding(r) == (hiding_bound is Some),
    {
        let dense = <ark_poly::univariate::DensePolynomial<Fr>
            as ark_poly::UVPolynomial<Fr>>::from_coefficients_vec(coefficients);
        Polynomial {
            inner: ark_poly_commit::LabeledPolynomial::new(
                label,
                dense,
                degree_bound,
                hiding_bound,
            ),
        }
    }

    /// Relies on `LabeledPolynomial::evaluate`: evaluation is a deterministic
    /// function of the polynomial and the point.
    #[verifier::external_body]
    pub fn evaluate(&self, point: &Fr) -> (r: Fr)
        ensures
            r == evaluation_of(*self, *point),
    {
        self.inner.evaluate(point)
    }
}

impl KzgCommitment {
    /// The canonical encoding that the Fiat-Shamir transcript absorbs.
    pub fn transcript_bytes(&self) -> (r: Vec<u8>)
        ensures
            r@ == kzg_commitment_bytes(*self),
    {
        kzg_commitment_to_bytes(self)
    }

    /// Relies on `CanonicalSerialize` for kzg10 commitments: the wire form of
    /// the inner commitment, for transport. Writing into a `Vec` cannot fail.
    #[verifier::external_body]
    pub fn to_wire_bytes(&self) -> Vec<u8> {
        let mut buf: Vec<u8> = Vec::new();
        ark_serialize::CanonicalSerialize::serialize(self.inner.commitment(), &mut buf)
            .expect("writing to a Vec cannot fail");
        buf
    }

    /// Relies on `CanonicalDeserialize` for kzg10 commitments: rebuilds a
    /// labeled commitment from transported wire bytes, the label and the
    /// degree bound. Bytes that do not decode to a commitment are rejected;
    /// nothing is promised of the value.
    #[verifier::external_body]
    pub fn from_wire_bytes(
        label: String,
        bytes: &Vec<u8>,
        degree_bound: Option<usize>,
    ) -> Result<KzgCommitment, EquivalenceError> {
        let mut reader: &[u8] = &bytes[..];
        match ark_serialize::CanonicalDeserialize::deserialize(&mut reader) {
            Ok(c) => Ok(KzgCommitment {
                inner: ark_poly_commit::LabeledCommitment::new(label, c, degree_bound),
            }),
            Err(e) => Err(EquivalenceError::PCError {
                error: format!("Commitment Decoding Error: {:?}", e),
            }),
        }
    }
}

impl IpaCommitment {
    /// The canonical encoding that the Fiat-Shamir transcript absorbs.
    pub fn transcript_bytes(&self) -> (r: Vec<u8>)
        ensures
            r@ == ipa_commitment_bytes(*self),
    {
        ipa_commitment_to_bytes(self)
    }

    /// Relies on `CanonicalSerialize` for ipa_pc commitments: the wire form
    /// of the inner commitment, for transport. Writing into a `Vec` cannot
    /// fail.
    #[verifier::external_body]
    pub fn to_wire_bytes(&self) -> Vec<u8> {
        let mut buf: Vec<u8> = Vec::new();
        ark_serialize::CanonicalSerialize::serialize(self.inner.commitment(), &mut buf)
            .expect("writing to a Vec cannot fail");
        buf
    }

    /// Rebuild a labeled commitment from transported wire bytes, the label
    /// and the degree bound. Bytes that do not decode to a commitment are
    /// rejected, and so is a decoded commitment whose shifted part does not
    /// match the given degree bound — the shape the backend's check asserts.
    pub fn from_wire_bytes(
        label: String,
        bytes: &Vec<u8>,
        degree_bound: Option<usize>,
    ) -> (r: Result<IpaCommitment, EquivalenceError>)
        ensures
            (r matches Ok(c) ==> ipa_commitment_label(c) == label@
                && ipa_commitment_degree_bound(c) == degree_bound
                && ipa_commitment_shifted(c) == (degree_bound is Some)),
            r matches Err(e) ==> e is PCError,
    {
        match ipa_commitment_decode(label, bytes, degree_bound) {
            Ok(c) => {
                let shifted = ipa_commitment_shifted_flag(&c);
                let has_bound = degree_bound.is_some();
                if shifted == has_bound {
                    Ok(c)
                } else {
                    Err(malformed_opening_error())
                }
            },
            Err(e) => Err(e),
        }
    }

    /// Whether this commitment may be handed to the second backend's check
    /// under the given verifier key: its degree-bound shape is internally
    /// consistent and its bound is within the key's supported degree.
    /// `verify` requires this of its second commitment.
    pub fn check_ready(&self, vk: &IpaVerifierKey) -> (r: bool)
        ensures
            r == ipa_check_ready(*vk, *self),
    {
        let shifted = ipa_commitment_shifted_flag(self);
        match ipa_commitment_degree_bound_value(self) {
            Some(b) => shifted && b <= ipa_vk_supported_degree(vk),
            None => !shifted,
        }
    }
}

/// Relies on `CanonicalDeserialize` for ipa_pc commitments and
/// `LabeledCommitment::new`, which stores the given label and degree bound
/// unchanged; nothing is promised of the decoded commitment's shifted part.
#[verifier::external_body]
fn ipa_commitment_decode(
    label: String,
    bytes: &Vec<u8>,
    degree_bound: Option<usize>,
) -> (r: Result<IpaCommitment, EquivalenceError>)
    ensures
        (r matches Ok(c) ==> ipa_commitment_label(c) == label@ && ipa_commitment_degree_bound(c)
            == degree_bound),
        r matches Err(e) ==> e is PCError,
{
    let mut reader: &[u8] = &bytes[..];
    match ark_serialize::CanonicalDeserialize::deserialize(&mut reader) {
        Ok(c) => Ok(IpaCommitment {
            inner: ark_poly_commit::LabeledCommitment::new(label, c, degree_bound),
        }),
        Err(e) => Err(EquivalenceError::PCError {
            error: format!("Commitment Decoding Error: {:?}", e),
        }),
    }
}

/// A decoded value whose parts do not fit together.
#[verifier::external_body]
pub(crate) fn malformed_opening_error() -> (r: EquivalenceError)
    ensures
        r is PCError,
{
    EquivalenceError::PCError { error: String::from("Decoded value has inconsistent shape") }
}

/// Relies on `Option::is_some` over the commitment's shifted part.
#[verifier::external_body]
fn ipa_commitment_shifted_flag(c: &IpaCommitment) -> (r: bool)
    ensures
        r == ipa_commitment_shifted(*c),
{
    c.inner.commitment().shifted_comm.is_some()
}

/// Relies on `LabeledCommitment::degree_bound`.
#[verifier::external_body]
fn ipa_commitment_degree_bound_value(c: &IpaCommitment) -> (r: Option<usize>)
    ensures
        r == ipa_commitment_degree_bound(*c),
{
    c.inner.degree_bound()
}

/// Relies on `PCVerifierKey::supported_degree` of the inner-product backend.
#[verifier::external_body]
fn ipa_vk_supported_degree(vk: &IpaVerifierKey) -> (r: usize)
    ensures
        r == ipa_supported_degree(*vk),
{
    ark_poly_commit::PCVerifierKey::supported_degree(&vk.inner)
}

/// Relies on `Option::is_some` over the opening's hiding commitment and
/// hiding randomness: true when both are present or both absent, the shape
/// the second backend's succinct check asserts.
#[verifier::external_body]
pub(crate) fn ipa_opening_consistency_flag(o: &IpaOpening) -> (r: bool)
    ensures
        r == ipa_opening_consistent(*o),
{
    o.inner.hiding_comm.is_some() == o.inner.rand.is_some()
}

/// Relies on `SonicKZG10::setup` and `SonicKZG10::trim`: produces the
/// committer and verifier keys for the given maximum degree, hiding bound and
/// enforced degree bound. Setup draws randomness, so nothing is promised of
/// the keys' values.
#[verifier::external_body]
pub fn kzg_keys(
    max_degree: usize,
    supported_hiding_bound: usize,
    enforced_degree_bound: Option<usize>,
) -> Result<(KzgCommitterKey, KzgVerifierKey), EquivalenceError> {
    let rng = &mut rand::thread_rng();
    let bounds = enforced_degree_bound.map(|b| [b]);
    let pp = <ark_poly_commit::sonic_pc::SonicKZG10<ark_bn254::Bn254, ark_poly::univariate::DensePolynomial<Fr>>
        as ark_poly_commit::PolynomialCommitment<Fr, ark_poly::univariate::DensePolynomial<Fr>>>::setup(max_degree, None, rng)
        .map_err(from_pc_error)?;
    let (ck, vk) = <ark_poly_commit::sonic_pc::SonicKZG10<ark_bn254::Bn254, ark_poly::univariate::DensePolynomial<Fr>>
        as ark_poly_commit::PolynomialCommitment<Fr, ark_poly::univariate::DensePolynomial<Fr>>>::trim(
        &pp, max_degree, supported_hiding_bound, bounds.as_ref().map(|b| &b[..]),
    ).map_err(from_pc_error)?;
    Ok((KzgCommitterKey { inner: ck }, KzgVerifierKey { inner: vk }))
}

/// Relies on `InnerProductArgPC::setup` and `InnerProductArgPC::trim`, as
/// `kzg_keys` relies on the first backend's.
#[verifier::external_body]
pub fn ipa_keys(
    max_degree: usize,
    supported_hiding_bound: usize,
    enforced_degree_bound: Option<usize>,
) -> Result<(IpaCommitterKey, IpaVerifierKey), EquivalenceError> {
    let rng = &mut rand::thread_rng();
    let bounds = enforced_degree_bound.map(|b| [b]);
    let pp = <ark_poly_commit::ipa_pc::InnerProductArgPC<ark_bn254::G1Affine, blake2::Blake2s, ark_poly::univariate::DensePolynomial<Fr>> as ark_poly_commit::PolynomialCommitment<Fr, ark_poly::univariate::DensePolynomial<Fr>>>::setup(
        max_degree, None, rng,
    ).map_err(from_pc_error)?;
    let (ck, vk) = <ark_poly_commit::ipa_pc::InnerProductArgPC<ark_bn254::G1Affine, blake2::Blake2s, ark_poly::univariate::DensePolynomial<Fr>> as ark_poly_commit::PolynomialCommitment<Fr, ark_poly::univariate::DensePolynomial<Fr>>>::trim(
        &pp, max_degree, supported_hiding_bound, bounds.as_ref().map(|b| &b[..]),
    ).map_err(from_pc_error)?;
    Ok((IpaCommitterKey { inner: ck }, IpaVerifierKey { inner: vk }))
}

/// Relies on `SonicKZG10::commit`: commits to the one polynomial, returning
/// its labeled commitment and the blinding randomness the commitment was made
/// with. Commitment draws randomness, so nothing is promised of the values.
#[verifier::external_body]
pub fn kzg_commit(
    ck: &KzgCommitterKey,
    polynomial: &Polynomial,
) -> Result<(KzgCommitment, KzgRandomness), EquivalenceError> {
    let rng = &mut rand::thread_rng();
    let (mut comms, mut rands) = <ark_poly_commit::sonic_pc::SonicKZG10<
        ark_bn254::Bn254,
        ark_poly::univariate::DensePolynomial<Fr>,
    > as ark_poly_commit::PolynomialCommitment<Fr, ark_poly::univariate::DensePolynomial<Fr>>>::commit(
        &ck.inner,
        std::iter::once(&polynomial.inner),
        Some(rng),
    ).map_err(from_pc_error)?;
    Ok((
        KzgCommitment { inner: comms.remove(0) },
        KzgRandomness { inner: rands.remove(0) },
    ))
}

/// Relies on `InnerProductArgPC::commit`, as `kzg_commit` relies on the
/// first backend's. The backend's commit copies the polynomial's label and
/// degree bound into the labeled commitment, attaches a shifted part exactly
/// when there is a degree bound, and draws shifted blinding randomness
/// exactly when a degree-bounded polynomial is hiding — so the returned pair
/// is ready for `open` with the same polynomial, and the commitment is ready
/// for any verifier key supporting its bound.
#[verifier::external_body]
pub fn ipa_commit(
    ck: &IpaCommitterKey,
    polynomial: &Polynomial,
) -> (r: Result<(IpaCommitment, IpaRandomness), EquivalenceError>)
    ensures
        (r matches Ok(pair) ==> {
            &&& ipa_commitment_label(pair.0) == poly_label(*polynomial)
            &&& ipa_commitment_degree_bound(pair.0) == poly_degree_bound(*polynomial)
            &&& ipa_commitment_shifted(pair.0) == (poly_degree_bound(*polynomial) is Some)
            &&& ipa_randomness_shifted(pair.1) == (poly_degree_bound(*polynomial) is Some
                && poly_is_hiding(*polynomial))
        }),
{
    let rng = &mut rand::thread_rng();
    let (mut comms, mut rands) = <ark_poly_commit::ipa_pc::InnerProductArgPC<ark_bn254::G1Affine, blake2::Blake2s, ark_poly::univariate::DensePolynomial<Fr>>
        as ark_poly_commit::PolynomialCommitment<Fr, ark_poly::univariate::DensePolynomial<Fr>>>::commit(
        &ck.inner,
        std::iter::once(&polynomial.inner),
        Some(rng),
    ).map_err(from_pc_error)?;
    Ok((
        IpaCommitment { inner: comms.remove(0) },
        IpaRandomness { inner: rands.remove(0) },
    ))
}

// ---------------------------------------------------------------------------
// The trusted entry points the protocol core calls.
// ---------------------------------------------------------------------------

/// Relies on ark_ff's `ToBytes` for kzg10 commitments: the encoding is a
/// deterministic function of the commitment value, and writing into a `Vec`
/// cannot fail (std's `Write` for `Vec<u8>` never errors).
#[verifier::external_body]
pub(crate) fn kzg_commitment_to_bytes(c: &KzgCommitment) -> (r: Vec<u8>)
    ensures
        r@ == kzg_commitment_bytes(*c),
{
    let mut buf: Vec<u8> = Vec::new();
    ark_ff::ToBytes::write(c.inner.commitment(), &mut buf)
        .expect("writing to a Vec cannot fail");
    buf
}

/// Relies on ark_ff's `ToBytes` for ipa_pc commitments: the encoding is a
/// deterministic function of the commitment value, and writing into a `Vec`
/// cannot fail (std's `Write` for `Vec<u8>` never errors).
#[verifier::external_body]
pub(crate) fn ipa_commitment_to_bytes(c: &IpaCommitment) -> (r: Vec<u8>)
    ensures
        r@ == ipa_commitment_bytes(*c),
{
    let mut buf: Vec<u8> = Vec::new();
    ark_ff::ToBytes::write(c.inner.commitment(), &mut buf)
        .expect("writing to a Vec cannot fail");
    buf
}

/// Relies on `PolynomialCommitment::open` of the sonic KZG backend, which
/// ignores the rng it is handed (all blinding comes from the passed
/// randomness), so the whole result is the named deterministic function of
/// the arguments; failures are `Err`, never panics. The thread rng is passed
/// only to mirror the backend's interface.
#[verifier::external_body]
pub(crate) fn kzg_open(
    ck: &KzgCommitterKey,
    polynomial: &Polynomial,
    commitment: &KzgCommitment,
    point: &Fr,
    opening_challenge: Fr,
    randomness: &KzgRandomness,
) -> (r: Result<KzgOpening, ark_poly_commit::Error>)
    ensures
        (r == kzg_open_result(*ck, *polynomial, *commitment, *point, opening_challenge,
        *randomness)),
{
    let rng = &mut rand::thread_rng();
    let opening = <ark_poly_commit::sonic_pc::SonicKZG10<ark_bn254::Bn254, ark_poly::univariate::DensePolynomial<Fr>>
        as ark_poly_commit::PolynomialCommitment<Fr, ark_poly::univariate::DensePolynomial<Fr>>>::open(
        &ck.inner,
        std::iter::once(&polynomial.inner),
        std::iter::once(&commitment.inner),
        point,
        opening_challenge,
        std::iter::once(&randomness.inner),
        Some(rng),
    )?;
    Ok(KzgOpening { inner: opening })
}

/// Relies on `PolynomialCommitment::open` of the inner-product backend. It
/// asserts the label/degree-bound/randomness shape of its inputs — the
/// `ipa_open_ready` precondition keeps those panics out — and then fails
/// only on deterministic degree checks, so its success and error are the
/// named function of the arguments. The rng is drawn from only for the
/// hiding parts of the opening's value, which is therefore not named; the
/// returned opening always carries its hiding commitment and hiding
/// randomness both present or both absent.
#[verifier::external_body]
pub(crate) fn ipa_open(
    ck: &IpaCommitterKey,
    polynomial: &Polynomial,
    commitment: &IpaCommitment,
    point: &Fr,
    opening_challenge: Fr,
    randomness: &IpaRandomness,
) -> (r: Result<IpaOpening, ark_poly_commit::Error>)
    requires
        ipa_open_ready(*polynomial, *commitment, *randomness),
    ensures
        (r is Ok <==> ipa_open_outcome(*ck, *polynomial, *commitment, *point, opening_challenge,
        *randomness) is Ok),
        (r matches Err(e) ==> ipa_open_outcome(*ck, *polynomial, *commitment, *point,
        opening_challenge, *randomness) == Err::<(), ark_poly_commit::Error>(e)),
        (r matches Ok(o) ==> ipa_opening_consistent(o)),
{
    let rng = &mut rand::thread_rng();
    let opening = <ark_poly_commit::ipa_pc::InnerProductArgPC<ark_bn254::G1Affine, blake2::Blake2s, ark_poly::univariate::DensePolynomial<Fr>> as ark_poly_commit::PolynomialCommitment<Fr, ark_poly::univariate::DensePolynomial<Fr>>>::open(
        &ck.inner,
        std::iter::once(&polynomial.inner),
        std::iter::once(&commitment.inner),
        point,
        opening_challenge,
        std::iter::once(&randomness.inner),
        Some(rng),
    )?;
    Ok(IpaOpening { inner: opening })
}

/// Relies on `PolynomialCommitment::check` of the sonic KZG backend:
/// `Ok(true)` accepts the opening, `Ok(false)` rejects it, `Err` means the
/// check could not be evaluated at all (an unsupported degree bound is such
/// an `Err`, never a panic). The backend ignores the rng it is handed and
/// accumulates without a randomizer, so the verdict is the named
/// deterministic function of the arguments.
#[verifier::external_body]
pub(crate) fn kzg_check(
    vk: &KzgVerifierKey,
    commitment: &KzgCommitment,
    point: &Fr,
    value: Fr,
    opening: &KzgOpening,
    opening_challenge: Fr,
) -> (r: Result<bool, ark_poly_commit::Error>)
    ensures
        (r == kzg_check_verdict(*vk, *commitment, *point, value, *opening, opening_challenge)),
{
    let rng = &mut rand::thread_rng();
    <ark_poly_commit::sonic_pc::SonicKZG10<ark_bn254::Bn254, ark_poly::univariate::DensePolynomial<Fr>>
        as ark_poly_commit::PolynomialCommitment<Fr, ark_poly::univariate::DensePolynomial<Fr>>>::check(
        &vk.inner,
        std::iter::once(&commitment.inner),
        point,
        std::iter::once(value),
        &opening.inner,
        opening_challenge,
        Some(rng),
    )
}

/// Relies on `PolynomialCommitment::check` of the inner-product backend:
/// `Ok(true)` accepts the opening, `Ok(false)` rejects it, `Err` means the
/// check could not be evaluated at all. The backend ignores the rng it is
/// handed, so the verdict is the named deterministic function of the
/// arguments. Its succinct check asserts the commitment's degree-bound shape
/// (with the bound within the key's supported degree) and the opening's
/// hiding shape — the two preconditions keep those panics out.
#[verifier::external_body]
pub(crate) fn ipa_check(
    vk: &IpaVerifierKey,
    commitment: &IpaCommitment,
    point: &Fr,
    value: Fr,
    opening: &IpaOpening,
    opening_challenge: Fr,
) -> (r: Result<bool, ark_poly_commit::Error>)
    requires
        ipa_check_ready(*vk, *commitment),
        ipa_opening_consistent(*opening),
    ensures
        (r == ipa_check_verdict(*vk, *commitment, *point, value, *opening, opening_challenge)),
{
    let rng = &mut rand::thread_rng();
    <ark_poly_commit::ipa_pc::InnerProductArgPC<ark_bn254::G1Affine, blake2::Blake2s, ark_poly::univariate::DensePolynomial<Fr>> as ark_poly_commit::PolynomialCommitment<Fr, ark_poly::univariate::DensePolynomial<Fr>>>::check(
        &vk.inner,
        std::iter::once(&commitment.inner),
        point,
        std::iter::once(value),
        &opening.inner,
        opening_challenge,
        Some(rng),
    )
}

} // verus!
