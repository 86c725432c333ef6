//! A proof system attesting that the same polynomial was committed to under
//! two different polynomial commitment schemes.
//!
//! The two backends are a pairing-based scheme (sonic-style KZG over BN254)
//! and an inner-product-argument scheme over the same curve. The core of the
//! protocol is deterministic Fiat-Shamir challenge derivation from the two
//! commitments, a dual opening of the polynomial at the derived challenge
//! point, and a verification that combines both backend checks into one
//! accept/reject decision. Because the challenge point is unpredictable to
//! the prover at commitment time, two openings agreeing at it are — by the
//! Schwartz–Zippel bound — strong evidence that the committed polynomials
//! are identical.

use vstd::prelude::*;

pub mod backend;
pub mod codec;
mod error;
pub mod transcript;

pub use error::EquivalenceError;
pub use error::from_pc_error;

verus! {

use crate::backend::Fr;
use crate::backend::Polynomial;
use crate::backend::KzgCommitterKey;
use crate::backend::KzgVerifierKey;
use crate::backend::KzgCommitment;
use crate::backend::KzgRandomness;
use crate::backend::KzgOpening;
use crate::backend::IpaCommitterKey;
use crate::backend::IpaVerifierKey;
use crate::backend::IpaCommitment;
use crate::backend::IpaRandomness;
use crate::backend::IpaOpening;
use crate::backend::evaluation_of;
use crate::backend::kzg_commitment_bytes;
use crate::backend::ipa_commitment_bytes;
use crate::backend::kzg_open;
use crate::backend::ipa_open;
use crate::backend::kzg_check;
use crate::backend::ipa_check;
use crate::backend::kzg_open_result;
use crate::backend::ipa_open_outcome;
use crate::backend::kzg_check_verdict;
use crate::backend::ipa_check_verdict;
use crate::backend::ipa_open_ready;
use crate::backend::ipa_check_ready;
use crate::backend::ipa_opening_consistent;
use crate::transcript::Transcript;
use crate::transcript::squeezed_element;

/// Proof for the equivalence protocol: the claimed evaluation at the derived
/// challenge point, and one opening proof per backend. Immutable once
/// produced; consumed once by `verify`.
pub struct Proof {
    /// The polynomial's value at the transcript-derived challenge point.
    pub eval: Fr,
    /// The two backends' opening proofs, first backend first.
    pub openings: (KzgOpening, IpaOpening),
}

impl Proof {
    /// An equal copy of the proof.
    ///
    /// Relies on the backends' derived `Clone` for the two openings: the
    /// copy equals the original, field for field.
    #[verifier::external_body]
    pub fn duplicate(&self) -> (r: Proof)
        ensures
            r == *self,
    {
        Proof {
            eval: self.eval,
            openings: (
                KzgOpening { inner: self.openings.0.inner.clone() },
                IpaOpening { inner: self.openings.1.inner.clone() },
            ),
        }
    }
}

/// The canonical transcript input for a pair of commitments: the canonical
/// encoding of the first backend's commitment, then the second's, in that
/// fixed, documented order. Prove and verify both absorb exactly this.
pub open spec fn transcript_input(c1: KzgCommitment, c2: IpaCommitment) -> Seq<u8> {
    kzg_commitment_bytes(c1) + ipa_commitment_bytes(c2)
}

/// The challenge point both parties derive: the first element squeezed from
/// a fresh transcript that absorbed the canonical transcript input once.
pub open spec fn spec_challenge_point(c1: KzgCommitment, c2: IpaCommitment) -> Fr {
    squeezed_element(seq![transcript_input(c1, c2)], 0)
}

/// The opening challenge both parties derive: the second element squeezed
/// from the same transcript.
pub open spec fn spec_opening_challenge(c1: KzgCommitment, c2: IpaCommitment) -> Fr {
    squeezed_element(seq![transcript_input(c1, c2)], 1)
}

/// Derive the protocol's two challenges from already-absorbed bytes: seed a
/// fresh transcript, absorb the bytes once, squeeze the challenge point and
/// then the opening challenge.
pub fn derive_challenges_from_bytes(absorbed: &Vec<u8>) -> (r: (Fr, Fr))
    ensures
        r.0 == squeezed_element(seq![absorbed@], 0),
        r.1 == squeezed_element(seq![absorbed@], 1),
{
    let mut t = Transcript::new();
    t.absorb(absorbed);
    proof {
        assert(t.history() =~= seq![absorbed@]);
    }
    let challenge_point = t.squeeze_field_element();
    let opening_challenge = t.squeeze_field_element();
    (challenge_point, opening_challenge)
}

/// Derive the two challenges for a pair of commitments, in the canonical
/// absorb order. Prove and verify both call this and nothing else, so the
/// verifier rederives exactly the prover's challenges.
pub fn derive_challenges(c1: &KzgCommitment, c2: &IpaCommitment) -> (r: (Fr, Fr))
    ensures
        r.0 == spec_challenge_point(*c1, *c2),
        r.1 == spec_opening_challenge(*c1, *c2),
{
    let mut absorbed = c1.transcript_bytes();
    let mut rest = c2.transcript_bytes();
    absorbed.append(&mut rest);
    derive_challenges_from_bytes(&absorbed)
}

/// What the first backend's `open` returns inside a protocol run on these
/// commitments: its result at the canonically derived challenge point and
/// opening challenge.
pub open spec fn spec_kzg_opening(
    ck: KzgCommitterKey,
    p: Polynomial,
    c1: KzgCommitment,
    c2: IpaCommitment,
    rand: KzgRandomness,
) -> Result<KzgOpening, ark_poly_commit::Error> {
    kzg_open_result(ck, p, c1, spec_challenge_point(c1, c2), spec_opening_challenge(c1, c2), rand)
}

/// Whether the second backend's `open` succeeds inside a protocol run on
/// these commitments, and with which error it fails.
pub open spec fn spec_ipa_opening_outcome(
    ck: IpaCommitterKey,
    p: Polynomial,
    c1: KzgCommitment,
    c2: IpaCommitment,
    rand: IpaRandomness,
) -> Result<(), ark_poly_commit::Error> {
    ipa_open_outcome(ck, p, c2, spec_challenge_point(c1, c2), spec_opening_challenge(c1, c2), rand)
}

/// The first backend's check verdict inside a protocol run on these
/// commitments, for a claimed value and an opening.
pub open spec fn spec_kzg_verdict(
    vk: KzgVerifierKey,
    c1: KzgCommitment,
    c2: IpaCommitment,
    value: Fr,
    o: KzgOpening,
) -> Result<bool, ark_poly_commit::Error> {
    kzg_check_verdict(vk, c1, spec_challenge_point(c1, c2), value, o, spec_opening_challenge(c1, c2))
}

/// The second backend's check verdict inside a protocol run on these
/// commitments, for a claimed value and an opening.
pub open spec fn spec_ipa_verdict(
    vk: IpaVerifierKey,
    c1: KzgCommitment,
    c2: IpaCommitment,
    value: Fr,
    o: IpaOpening,
) -> Result<bool, ark_poly_commit::Error> {
    ipa_check_verdict(vk, c2, spec_challenge_point(c1, c2), value, o, spec_opening_challenge(c1, c2))
}

/// The verifier's decision on the first backend's check outcome: accept on
/// `Ok(true)`, reject with `KZGFailed` on `Ok(false)`, surface a backend
/// error as `BackendCheckError` naming backend 1.
pub fn interpret_kzg_check(outcome: Result<bool, ark_poly_commit::Error>) -> (r: Result<
    (),
    EquivalenceError,
>)
    ensures
        r is Ok <==> outcome == Ok::<bool, ark_poly_commit::Error>(true),
        ((outcome == Ok::<bool, ark_poly_commit::Error>(false)) ==> r == Err::<
            (),
            EquivalenceError,
        >(EquivalenceError::KZGFailed)),
        (outcome matches Err(e) ==> r == Err::<(), EquivalenceError>(
            (EquivalenceError::BackendCheckError { backend_id: 1, inner: e }),
        )),
{
    match outcome {
        Ok(true) => Ok(()),
        Ok(false) => Err(EquivalenceError::KZGFailed),
        Err(e) => Err(EquivalenceError::BackendCheckError { backend_id: 1, inner: e }),
    }
}

/// The verifier's decision on the second backend's check outcome: accept on
/// `Ok(true)`, reject with `IPAFailed` on `Ok(false)`, surface a backend
/// error as `BackendCheckError` naming backend 2.
pub fn interpret_ipa_check(outcome: Result<bool, ark_poly_commit::Error>) -> (r: Result<
    (),
    EquivalenceError,
>)
    ensures
        r is Ok <==> outcome == Ok::<bool, ark_poly_commit::Error>(true),
        ((outcome == Ok::<bool, ark_poly_commit::Error>(false)) ==> r == Err::<
            (),
            EquivalenceError,
        >(EquivalenceError::IPAFailed)),
        (outcome matches Err(e) ==> r == Err::<(), EquivalenceError>(
            (EquivalenceError::BackendCheckError { backend_id: 2, inner: e }),
        )),
{
    match outcome {
        Ok(true) => Ok(()),
        Ok(false) => Err(EquivalenceError::IPAFailed),
        Err(e) => Err(EquivalenceError::BackendCheckError { backend_id: 2, inner: e }),
    }
}

/// A proof system that attests to the fact that the same polynomial was
/// committed to under two different polynomial commitment schemes.
pub struct PolyCommitEquivalence;

impl PolyCommitEquivalence {
    /// The prover: derive the challenges from the two commitments, evaluate
    /// the polynomial at the challenge point, and open both commitments
    /// there.
    ///
    /// It succeeds exactly when both backends' opens succeed at the
    /// canonical challenges; the proof's claimed evaluation is then the
    /// polynomial's value at the canonical challenge point, and its first
    /// opening is the first backend's (deterministic) one. A failure of
    /// either backend's `open` aborts immediately with `BackendOpenError`
    /// naming that backend; no partial proof is ever returned, and the
    /// second backend is not opened after the first fails. The caller
    /// supplies a commitment/randomness pair the second backend made for
    /// this polynomial (`ipa_open_ready`), as its `open` asserts.
    pub fn prove(
        commit_keys: (&KzgCommitterKey, &IpaCommitterKey),
        polynomial: &Polynomial,
        commitments: (&KzgCommitment, &IpaCommitment),
        randomnesses: (&KzgRandomness, &IpaRandomness),
    ) -> (r: Result<Proof, EquivalenceError>)
        requires
            ipa_open_ready(*polynomial, *commitments.1, *randomnesses.1),
        ensures
            (r is Ok <==> spec_kzg_opening(*commit_keys.0, *polynomial, *commitments.0,
            *commitments.1, *randomnesses.0) is Ok && spec_ipa_opening_outcome(*commit_keys.1,
            *polynomial, *commitments.0, *commitments.1, *randomnesses.1) is Ok),
            (r matches Ok(p) ==> p.eval == evaluation_of(
                *polynomial,
                spec_challenge_point(*commitments.0, *commitments.1),
            ) && (spec_kzg_opening(*commit_keys.0, *polynomial, *commitments.0, *commitments.1,
            *randomnesses.0) matches Ok(o) && p.openings.0 == o) && ipa_opening_consistent(
                p.openings.1,
            )),
            (spec_kzg_opening(*commit_keys.0, *polynomial, *commitments.0, *commitments.1,
            *randomnesses.0) matches Err(e) ==> r == Err::<Proof, EquivalenceError>(
                (EquivalenceError::BackendOpenError { backend_id: 1, inner: e }),
            )),
            (spec_kzg_opening(*commit_keys.0, *polynomial, *commitments.0, *commitments.1,
            *randomnesses.0) is Ok ==> (spec_ipa_opening_outcome(*commit_keys.1, *polynomial,
            *commitments.0, *commitments.1, *randomnesses.1) matches Err(e) ==> r == Err::<
                Proof,
                EquivalenceError,
            >((EquivalenceError::BackendOpenError { backend_id: 2, inner: e })))),
    {
        // Derive the challenge point and the opening challenge.
        let (challenge_point, opening_challenge) = derive_challenges(
            commitments.0,
            commitments.1,
        );

        // Compute the claimed evaluation.
        let evaluation = polynomial.evaluate(&challenge_point);

        // Open both commitments at the challenge point.
        let pc1_opening = match kzg_open(
            commit_keys.0,
            polynomial,
            commitments.0,
            &challenge_point,
            opening_challenge,
            randomnesses.0,
        ) {
            Ok(o) => o,
            Err(e) => return Err(EquivalenceError::BackendOpenError { backend_id: 1, inner: e }),
        };

        let pc2_opening = match ipa_open(
            commit_keys.1,
            polynomial,
            commitments.1,
            &challenge_point,
            opening_challenge,
            randomnesses.1,
        ) {
            Ok(o) => o,
            Err(e) => return Err(EquivalenceError::BackendOpenError { backend_id: 2, inner: e }),
        };

        Ok(Proof { eval: evaluation, openings: (pc1_opening, pc2_opening) })
    }

    /// The verifier: rebuild the transcript from the two commitments (never
    /// from the proof), rederive the same two challenges, and check each
    /// opening against its commitment at the challenge point.
    ///
    /// Accepts (returns `Ok`) exactly when both backends' checks — at the
    /// canonical challenges of the two commitments, against the proof's
    /// claimed evaluation — return `Ok(true)`. A check that returns `false`
    /// rejects with `KZGFailed` or `IPAFailed`, naming the backend; a check
    /// that cannot be evaluated surfaces `BackendCheckError` naming it, and
    /// the first backend's failure ends the run before the second is
    /// checked. Rejection is a valid negative outcome, distinct from a
    /// fault. The caller supplies a second commitment of the shape that
    /// backend's check asserts (`ipa_check_ready`) and a proof whose second
    /// opening is well-shaped, as every proof from `prove` or `decode` is.
    pub fn verify(
        verifier_keys: (&KzgVerifierKey, &IpaVerifierKey),
        commitments: (&KzgCommitment, &IpaCommitment),
        proof: Proof,
    ) -> (r: Result<(), EquivalenceError>)
        requires
            ipa_check_ready(*verifier_keys.1, *commitments.1),
            ipa_opening_consistent(proof.openings.1),
        ensures
            (r is Ok <==> spec_kzg_verdict(*verifier_keys.0, *commitments.0, *commitments.1,
            proof.eval, proof.openings.0) == Ok::<bool, ark_poly_commit::Error>(true)
                && spec_ipa_verdict(*verifier_keys.1, *commitments.0, *commitments.1, proof.eval,
            proof.openings.1) == Ok::<bool, ark_poly_commit::Error>(true)),
            (spec_kzg_verdict(*verifier_keys.0, *commitments.0, *commitments.1, proof.eval,
            proof.openings.0) == Ok::<bool, ark_poly_commit::Error>(false) ==> r == Err::<
                (),
                EquivalenceError,
            >(EquivalenceError::KZGFailed)),
            (spec_kzg_verdict(*verifier_keys.0, *commitments.0, *commitments.1, proof.eval,
            proof.openings.0) matches Err(e) ==> r == Err::<(), EquivalenceError>(
                (EquivalenceError::BackendCheckError { backend_id: 1, inner: e }),
            )),
            ((spec_kzg_verdict(*verifier_keys.0, *commitments.0, *commitments.1, proof.eval,
            proof.openings.0) == Ok::<bool, ark_poly_commit::Error>(true) && spec_ipa_verdict(
                *verifier_keys.1,
                *commitments.0,
                *commitments.1,
                proof.eval,
                proof.openings.1,
            ) == Ok::<bool, ark_poly_commit::Error>(false)) ==> r == Err::<(), EquivalenceError>(
                EquivalenceError::IPAFailed,
            )),
            (spec_kzg_verdict(*verifier_keys.0, *commitments.0, *commitments.1, proof.eval,
            proof.openings.0) == Ok::<bool, ark_poly_commit::Error>(true) ==> (spec_ipa_verdict(
                *verifier_keys.1,
                *commitments.0,
                *commitments.1,
                proof.eval,
                proof.openings.1,
            ) matches Err(e) ==> r == Err::<(), EquivalenceError>(
                (EquivalenceError::BackendCheckError { backend_id: 2, inner: e }),
            ))),
    {
        // Rederive the challenge point and the opening challenge.
        let (challenge_point, opening_challenge) = derive_challenges(
            commitments.0,
            commitments.1,
        );

        // Check the first backend's opening.
        let kzg_outcome = kzg_check(
            verifier_keys.0,
            commitments.0,
            &challenge_point,
            proof.eval,
            &proof.openings.0,
            opening_challenge,
        );
        match interpret_kzg_check(kzg_outcome) {
            Ok(()) => (),
            Err(e) => return Err(e),
        }

        // Check the second backend's opening.
        let ipa_outcome = ipa_check(
            verifier_keys.1,
            commitments.1,
            &challenge_point,
            proof.eval,
            &proof.openings.1,
            opening_challenge,
        );
        interpret_ipa_check(ipa_outcome)
    }
}

/// Law (determinism): two transcript derivations fed commitments with
/// identical canonical encodings yield identical challenge points and
/// identical opening challenges. This is the binding hook: the verifier
/// rederives exactly the prover's challenges from the same public inputs.
pub proof fn lemma_challenge_determinism(
    a1: KzgCommitment,
    a2: IpaCommitment,
    b1: KzgCommitment,
    b2: IpaCommitment,
)
    requires
        kzg_commitment_bytes(a1) == kzg_commitment_bytes(b1),
        ipa_commitment_bytes(a2) == ipa_commitment_bytes(b2),
    ensures
        spec_challenge_point(a1, a2) == spec_challenge_point(b1, b2),
        spec_opening_challenge(a1, a2) == spec_opening_challenge(b1, b2),
{
    assert(transcript_input(a1, a2) == transcript_input(b1, b2));
    assert(seq![transcript_input(a1, a2)] =~= seq![transcript_input(b1, b2)]);
}

/// Law (binding skeleton): any change to the first commitment's canonical
/// encoding — flipping any single byte of it — changes the canonical
/// transcript input that both `prove` and `verify` absorb; the challenges
/// are derived from nothing else.
pub proof fn lemma_first_commitment_binds_transcript(
    a1: KzgCommitment,
    b1: KzgCommitment,
    c2: IpaCommitment,
)
    requires
        kzg_commitment_bytes(a1) != kzg_commitment_bytes(b1),
    ensures
        transcript_input(a1, c2) != transcript_input(b1, c2),
{
    crate::transcript::lemma_concat_cancellation(
        kzg_commitment_bytes(a1),
        kzg_commitment_bytes(b1),
        ipa_commitment_bytes(c2),
    );
}

/// Law (binding skeleton): any change to the second commitment's canonical
/// encoding likewise changes the canonical transcript input.
pub proof fn lemma_second_commitment_binds_transcript(
    c1: KzgCommitment,
    a2: IpaCommitment,
    b2: IpaCommitment,
)
    requires
        ipa_commitment_bytes(a2) != ipa_commitment_bytes(b2),
    ensures
        transcript_input(c1, a2) != transcript_input(c1, b2),
{
    crate::transcript::lemma_concat_cancellation(
        ipa_commitment_bytes(a2),
        ipa_commitment_bytes(b2),
        kzg_commitment_bytes(c1),
    );
}

/// Law (order sensitivity): when the two commitments' canonical encodings
/// have the same length and differ, absorbing them in swapped order feeds
/// the transcript different bytes. The protocol therefore fixes one
/// canonical order — the first backend's commitment, then the second's —
/// and both `prove` and `verify` use it unconditionally.
pub proof fn lemma_canonical_order_matters(c1: KzgCommitment, c2: IpaCommitment)
    requires
        kzg_commitment_bytes(c1).len() == ipa_commitment_bytes(c2).len(),
        kzg_commitment_bytes(c1) != ipa_commitment_bytes(c2),
    ensures
        transcript_input(c1, c2) != ipa_commitment_bytes(c2) + kzg_commitment_bytes(c1),
{
    crate::transcript::lemma_absorb_order_sensitivity(
        kzg_commitment_bytes(c1),
        ipa_commitment_bytes(c2),
    );
}

} // verus!
