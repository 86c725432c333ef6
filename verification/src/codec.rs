//! Canonical encoding and decoding of equivalence proofs.
//!
//! The wire form is the fixed field order `(evaluation, opening1, opening2)`,
//! each field serialized with its own value's canonical encoding and nothing
//! between them. Decoding an encoding returns the original proof.

use vstd::prelude::*;
use crate::Proof;
use crate::backend::Fr;
use crate::backend::KzgOpening;
use crate::backend::IpaOpening;
use crate::backend::ipa_opening_consistent;
use crate::backend::ipa_opening_consistency_flag;
use crate::error::EquivalenceError;

verus! {

/// The canonical byte encoding of a scalar field element. A function of the
/// element alone.
pub uninterp spec fn fr_bytes(f: Fr) -> Seq<u8>;

/// The canonical byte encoding of the first backend's opening proof. A
/// function of the opening alone.
pub uninterp spec fn kzg_opening_bytes(o: KzgOpening) -> Seq<u8>;

/// The canonical byte encoding of the second backend's opening proof. A
/// function of the opening alone.
pub uninterp spec fn ipa_opening_bytes(o: IpaOpening) -> Seq<u8>;

/// The canonical encoding of a whole proof: the evaluation, the first
/// backend's opening, then the second's, each in its own canonical encoding.
pub open spec fn proof_bytes(p: Proof) -> Seq<u8> {
    fr_bytes(p.eval) + kzg_opening_bytes(p.openings.0) + ipa_opening_bytes(p.openings.1)
}

/// Relies on `CanonicalSerialize` for the scalar field: the encoding is a
/// deterministic function of the element, and writing into a `Vec` cannot
/// fail (std's `Write` for `Vec<u8>` never errors).
#[verifier::external_body]
fn fr_to_bytes(f: &Fr) -> (r: Vec<u8>)
    ensures
        r@ == fr_bytes(*f),
{
    let mut buf: Vec<u8> = Vec::new();
    ark_serialize::CanonicalSerialize::serialize(f, &mut buf)
        .expect("writing to a Vec cannot fail");
    buf
}

/// Relies on `CanonicalSerialize` for kzg10 opening proofs, as `fr_to_bytes`
/// relies on the field's.
#[verifier::external_body]
fn kzg_opening_to_bytes(o: &KzgOpening) -> (r: Vec<u8>)
    ensures
        r@ == kzg_opening_bytes(*o),
{
    let mut buf: Vec<u8> = Vec::new();
    ark_serialize::CanonicalSerialize::serialize(&o.inner, &mut buf)
        .expect("writing to a Vec cannot fail");
    buf
}

/// Relies on `CanonicalSerialize` for ipa_pc opening proofs, as `fr_to_bytes`
/// relies on the field's.
#[verifier::external_body]
fn ipa_opening_to_bytes(o: &IpaOpening) -> (r: Vec<u8>)
    ensures
        r@ == ipa_opening_bytes(*o),
{
    let mut buf: Vec<u8> = Vec::new();
    ark_serialize::CanonicalSerialize::serialize(&o.inner, &mut buf)
        .expect("writing to a Vec cannot fail");
    buf
}

/// Relies on `CanonicalDeserialize` for the three parts, read in order from
/// one reader, exactly as they were serialized: on the concatenation of the
/// three canonical encodings it returns those three values (canonical
/// encodings are unambiguous and self-delimiting).
#[verifier::external_body]
fn read_proof_parts(bytes: &Vec<u8>) -> (r: Result<(Fr, KzgOpening, IpaOpening), EquivalenceError>)
    ensures
        (forall|f: Fr, o1: KzgOpening, o2: IpaOpening|
            bytes@ == #[trigger] fr_bytes(f) + #[trigger] kzg_opening_bytes(o1)
                + #[trigger] ipa_opening_bytes(o2) ==> r == Ok::<
                (Fr, KzgOpening, IpaOpening),
                EquivalenceError,
            >((f, o1, o2))),
        r matches Err(e) ==> e is PCError,
{
    let mut reader: &[u8] = &bytes[..];
    let fail = |e: ark_serialize::SerializationError| EquivalenceError::PCError {
        error: format!("Proof Decoding Error: {:?}", e),
    };
    let eval: Fr = ark_serialize::CanonicalDeserialize::deserialize(&mut reader).map_err(fail)?;
    let o1 = ark_serialize::CanonicalDeserialize::deserialize(&mut reader).map_err(fail)?;
    let o2 = ark_serialize::CanonicalDeserialize::deserialize(&mut reader).map_err(fail)?;
    Ok((eval, KzgOpening { inner: o1 }, IpaOpening { inner: o2 }))
}

/// Encode a proof into its canonical wire form.
pub fn encode(p: &Proof) -> (r: Vec<u8>)
    ensures
        r@ == proof_bytes(*p),
{
    let mut bytes = fr_to_bytes(&p.eval);
    let mut o1 = kzg_opening_to_bytes(&p.openings.0);
    let mut o2 = ipa_opening_to_bytes(&p.openings.1);
    bytes.append(&mut o1);
    bytes.append(&mut o2);
    bytes
}

/// Decode a proof from its canonical wire form. On the canonical encoding of
/// any well-shaped proof this returns that proof; bytes that are not a
/// well-formed encoding, or that decode to an opening whose hiding parts
/// disagree (a shape no prover emits and the second backend's check
/// asserts), fail at this boundary with `PCError`.
pub fn decode(bytes: &Vec<u8>) -> (r: Result<Proof, EquivalenceError>)
    ensures
        (forall|p: Proof|
            bytes@ == proof_bytes(p) && ipa_opening_consistent(p.openings.1) ==> (r matches Ok(q)
                && q == p)),
        (r matches Ok(q) ==> ipa_opening_consistent(q.openings.1)),
        r matches Err(e) ==> e is PCError,
{
    match read_proof_parts(bytes) {
        Ok((eval, o1, o2)) => {
            if ipa_opening_consistency_flag(&o2) {
                let q = Proof { eval, openings: (o1, o2) };
                proof {
                    assert forall|p: Proof|
                        bytes@ == proof_bytes(p) && ipa_opening_consistent(
                            p.openings.1,
                        ) implies q == p by {
                        assert((eval, o1, o2) == (p.eval, p.openings.0, p.openings.1));
                    }
                }
                Ok(q)
            } else {
                proof {
                    assert forall|p: Proof|
                        bytes@ == proof_bytes(p) implies !ipa_opening_consistent(
                        p.openings.1,
                    ) by {
                        assert((eval, o1, o2) == (p.eval, p.openings.0, p.openings.1));
                    }
                }
                Err(crate::backend::malformed_opening_error())
            }
        },
        Err(e) => Err(e),
    }
}

/// Law (round trip): decoding an encoding returns the original proof, for
/// every well-shaped proof — every proof that `prove` or `decode` returns.
pub fn encode_decode_round_trip(p: &Proof) -> (r: Result<Proof, EquivalenceError>)
    requires
        ipa_opening_consistent(p.openings.1),
    ensures
        r matches Ok(q) && q == *p,
{
    let bytes = encode(p);
    decode(&bytes)
}

} // verus!
