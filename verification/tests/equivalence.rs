use ark_bn254::Fr;
use ark_std::UniformRand;
use poly_commit_equivalence::backend::ipa_commit;
use poly_commit_equivalence::backend::ipa_keys;
use poly_commit_equivalence::backend::kzg_commit;
use poly_commit_equivalence::backend::kzg_keys;
use poly_commit_equivalence::backend::IpaCommitment;
use poly_commit_equivalence::backend::KzgCommitment;
use poly_commit_equivalence::backend::Polynomial;
use poly_commit_equivalence::codec;
use poly_commit_equivalence::derive_challenges;
use poly_commit_equivalence::derive_challenges_from_bytes;
use poly_commit_equivalence::EquivalenceError;
use poly_commit_equivalence::PolyCommitEquivalence;

fn random_polynomial(label: &str, degree: usize, max_degree: usize) -> Polynomial {
    let rng = &mut rand::thread_rng();
    let coefficients: Vec<Fr> = (0..degree + 1).map(|_| Fr::rand(rng)).collect();
    Polynomial::new(String::from(label), coefficients, Some(max_degree), Some(1))
}

#[test]
fn ipa_kzg_equivalence_accept() {
    let max_degree = 20;
    let max_hiding = 1;

    // Random polynomial
    let poly = random_polynomial("poly", max_degree - 1, max_degree);

    // Setup commitment schemes
    let (kzg_ck, kzg_vk) = kzg_keys(max_degree, max_hiding, Some(max_degree)).unwrap();
    let (ipa_ck, ipa_vk) = ipa_keys(max_degree, max_hiding, Some(max_degree)).unwrap();

    // Commit to the polynomial with both schemes
    let (kzg_commitment, kzg_rand) = kzg_commit(&kzg_ck, &poly).unwrap();
    let (ipa_commitment, ipa_rand) = ipa_commit(&ipa_ck, &poly).unwrap();

    // Proof of equivalence
    let proof = PolyCommitEquivalence::prove(
        (&kzg_ck, &ipa_ck),
        &poly,
        (&kzg_commitment, &ipa_commitment),
        (&kzg_rand, &ipa_rand),
    )
    .unwrap();

    // Verify proof
    PolyCommitEquivalence::verify(
        (&kzg_vk, &ipa_vk),
        (&kzg_commitment, &ipa_commitment),
        proof,
    )
    .unwrap();
}

#[test]
fn ipa_kzg_equivalence_reject() {
    let max_degree = 20;
    let max_hiding = 1;

    // Random polynomial
    let poly = random_polynomial("poly", max_degree - 1, max_degree);
    let other_poly = random_polynomial("poly", max_degree - 1, max_degree);

    // Setup commitment schemes
    let (kzg_ck, kzg_vk) = kzg_keys(max_degree, max_hiding, Some(max_degree)).unwrap();
    let (ipa_ck, ipa_vk) = ipa_keys(max_degree, max_hiding, Some(max_degree)).unwrap();

    // Commit to different polynomials with both schemes
    let (kzg_commitment, kzg_rand) = kzg_commit(&kzg_ck, &poly).unwrap();
    let (ipa_commitment, ipa_rand) = ipa_commit(&ipa_ck, &other_poly).unwrap();

    // Proof of equivalence
    let proof = PolyCommitEquivalence::prove(
        (&kzg_ck, &ipa_ck),
        &poly,
        (&kzg_commitment, &ipa_commitment),
        (&kzg_rand, &ipa_rand),
    )
    .unwrap();

    // Verify proof
    let check = PolyCommitEquivalence::verify(
        (&kzg_vk, &ipa_vk),
        (&kzg_commitment, &ipa_commitment),
        proof,
    );

    assert!(check.is_err());
}

#[test]
fn rejection_names_the_second_backend() {
    let max_degree = 20;
    let poly = random_polynomial("poly", max_degree - 1, max_degree);
    let other_poly = random_polynomial("poly", max_degree - 1, max_degree);

    let (kzg_ck, kzg_vk) = kzg_keys(max_degree, 1, Some(max_degree)).unwrap();
    let (ipa_ck, ipa_vk) = ipa_keys(max_degree, 1, Some(max_degree)).unwrap();

    // The first backend commits to the proven polynomial, the second to a
    // different one: the first check passes, the second rejects.
    let (kzg_commitment, kzg_rand) = kzg_commit(&kzg_ck, &poly).unwrap();
    let (ipa_commitment, ipa_rand) = ipa_commit(&ipa_ck, &other_poly).unwrap();

    let proof = PolyCommitEquivalence::prove(
        (&kzg_ck, &ipa_ck),
        &poly,
        (&kzg_commitment, &ipa_commitment),
        (&kzg_rand, &ipa_rand),
    )
    .unwrap();

    let check = PolyCommitEquivalence::verify(
        (&kzg_vk, &ipa_vk),
        (&kzg_commitment, &ipa_commitment),
        proof,
    );
    assert!(matches!(check, Err(EquivalenceError::IPAFailed)));
}

#[test]
fn rejection_names_the_first_backend() {
    let max_degree = 20;
    let poly = random_polynomial("poly", max_degree - 1, max_degree);
    let other_poly = random_polynomial("poly", max_degree - 1, max_degree);

    let (kzg_ck, kzg_vk) = kzg_keys(max_degree, 1, Some(max_degree)).unwrap();
    let (ipa_ck, ipa_vk) = ipa_keys(max_degree, 1, Some(max_degree)).unwrap();

    // The first backend commits to a different polynomial than the proven
    // one: the first check rejects and verification stops there.
    let (kzg_commitment, kzg_rand) = kzg_commit(&kzg_ck, &other_poly).unwrap();
    let (ipa_commitment, ipa_rand) = ipa_commit(&ipa_ck, &poly).unwrap();

    let proof = PolyCommitEquivalence::prove(
        (&kzg_ck, &ipa_ck),
        &poly,
        (&kzg_commitment, &ipa_commitment),
        (&kzg_rand, &ipa_rand),
    )
    .unwrap();

    let check = PolyCommitEquivalence::verify(
        (&kzg_vk, &ipa_vk),
        (&kzg_commitment, &ipa_commitment),
        proof,
    );
    assert!(matches!(check, Err(EquivalenceError::KZGFailed)));
}

#[test]
fn challenge_derivation_is_deterministic() {
    // Over raw transcript bytes: identical absorbed bytes, identical
    // challenges, across independent derivations.
    let bytes: Vec<u8> = vec![7, 13, 255, 0, 42, 1, 2, 3];
    let first = derive_challenges_from_bytes(&bytes);
    let second = derive_challenges_from_bytes(&bytes);
    assert!(first.0 == second.0);
    assert!(first.1 == second.1);

    // Over real commitments: the verifier's derivation matches the prover's.
    let max_degree = 20;
    let poly = random_polynomial("poly", max_degree - 1, max_degree);
    let (kzg_ck, _) = kzg_keys(max_degree, 1, Some(max_degree)).unwrap();
    let (ipa_ck, _) = ipa_keys(max_degree, 1, Some(max_degree)).unwrap();
    let (kzg_commitment, _) = kzg_commit(&kzg_ck, &poly).unwrap();
    let (ipa_commitment, _) = ipa_commit(&ipa_ck, &poly).unwrap();

    let prover_side = derive_challenges(&kzg_commitment, &ipa_commitment);
    let verifier_side = derive_challenges(&kzg_commitment, &ipa_commitment);
    assert!(prover_side.0 == verifier_side.0);
    assert!(prover_side.1 == verifier_side.1);
}

#[test]
fn commitment_and_byte_derivations_agree() {
    // The challenge pair derived from the two commitments equals the pair
    // derived from the concatenation of their canonical encodings: the
    // canonical absorb order is encoding of commitment one, then two.
    let max_degree = 20;
    let poly = random_polynomial("poly", max_degree - 1, max_degree);
    let (kzg_ck, _) = kzg_keys(max_degree, 1, Some(max_degree)).unwrap();
    let (ipa_ck, _) = ipa_keys(max_degree, 1, Some(max_degree)).unwrap();
    let (kzg_commitment, _) = kzg_commit(&kzg_ck, &poly).unwrap();
    let (ipa_commitment, _) = ipa_commit(&ipa_ck, &poly).unwrap();

    let mut canonical = kzg_commitment.transcript_bytes();
    canonical.extend_from_slice(&ipa_commitment.transcript_bytes());

    let from_commitments = derive_challenges(&kzg_commitment, &ipa_commitment);
    let from_bytes = derive_challenges_from_bytes(&canonical);
    assert!(from_commitments.0 == from_bytes.0);
    assert!(from_commitments.1 == from_bytes.1);
}

#[test]
fn swapped_absorb_order_changes_challenges() {
    let max_degree = 20;
    let poly = random_polynomial("poly", max_degree - 1, max_degree);
    let (kzg_ck, _) = kzg_keys(max_degree, 1, Some(max_degree)).unwrap();
    let (ipa_ck, _) = ipa_keys(max_degree, 1, Some(max_degree)).unwrap();
    let (kzg_commitment, _) = kzg_commit(&kzg_ck, &poly).unwrap();
    let (ipa_commitment, _) = ipa_commit(&ipa_ck, &poly).unwrap();

    let kzg_bytes = kzg_commitment.transcript_bytes();
    let ipa_bytes = ipa_commitment.transcript_bytes();

    let mut canonical = kzg_bytes.clone();
    canonical.extend_from_slice(&ipa_bytes);
    let mut swapped = ipa_bytes.clone();
    swapped.extend_from_slice(&kzg_bytes);

    let canonical_challenges = derive_challenges_from_bytes(&canonical);
    let swapped_challenges = derive_challenges_from_bytes(&swapped);
    assert!(canonical_challenges.0 != swapped_challenges.0);
    assert!(canonical_challenges.1 != swapped_challenges.1);
}

#[test]
fn flipped_kzg_commitment_byte_rejects() {
    let max_degree = 20;
    let poly = random_polynomial("poly", max_degree - 1, max_degree);
    let (kzg_ck, kzg_vk) = kzg_keys(max_degree, 1, Some(max_degree)).unwrap();
    let (ipa_ck, ipa_vk) = ipa_keys(max_degree, 1, Some(max_degree)).unwrap();
    let (kzg_commitment, kzg_rand) = kzg_commit(&kzg_ck, &poly).unwrap();
    let (ipa_commitment, ipa_rand) = ipa_commit(&ipa_ck, &poly).unwrap();

    let proof = PolyCommitEquivalence::prove(
        (&kzg_ck, &ipa_ck),
        &poly,
        (&kzg_commitment, &ipa_commitment),
        (&kzg_rand, &ipa_rand),
    )
    .unwrap();

    // A valid proof verifies; after flipping any single byte of the first
    // commitment, verification must reject or error, never silently accept.
    let wire = kzg_commitment.to_wire_bytes();
    for i in 0..wire.len() {
        let mut tampered_bytes = wire.clone();
        tampered_bytes[i] ^= 1;
        match KzgCommitment::from_wire_bytes(
            String::from("poly"),
            &tampered_bytes,
            Some(max_degree),
        ) {
            // The flip no longer decodes to a commitment: an explicit error.
            Err(_) => (),
            Ok(tampered) => {
                let check = PolyCommitEquivalence::verify(
                    (&kzg_vk, &ipa_vk),
                    (&tampered, &ipa_commitment),
                    proof.duplicate(),
                );
                assert!(check.is_err());
            }
        }
    }
}

#[test]
fn flipped_ipa_commitment_byte_rejects() {
    let max_degree = 20;
    let poly = random_polynomial("poly", max_degree - 1, max_degree);
    let (kzg_ck, kzg_vk) = kzg_keys(max_degree, 1, Some(max_degree)).unwrap();
    let (ipa_ck, ipa_vk) = ipa_keys(max_degree, 1, Some(max_degree)).unwrap();
    let (kzg_commitment, kzg_rand) = kzg_commit(&kzg_ck, &poly).unwrap();
    let (ipa_commitment, ipa_rand) = ipa_commit(&ipa_ck, &poly).unwrap();

    let proof = PolyCommitEquivalence::prove(
        (&kzg_ck, &ipa_ck),
        &poly,
        (&kzg_commitment, &ipa_commitment),
        (&kzg_rand, &ipa_rand),
    )
    .unwrap();

    let wire = ipa_commitment.to_wire_bytes();
    for i in 0..wire.len() {
        let mut tampered_bytes = wire.clone();
        tampered_bytes[i] ^= 1;
        match IpaCommitment::from_wire_bytes(
            String::from("poly"),
            &tampered_bytes,
            Some(max_degree),
        ) {
            Err(_) => (),
            Ok(tampered) => {
                assert!(tampered.check_ready(&ipa_vk));
                let check = PolyCommitEquivalence::verify(
                    (&kzg_vk, &ipa_vk),
                    (&kzg_commitment, &tampered),
                    proof.duplicate(),
                );
                assert!(check.is_err());
            }
        }
    }
}

#[test]
fn backend_open_error_names_backend_one() {
    let max_degree = 20;
    let poly = random_polynomial("poly", max_degree - 1, max_degree);
    let (kzg_ck, _) = kzg_keys(max_degree, 1, Some(max_degree)).unwrap();
    let (ipa_ck, _) = ipa_keys(max_degree, 1, Some(max_degree)).unwrap();
    let (kzg_commitment, kzg_rand) = kzg_commit(&kzg_ck, &poly).unwrap();
    let (ipa_commitment, ipa_rand) = ipa_commit(&ipa_ck, &poly).unwrap();

    // A polynomial too large for the committer keys: the first backend's
    // open fails deterministically, and the error names backend 1.
    let rng = &mut rand::thread_rng();
    let coefficients: Vec<Fr> = (0..max_degree + 6).map(|_| Fr::rand(rng)).collect();
    let oversized = Polynomial::new(String::from("poly"), coefficients, None, None);

    let attempt = PolyCommitEquivalence::prove(
        (&kzg_ck, &ipa_ck),
        &oversized,
        (&kzg_commitment, &ipa_commitment),
        (&kzg_rand, &ipa_rand),
    );
    assert!(matches!(
        attempt,
        Err(EquivalenceError::BackendOpenError { backend_id: 1, .. })
    ));
}

#[test]
fn unsupported_bound_surfaces_backend_check_error() {
    let max_degree = 20;
    let poly = random_polynomial("poly", max_degree - 1, max_degree);
    let (kzg_ck, kzg_vk) = kzg_keys(max_degree, 1, Some(max_degree)).unwrap();
    let (ipa_ck, ipa_vk) = ipa_keys(max_degree, 1, Some(max_degree)).unwrap();
    let (kzg_commitment, kzg_rand) = kzg_commit(&kzg_ck, &poly).unwrap();
    let (ipa_commitment, ipa_rand) = ipa_commit(&ipa_ck, &poly).unwrap();

    let proof = PolyCommitEquivalence::prove(
        (&kzg_ck, &ipa_ck),
        &poly,
        (&kzg_commitment, &ipa_commitment),
        (&kzg_rand, &ipa_rand),
    )
    .unwrap();

    // The same first commitment rebuilt under a degree bound the verifier
    // key does not support: its check cannot be evaluated at all, and the
    // error names backend 1 — distinct from a rejection.
    let wire = kzg_commitment.to_wire_bytes();
    let rebuilt = KzgCommitment::from_wire_bytes(String::from("poly"), &wire, Some(5)).unwrap();
    let check = PolyCommitEquivalence::verify(
        (&kzg_vk, &ipa_vk),
        (&rebuilt, &ipa_commitment),
        proof,
    );
    assert!(matches!(
        check,
        Err(EquivalenceError::BackendCheckError { backend_id: 1, .. })
    ));
}

#[test]
fn proof_encode_decode_round_trip() {
    let max_degree = 20;
    let poly = random_polynomial("poly", max_degree - 1, max_degree);
    let (kzg_ck, kzg_vk) = kzg_keys(max_degree, 1, Some(max_degree)).unwrap();
    let (ipa_ck, ipa_vk) = ipa_keys(max_degree, 1, Some(max_degree)).unwrap();
    let (kzg_commitment, kzg_rand) = kzg_commit(&kzg_ck, &poly).unwrap();
    let (ipa_commitment, ipa_rand) = ipa_commit(&ipa_ck, &poly).unwrap();

    let proof = PolyCommitEquivalence::prove(
        (&kzg_ck, &ipa_ck),
        &poly,
        (&kzg_commitment, &ipa_commitment),
        (&kzg_rand, &ipa_rand),
    )
    .unwrap();

    // decode(encode(proof)) == proof: same evaluation, same wire form, and
    // the decoded proof still verifies.
    let bytes = codec::encode(&proof);
    let decoded = codec::decode(&bytes).unwrap();
    assert!(decoded.eval == proof.eval);
    assert_eq!(codec::encode(&decoded), bytes);

    let round_tripped = codec::encode_decode_round_trip(&proof).unwrap();
    assert!(round_tripped.eval == proof.eval);
    assert_eq!(codec::encode(&round_tripped), bytes);

    PolyCommitEquivalence::verify(
        (&kzg_vk, &ipa_vk),
        (&kzg_commitment, &ipa_commitment),
        decoded,
    )
    .unwrap();
}

#[test]
fn decoding_garbage_fails_with_pc_error() {
    let garbage: Vec<u8> = vec![1, 2, 3];
    let decoded = codec::decode(&garbage);
    assert!(matches!(decoded, Err(EquivalenceError::PCError { .. })));
}

#[test]
fn evaluation_matches_known_polynomial() {
    // 2 + 3x at x = 5 is 17; the proof's claimed evaluation comes from the
    // same evaluation routine.
    let poly = Polynomial::new(
        String::from("poly"),
        vec![Fr::from(2u64), Fr::from(3u64)],
        None,
        None,
    );
    assert!(poly.evaluate(&Fr::from(5u64)) == Fr::from(17u64));
}
