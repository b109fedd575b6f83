use confidential_ballot::zkp::derive_blinding;
use confidential_ballot::zkp::generate_proof_of_knowledge;
use confidential_ballot::zkp::keep_accepted;
use confidential_ballot::zkp::Vote;
use confidential_ballot::zkp::BulletproofGens;
use confidential_ballot::zkp::CompressedRistretto;
use confidential_ballot::zkp::PedersenCommitment;
use confidential_ballot::zkp::PedersenGens;
use confidential_ballot::zkp::ProofGenerationError;
use confidential_ballot::zkp::RangeProof;
use confidential_ballot::zkp::Scalar;
use confidential_ballot::zkp::Transcript;
use confidential_ballot::zkp::VotingSystem;
use confidential_ballot::zkp::ZKPModule;
use confidential_ballot::zkp::RANGE_BITS;
use sha2::Digest;
use sha2::Sha512;

const HELLO_WORLD_SCALAR: [u8; 32] = [
    0xa8, 0x06, 0x3c, 0xa9, 0x07, 0xfb, 0x75, 0xd9, 0xfd, 0xc0, 0x26, 0x37, 0x8c, 0xa2, 0x1c, 0xca,
    0x31, 0x37, 0xae, 0xd4, 0x07, 0xe3, 0x39, 0xa3, 0x67, 0x69, 0x72, 0xa7, 0x61, 0x2d, 0x26, 0x04,
];

const EMPTY_SEED_SCALAR: [u8; 32] = [
    0x9e, 0xf5, 0xa0, 0xea, 0x93, 0x67, 0x8e, 0xb7, 0x8d, 0x69, 0xb3, 0x33, 0x67, 0xe1, 0x29, 0x54,
    0x3b, 0x0d, 0x85, 0x20, 0x12, 0x2c, 0x42, 0xe7, 0xdf, 0xe9, 0xd1, 0x97, 0x7f, 0x6c, 0x3a, 0x0c,
];

const GROUP_ORDER: [u8; 32] = [
    0xed, 0xd3, 0xf5, 0x5c, 0x1a, 0x63, 0x12, 0x58, 0xd6, 0x9c, 0xf7, 0xa2, 0xde, 0xf9, 0xde, 0x14,
    0x00, 0x00, 0x00, 0x00, 0x00, 0x00, 0x00, 0x00, 0x00, 0x00, 0x00, 0x00, 0x00, 0x00, 0x00, 0x10,
];

const BASEPOINT_COMPRESSED: [u8; 32] = [
    0xe2, 0xf2, 0xae, 0x0a, 0x6a, 0xbc, 0x4e, 0x71, 0xa8, 0x84, 0xa9, 0x61, 0xc5, 0x00, 0x51, 0x5f,
    0x58, 0xe3, 0x0b, 0x6a, 0xa5, 0x82, 0xdd, 0x8d, 0xb6, 0xa6, 0x59, 0x45, 0xe0, 0x8d, 0x2d, 0x76,
];

fn wide(low: &[u8]) -> [u8; 64] {
    let mut bytes = [0u8; 64];
    bytes[..low.len()].copy_from_slice(low);
    bytes
}

fn ballot_proof(label: &'static [u8], value: u64, seed: &[u8]) -> (RangeProof, CompressedRistretto) {
    let vote = VotingSystem::new(label).cast_vote(1, value, seed).expect("a proof");
    (vote.proof, vote.committed_value)
}

fn checks(label: &'static [u8], proof: &RangeProof, committed_value: &CompressedRistretto) -> bool {
    proof.verify_single(
        &BulletproofGens::new(64, 1),
        &PedersenGens::default(),
        Transcript::new(label),
        committed_value,
        64,
    )
}

#[test]
fn test_generate_proof_of_knowledge_and_verify() {
    let value = 42;
    let transcript = b"ZKPExample";
    let zkp_randomness = b"hello world";
    let hash = Sha512::digest(zkp_randomness);
    let mut hash_bytes = [0u8; 64];
    hash_bytes.copy_from_slice(hash.as_slice());

    let randomness = Scalar::from_bytes_mod_order_wide(&hash_bytes);

    let prover_transcript = Transcript::new(transcript);

    let zkm = ZKPModule::new();
    let commitment = ZKPModule::generate_commitment(value, randomness);
    let (proof, committed_value) = zkm
        .generate_proof_of_knowledge(&commitment, prover_transcript)
        .expect("Failed to generate range proof");

    let verifier_transcript = Transcript::new(transcript);
    assert!(zkm.verify_proof_of_knowledge(
        &commitment,
        &proof,
        verifier_transcript,
        &committed_value,
    ));
}

#[test]
fn test_cast_vote_and_verify() {
    let candidate = 1;
    let value = 42;
    let transcript = b"ZKPExample";
    let zkp_randomness = b"hello world";

    let vs = VotingSystem::new(transcript);
    let vote = vs.cast_vote(candidate, value, zkp_randomness).expect("Failed to generate range proof");

    assert!(vs.verify_vote(&vote));
}

#[test]
fn cast_vote_fills_the_ballot() {
    let vs = VotingSystem::new(b"ZKPExample");
    let vote = vs.cast_vote(7, 42, b"hello world").expect("a proof");
    assert_eq!(vote.candidate, 7);
    assert_eq!(vote.commitment.value, 42);
    assert_eq!(vote.commitment.randomness.to_bytes(), HELLO_WORLD_SCALAR);
    assert_eq!(vote.proof.bytes.len(), 672);
    let expected = PedersenGens::default().commit(42, &vote.commitment.randomness);
    assert_eq!(vote.committed_value, expected);
}

#[test]
fn blinding_is_the_reduced_digest_of_the_seed() {
    assert_eq!(derive_blinding(b"hello world").to_bytes(), HELLO_WORLD_SCALAR);
    assert_eq!(derive_blinding(b"").to_bytes(), EMPTY_SEED_SCALAR);
}

#[test]
fn blinding_agrees_with_the_hash_and_scalar_crates() {
    let seed = b"some auxiliary entropy of arbitrary length, longer than one block of the hash";
    let hash = Sha512::digest(seed);
    let mut hash_bytes = [0u8; 64];
    hash_bytes.copy_from_slice(hash.as_slice());
    let expected = curve25519_dalek_ng::scalar::Scalar::from_bytes_mod_order_wide(&hash_bytes);
    assert_eq!(derive_blinding(seed).to_bytes(), expected.to_bytes());
}

#[test]
fn wide_reduction_is_modulo_the_group_order() {
    assert_eq!(Scalar::from_bytes_mod_order_wide(&[0u8; 64]).to_bytes(), [0u8; 32]);
    assert_eq!(Scalar::from_bytes_mod_order_wide(&wide(&[1])).to_bytes(), wide(&[1])[..32]);
    assert_eq!(Scalar::from_bytes_mod_order_wide(&wide(&GROUP_ORDER)).to_bytes(), [0u8; 32]);
    let mut order_plus_two = GROUP_ORDER;
    order_plus_two[0] += 2;
    assert_eq!(
        Scalar::from_bytes_mod_order_wide(&wide(&order_plus_two)).to_bytes(),
        wide(&[2])[..32]
    );
    let all_ones = Scalar::from_bytes_mod_order_wide(&[0xff; 64]).to_bytes();
    assert_eq!(
        all_ones,
        [
            0x00, 0x0f, 0x9c, 0x44, 0xe3, 0x11, 0x06, 0xa4, 0x47, 0x93, 0x85, 0x68, 0xa7, 0x1b, 0x0e,
            0xd0, 0x65, 0xbe, 0xf5, 0x17, 0xd2, 0x73, 0xec, 0xce, 0x3d, 0x9a, 0x30, 0x7c, 0x1b, 0x41,
            0x99, 0x03,
        ]
    );
}

#[test]
fn commit_is_the_pedersen_commitment() {
    let gens = PedersenGens::default();
    let zero = Scalar::from_bytes_mod_order_wide(&[0u8; 64]);
    assert_eq!(gens.commit(0, &zero).bytes, [0u8; 32]);
    assert_eq!(gens.commit(1, &zero).bytes, BASEPOINT_COMPRESSED);

    let blinding = derive_blinding(b"hello world");
    let outside = bulletproofs::PedersenGens::default()
        .commit(
            curve25519_dalek_ng::scalar::Scalar::from(42u64),
            curve25519_dalek_ng::scalar::Scalar::from_bytes_mod_order(blinding.to_bytes()),
        )
        .compress();
    assert_eq!(gens.commit(42, &blinding).bytes, outside.to_bytes());
    assert_ne!(gens.commit(42, &blinding), gens.commit(43, &blinding));
    assert_ne!(gens.commit(42, &blinding), gens.commit(42, &derive_blinding(b"other")));
}

#[test]
fn commit_is_deterministic() {
    let gens = PedersenGens::default();
    let blinding = derive_blinding(b"seed");
    assert_eq!(gens.commit(5, &blinding), gens.commit(5, &blinding));
}

#[test]
fn prover_returns_the_commitment_to_its_value() {
    let blinding = derive_blinding(b"seed");
    let (proof, committed_value) = RangeProof::prove_single(
        &BulletproofGens::new(64, 1),
        &PedersenGens::default(),
        Transcript::new(b"label"),
        u64::MAX,
        &blinding,
        64,
    )
    .expect("a proof");
    assert_eq!(committed_value, PedersenGens::default().commit(u64::MAX, &blinding));
    assert_eq!(proof.bytes.len(), 672);
    assert!(checks(b"label", &proof, &committed_value));
}

#[test]
fn proof_length_follows_the_bit_size() {
    let blinding = derive_blinding(b"seed");
    let sizes: [(usize, usize); 4] = [(8, 480), (16, 544), (32, 608), (64, 672)];
    for (bits, len) in sizes {
        let (proof, committed_value) = RangeProof::prove_single(
            &BulletproofGens::new(64, 1),
            &PedersenGens::default(),
            Transcript::new(b"label"),
            200,
            &blinding,
            bits,
        )
        .expect("a proof");
        assert_eq!(proof.bytes.len(), len);
        assert!(proof.verify_single(
            &BulletproofGens::new(64, 1),
            &PedersenGens::default(),
            Transcript::new(b"label"),
            &committed_value,
            bits,
        ));
    }
}

#[test]
fn prover_refuses_unsupported_bit_sizes_and_short_generators() {
    let blinding = derive_blinding(b"seed");
    let gens = PedersenGens::default();
    for bits in [0usize, 1, 7, 24, 63, 65, 128] {
        let proved = RangeProof::prove_single(
            &BulletproofGens::new(64, 1),
            &gens,
            Transcript::new(b"label"),
            1,
            &blinding,
            bits,
        );
        assert_eq!(proved, Err(ProofGenerationError::InternalProofGenerationFailure));
    }
    let short = RangeProof::prove_single(
        &BulletproofGens::new(32, 1),
        &gens,
        Transcript::new(b"label"),
        1,
        &blinding,
        64,
    );
    assert_eq!(short, Err(ProofGenerationError::InternalProofGenerationFailure));
    let no_party = RangeProof::prove_single(
        &BulletproofGens::new(64, 0),
        &gens,
        Transcript::new(b"label"),
        1,
        &blinding,
        64,
    );
    assert_eq!(no_party, Err(ProofGenerationError::InternalProofGenerationFailure));
}

#[test]
fn generation_fails_without_enough_generators() {
    let commitment = PedersenCommitment::new(42, derive_blinding(b"hello world"));
    let generated = commitment.generate_proof_of_knowledge(
        &PedersenGens::default(),
        &BulletproofGens::new(32, 1),
        Transcript::new(b"ZKPExample"),
    );
    assert!(generated.is_none());
}

#[test]
fn verifier_refuses_unsupported_bit_sizes_and_short_generators() {
    let (proof, committed_value) = ballot_proof(b"ZKPExample", 42, b"hello world");
    let gens = PedersenGens::default();
    assert!(!proof.verify_single(
        &BulletproofGens::new(64, 1),
        &gens,
        Transcript::new(b"ZKPExample"),
        &committed_value,
        32,
    ));
    assert!(!proof.verify_single(
        &BulletproofGens::new(64, 1),
        &gens,
        Transcript::new(b"ZKPExample"),
        &committed_value,
        63,
    ));
    assert!(!proof.verify_single(
        &BulletproofGens::new(32, 1),
        &gens,
        Transcript::new(b"ZKPExample"),
        &committed_value,
        64,
    ));
    assert!(!proof.verify_single(
        &BulletproofGens::new(64, 0),
        &gens,
        Transcript::new(b"ZKPExample"),
        &committed_value,
        64,
    ));
    assert!(proof.verify_single(
        &BulletproofGens::new(128, 2),
        &gens,
        Transcript::new(b"ZKPExample"),
        &committed_value,
        64,
    ));
}

#[test]
fn every_generated_proof_verifies_under_its_label() {
    let labels: [&'static [u8]; 3] = [b"ZKPExample", b"", b"another protocol"];
    let values: [u64; 4] = [0, 1, 42, u64::MAX];
    for label in labels {
        for value in values {
            let (proof, committed_value) = ballot_proof(label, value, b"hello world");
            assert!(checks(label, &proof, &committed_value));
        }
    }
}

#[test]
fn proof_is_bound_to_its_label() {
    let (proof, committed_value) = ballot_proof(b"ZKPExample", 42, b"hello world");
    assert!(checks(b"ZKPExample", &proof, &committed_value));
    assert!(!checks(b"ZKPExamplf", &proof, &committed_value));
    assert!(!checks(b"ZKPExample ", &proof, &committed_value));
    assert!(!checks(b"", &proof, &committed_value));

    let vs = VotingSystem::new(b"ZKPExample");
    let vote = vs.cast_vote(1, 42, b"hello world").expect("a proof");
    assert!(vs.verify_vote(&vote));
    assert!(!VotingSystem::new(b"OtherLabel").verify_vote(&vote));
}

#[test]
fn tampered_proof_is_refused() {
    let (proof, committed_value) = ballot_proof(b"ZKPExample", 42, b"hello world");
    assert_eq!(proof.bytes.len() % 32, 0);
    let mut position = 0;
    while position < proof.bytes.len() {
        let mut tampered = proof.clone();
        tampered.bytes[position] ^= 0x01;
        assert!(!checks(b"ZKPExample", &tampered, &committed_value), "byte {}", position);
        position += 19;
    }
    let mut last = proof.clone();
    let end = last.bytes.len() - 1;
    last.bytes[end] ^= 0x80;
    assert!(!checks(b"ZKPExample", &last, &committed_value));
    assert!(checks(b"ZKPExample", &proof, &committed_value));
}

#[test]
fn tampered_commitment_is_refused() {
    let (proof, committed_value) = ballot_proof(b"ZKPExample", 42, b"hello world");
    for position in 0..32 {
        let mut tampered = committed_value;
        tampered.bytes[position] ^= 0x04;
        assert!(!checks(b"ZKPExample", &proof, &tampered), "byte {}", position);
    }
    let other = PedersenGens::default().commit(43, &derive_blinding(b"hello world"));
    assert!(!checks(b"ZKPExample", &proof, &other));
}

#[test]
fn proof_of_wrong_length_is_refused() {
    let (proof, committed_value) = ballot_proof(b"ZKPExample", 42, b"hello world");
    let empty = RangeProof { bytes: Vec::new() };
    assert!(!checks(b"ZKPExample", &empty, &committed_value));
    let mut short = proof.clone();
    short.bytes.truncate(671);
    assert!(!checks(b"ZKPExample", &short, &committed_value));
    let mut shorter = proof.clone();
    shorter.bytes.truncate(608);
    assert!(!checks(b"ZKPExample", &shorter, &committed_value));
    let mut long = proof.clone();
    long.bytes.extend_from_slice(&[0u8; 64]);
    assert!(!checks(b"ZKPExample", &long, &committed_value));
}

#[test]
fn fresh_proofs_differ_and_commitments_agree() {
    let (first, first_commitment) = ballot_proof(b"ZKPExample", 42, b"hello world");
    let (second, second_commitment) = ballot_proof(b"ZKPExample", 42, b"hello world");
    assert_ne!(first, second);
    assert_eq!(first_commitment, second_commitment);
    assert_eq!(RANGE_BITS, 64);
}

#[test]
fn module_is_set_up_for_one_value_of_64_bits() {
    let zkm = ZKPModule::new();
    let commitment = ZKPModule::generate_commitment(9, derive_blinding(b"x"));
    assert_eq!(commitment.value, 9);
    assert_eq!(commitment.randomness.to_bytes(), derive_blinding(b"x").to_bytes());
    let (proof, committed_value) = zkm
        .generate_proof_of_knowledge(&commitment, Transcript::new(b"t"))
        .expect("a proof");
    assert_eq!(proof.bytes.len(), 672);
    assert_eq!(committed_value, PedersenGens::default().commit(9, &commitment.randomness));
    assert!(zkm.verify_proof_of_knowledge(&commitment, &proof, Transcript::new(b"t"), &committed_value));
    let other_opening = PedersenCommitment::new(10, derive_blinding(b"y"));
    assert!(zkm.verify_proof_of_knowledge(
        &other_opening,
        &proof,
        Transcript::new(b"t"),
        &committed_value
    ));
}

#[test]
fn free_function_proves_under_the_example_label() {
    let blinding = derive_blinding(b"hello world");
    let proof = generate_proof_of_knowledge(42, blinding).expect("a proof");
    assert_eq!(proof.bytes.len(), 672);
    let committed_value = PedersenGens::default().commit(42, &blinding);
    assert!(checks(b"ZKPExample", &proof, &committed_value));
    assert!(!checks(b"ZKPExampl", &proof, &committed_value));
    assert!(!checks(b"ZKPExample", &proof, &PedersenGens::default().commit(41, &blinding)));
}

#[test]
fn accepted_proof_is_kept_and_refused_proof_is_dropped() {
    let proof = RangeProof { bytes: vec![1, 2, 3] };
    let committed_value = CompressedRistretto { bytes: [7u8; 32] };
    assert_eq!(keep_accepted(proof.clone(), committed_value, true), Some((proof.clone(), committed_value)));
    assert_eq!(keep_accepted(proof, committed_value, false), None);
}

#[test]
fn ballot_is_made_from_a_generated_proof() {
    let commitment = PedersenCommitment::new(42, derive_blinding(b"hello world"));
    let proof = RangeProof { bytes: vec![9; 672] };
    let committed_value = CompressedRistretto { bytes: [3u8; 32] };
    assert_eq!(
        Vote::from_generated(5, commitment, Some((proof.clone(), committed_value))),
        Ok(Vote { candidate: 5, commitment, proof, committed_value })
    );
    assert_eq!(
        Vote::from_generated(5, commitment, None),
        Err(ProofGenerationError::InternalProofGenerationFailure)
    );
}

#[test]
fn seeded_prover_is_a_function_of_its_seed() {
    let blinding = derive_blinding(b"hello world");
    let gens = BulletproofGens::new(64, 1);
    let prove = |seed: [u8; 32]| {
        RangeProof::prove_single_seeded(
            &gens,
            &PedersenGens::default(),
            Transcript::new(b"ZKPExample"),
            42,
            &blinding,
            64,
            &seed,
        )
        .expect("a proof")
    };
    let (first, first_commitment) = prove([1u8; 32]);
    let (again, again_commitment) = prove([1u8; 32]);
    let (other, other_commitment) = prove([2u8; 32]);
    assert_eq!(first, again);
    assert_eq!(first_commitment, again_commitment);
    assert_ne!(first, other);
    assert_eq!(first_commitment, other_commitment);
    assert_eq!(first_commitment, PedersenGens::default().commit(42, &blinding));
    assert_eq!(first.bytes.len(), 672);
    assert!(checks(b"ZKPExample", &first, &first_commitment));
    assert!(checks(b"ZKPExample", &other, &other_commitment));
}

#[test]
fn seeded_prover_agrees_with_the_proof_system() {
    let blinding = derive_blinding(b"hello world");
    let seed = [9u8; 32];
    let (proof, committed_value) = RangeProof::prove_single_seeded(
        &BulletproofGens::new(64, 1),
        &PedersenGens::default(),
        Transcript::new(b"ZKPExample"),
        42,
        &blinding,
        64,
        &seed,
    )
    .expect("a proof");

    let mut rng = <rand_chacha::ChaCha20Rng as rand::SeedableRng>::from_seed(seed);
    let mut transcript = merlin::Transcript::new(b"ZKPExample");
    let (outside_proof, outside_commitment) = bulletproofs::RangeProof::prove_single_with_rng(
        &bulletproofs::BulletproofGens::new(64, 1),
        &bulletproofs::PedersenGens::default(),
        &mut transcript,
        42,
        &curve25519_dalek_ng::scalar::Scalar::from_bytes_mod_order(blinding.to_bytes()),
        64,
        &mut rng,
    )
    .expect("a proof");
    assert_eq!(proof.bytes, outside_proof.to_bytes());
    assert_eq!(committed_value.bytes, outside_commitment.to_bytes());
}

#[test]
fn seeded_prover_fails_where_the_proof_system_refuses() {
    let blinding = derive_blinding(b"seed");
    for seed in [[0u8; 32], [5u8; 32]] {
        assert_eq!(
            RangeProof::prove_single_seeded(
                &BulletproofGens::new(64, 1),
                &PedersenGens::default(),
                Transcript::new(b"label"),
                1,
                &blinding,
                12,
                &seed,
            ),
            Err(ProofGenerationError::InternalProofGenerationFailure)
        );
        assert_eq!(
            RangeProof::prove_single_seeded(
                &BulletproofGens::new(16, 1),
                &PedersenGens::default(),
                Transcript::new(b"label"),
                1,
                &blinding,
                64,
                &seed,
            ),
            Err(ProofGenerationError::InternalProofGenerationFailure)
        );
    }
}

#[test]
fn seeded_verifier_is_a_function_of_its_seed() {
    let (proof, committed_value) = ballot_proof(b"ZKPExample", 42, b"hello world");
    let mut tampered = proof.clone();
    tampered.bytes[200] ^= 0x08;
    let gens = BulletproofGens::new(64, 1);
    let answer = |proof: &RangeProof, label: &'static [u8], seed: [u8; 32]| {
        proof.verify_single_seeded(
            &gens,
            &PedersenGens::default(),
            Transcript::new(label),
            &committed_value,
            64,
            &seed,
        )
    };
    for seed in [[0u8; 32], [1u8; 32], [0xffu8; 32]] {
        assert!(answer(&proof, b"ZKPExample", seed));
        assert_eq!(answer(&proof, b"ZKPExample", seed), answer(&proof, b"ZKPExample", seed));
        assert!(!answer(&tampered, b"ZKPExample", seed));
        assert!(!answer(&proof, b"OtherLabel", seed));
        assert!(!proof.verify_single_seeded(
            &gens,
            &PedersenGens::default(),
            Transcript::new(b"ZKPExample"),
            &committed_value,
            32,
            &seed,
        ));
        assert!(!proof.verify_single_seeded(
            &BulletproofGens::new(32, 1),
            &PedersenGens::default(),
            Transcript::new(b"ZKPExample"),
            &committed_value,
            64,
            &seed,
        ));
    }
}

#[test]
fn seeded_verifier_agrees_with_the_proof_system() {
    let (proof, committed_value) = ballot_proof(b"ZKPExample", 42, b"hello world");
    let seed = [3u8; 32];
    let outside = |bytes: &[u8]| {
        let mut rng = <rand_chacha::ChaCha20Rng as rand::SeedableRng>::from_seed(seed);
        let mut transcript = merlin::Transcript::new(b"ZKPExample");
        match bulletproofs::RangeProof::from_bytes(bytes) {
            Ok(parsed) => parsed
                .verify_single_with_rng(
                    &bulletproofs::BulletproofGens::new(64, 1),
                    &bulletproofs::PedersenGens::default(),
                    &mut transcript,
                    &curve25519_dalek_ng::ristretto::CompressedRistretto(committed_value.bytes),
                    64,
                    &mut rng,
                )
                .is_ok(),
            Err(_) => false,
        }
    };
    let mut tampered = proof.clone();
    tampered.bytes[5] ^= 0x01;
    let mut short = proof.clone();
    short.bytes.truncate(640);
    for candidate in [&proof, &tampered, &short] {
        let answer = candidate.verify_single_seeded(
            &BulletproofGens::new(64, 1),
            &PedersenGens::default(),
            Transcript::new(b"ZKPExample"),
            &committed_value,
            64,
            &seed,
        );
        assert_eq!(answer, outside(&candidate.bytes));
    }
    assert!(outside(&proof.bytes));
    assert!(!outside(&tampered.bytes));
}

#[test]
fn blinding_is_encoded_in_32_bytes_least_significant_first() {
    let one = Scalar::from_bytes_mod_order_wide(&wide(&[1]));
    assert_eq!(one.to_bytes()[0], 1);
    assert!(one.to_bytes()[1..].iter().all(|byte| *byte == 0));
    let big = Scalar::from_bytes_mod_order_wide(&wide(&[0, 0, 0, 7]));
    assert_eq!(big.to_bytes()[3], 7);
    assert_eq!(big.to_bytes().iter().map(|byte| *byte as u32).sum::<u32>(), 7);
}

#[test]
fn capacities_beyond_what_a_proof_uses_change_nothing() {
    let blinding = derive_blinding(b"hello world");
    let seed = [4u8; 32];
    let prove = |gens: BulletproofGens| {
        RangeProof::prove_single_seeded(
            &gens,
            &PedersenGens::default(),
            Transcript::new(b"ZKPExample"),
            42,
            &blinding,
            64,
            &seed,
        )
        .expect("a proof")
    };
    let (exact, committed_value) = prove(BulletproofGens::new(64, 1));
    let (wide, _) = prove(BulletproofGens::new(128, 2));
    let (huge, _) = prove(BulletproofGens::new(usize::MAX, usize::MAX));
    assert_eq!(exact, wide);
    assert_eq!(exact, huge);

    let mut rng = <rand_chacha::ChaCha20Rng as rand::SeedableRng>::from_seed(seed);
    let mut transcript = merlin::Transcript::new(b"ZKPExample");
    let (outside, _) = bulletproofs::RangeProof::prove_single_with_rng(
        &bulletproofs::BulletproofGens::new(128, 2),
        &bulletproofs::PedersenGens::default(),
        &mut transcript,
        42,
        &curve25519_dalek_ng::scalar::Scalar::from_bytes_mod_order(blinding.to_bytes()),
        64,
        &mut rng,
    )
    .expect("a proof");
    assert_eq!(wide.bytes, outside.to_bytes());

    for gens in [BulletproofGens::new(64, 1), BulletproofGens::new(usize::MAX, usize::MAX)] {
        assert!(exact.verify_single(
            &gens,
            &PedersenGens::default(),
            Transcript::new(b"ZKPExample"),
            &committed_value,
            64,
        ));
        assert!(!exact.verify_single(
            &gens,
            &PedersenGens::default(),
            Transcript::new(b"ZKPExample"),
            &committed_value,
            128,
        ));
    }
    assert!(!exact.verify_single(
        &BulletproofGens::new(usize::MAX, 0),
        &PedersenGens::default(),
        Transcript::new(b"ZKPExample"),
        &committed_value,
        64,
    ));
    assert!(!exact.verify_single(
        &BulletproofGens::new(63, usize::MAX),
        &PedersenGens::default(),
        Transcript::new(b"ZKPExample"),
        &committed_value,
        64,
    ));
}

#[test]
fn free_function_commits_to_its_value() {
    for value in [0u64, 42, u64::MAX] {
        let blinding = derive_blinding(b"seed");
        let proof = generate_proof_of_knowledge(value, blinding).expect("a proof");
        let committed_value = PedersenGens::default().commit(value, &blinding);
        for seed in [[0u8; 32], [8u8; 32]] {
            assert!(proof.verify_single_seeded(
                &BulletproofGens::new(64, 1),
                &PedersenGens::default(),
                Transcript::new(b"ZKPExample"),
                &committed_value,
                64,
                &seed,
            ));
        }
    }
}
