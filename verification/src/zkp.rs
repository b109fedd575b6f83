//! Pedersen commitments to a ballot's value and range proofs about them.
//!
//! A voter commits to a 64-bit value under a blinding scalar and proves, without
//! revealing the value, that it lies in `[0, 2^64)`.  The proof is bound to a
//! transcript label: the verifier must start from the label the prover used.
//!
//! The group arithmetic, the hash and the proof system are those of the crates
//! `curve25519-dalek-ng`, `sha2`, `merlin` and `bulletproofs`.  The functions
//! marked `external_body` below call them; their contracts are believed, not
//! proved.  Scalars, compressed points and proofs are held as the bytes of their
//! wire encodings.
//!
//! The prover and the verifier draw random numbers.  Each draws them from a ChaCha20
//! generator that is started from a seed of 32 bytes, so that what it does is a
//! function of its arguments and the seed.  The functions whose names end in `_seeded`
//! take the seed; the others draw a fresh one, and their contracts say that the result
//! is the seeded result for some seed.

use vstd::prelude::*;
use vstd::string::StringSliceAdditionalSpecFns;
use crate::CandidateId;
use crate::ZKPCommitmentValue;

verus! {

/// The number of bits of the range that a ballot's proof covers.
pub const RANGE_BITS: usize = 64;

/// The number of generators per party beyond which none is built: no range proof uses
/// more than the largest supported number of bits.
pub const MAX_GENS_CAPACITY: usize = 64;

/// The number of parties beyond which no generators are built: a proof for one value
/// uses those of one party.
pub const MAX_PARTY_CAPACITY: usize = 1;

/// The longest label that can start a transcript: its length is written in 32 bits.
pub const MAX_LABEL_LEN: usize = 0xffff_ffff;

/// The order of the Ristretto group, `2^252 + 27742317777372353535851937790883648493`.
pub open spec fn group_order() -> nat {
    0x1000_0000_0000_0000_0000_0000_0000_0000_0000_0000_0000_0000_0000_0000_0000_0000nat
        + 27742317777372353535851937790883648493nat
}

/// The number that `bytes` encodes, least significant byte first.
pub open spec fn le_value(bytes: Seq<u8>) -> nat
    decreases bytes.len(),
{
    if bytes.len() == 0 {
        0
    } else {
        bytes[0] as nat + 256 * le_value(bytes.drop_first())
    }
}

/// The `len` bytes that encode `value`, least significant byte first.
pub open spec fn le_bytes(value: nat, len: nat) -> Seq<u8>
    decreases len,
{
    if len == 0 {
        Seq::empty()
    } else {
        seq![(value % 256) as u8] + le_bytes(value / 256, (len - 1) as nat)
    }
}

/// Encoding the number that bytes encode gives the bytes back.
pub proof fn lemma_le_bytes_of_le_value(bytes: Seq<u8>)
    ensures
        le_bytes(le_value(bytes), bytes.len()) == bytes,
    decreases bytes.len(),
{
    if bytes.len() > 0 {
        let rest = bytes.drop_first();
        lemma_le_bytes_of_le_value(rest);
        let value = le_value(bytes);
        assert(value == bytes[0] as nat + 256 * le_value(rest));
        assert(value % 256 == bytes[0] as nat);
        assert(value / 256 == le_value(rest));
        assert(le_bytes(value, bytes.len()) =~= bytes);
    } else {
        assert(le_bytes(le_value(bytes), bytes.len()) =~= bytes);
    }
}

/// Whether range proofs exist for ranges of `bits` bits.
pub open spec fn supported_bits(bits: usize) -> bool {
    bits == 8 || bits == 16 || bits == 32 || bits == 64
}

/// The binary logarithm of a supported number of bits.
pub open spec fn log2_bits(bits: usize) -> nat {
    if bits == 8 {
        3
    } else if bits == 16 {
        4
    } else if bits == 32 {
        5
    } else {
        6
    }
}

/// The length in bytes of the encoding of a range proof for one value of `bits` bits:
/// `2 * log2(bits) + 9` elements of 32 bytes.
pub open spec fn proof_len(bits: usize) -> nat {
    32 * (2 * log2_bits(bits) + 9)
}

/// The SHA-512 digest of `data`, 64 bytes.
pub uninterp spec fn spec_sha512(data: Seq<u8>) -> Seq<u8>;

/// The compressed encoding of the Pedersen commitment to `value` under the scalar
/// that `blinding` encodes, over the standard pair of bases.
pub uninterp spec fn spec_pedersen_commit(value: u64, blinding: Seq<u8>) -> Seq<u8>;

/// What the prover hands out for one value when it draws from a ChaCha20 generator
/// started from `seed`: the encoding of the proof and the compressed commitment, or
/// nothing where it fails.  The bases are the standard pair, the generators those of
/// the given capacities, and the transcript a fresh one with the given label.
pub uninterp spec fn spec_range_proof_prove(
    gens_capacity: usize,
    party_capacity: usize,
    label: Seq<u8>,
    value: u64,
    blinding: Seq<u8>,
    bits: usize,
    seed: Seq<u8>,
) -> Option<(Seq<u8>, Seq<u8>)>;

/// Whether the verifier accepts the bytes `proof` as a range proof for the compressed
/// commitment `point` when it draws from a ChaCha20 generator started from `seed`.  The
/// bases, generators and transcript are as for the prover.
pub uninterp spec fn spec_range_proof_verify(
    gens_capacity: usize,
    party_capacity: usize,
    label: Seq<u8>,
    proof: Seq<u8>,
    point: Seq<u8>,
    bits: usize,
    seed: Seq<u8>,
) -> bool;

/// The error type of the proof system.
#[verifier::external_type_specification]
#[verifier::external_body]
pub struct ExProofError(bulletproofs::ProofError);

/// Calls `Sha512::digest` of `sha2`.  The contract names the digest `spec_sha512`
/// of the input; nothing else is claimed of it.
#[verifier::external_body]
fn sha512(data: &[u8]) -> (digest: [u8; 64])
    ensures
        digest@ == spec_sha512(data@),
{
    let hash = <sha2::Sha512 as sha2::Digest>::digest(data);
    let mut digest = [0u8; 64];
    digest.copy_from_slice(hash.as_slice());
    digest
}

/// Calls `Scalar::from_bytes_mod_order_wide` of `curve25519-dalek-ng`, which reduces a
/// 512-bit little-endian integer modulo the group order, and hands back the 32 bytes
/// of the reduced scalar.
#[verifier::external_body]
fn scalar_from_bytes_mod_order_wide(input: &[u8; 64]) -> (bytes: [u8; 32])
    ensures
        le_value(bytes@) == le_value(input@) % group_order(),
{
    curve25519_dalek_ng::scalar::Scalar::from_bytes_mod_order_wide(input).to_bytes()
}

/// Calls `PedersenGens::commit` of `bulletproofs` on the default bases and compresses
/// the point.  The contract names the 32 bytes `spec_pedersen_commit` of the value and
/// the blinding bytes.  A canonical encoding is asked for so that the bytes and the
/// scalar correspond one to one.
#[verifier::external_body]
fn pedersen_commit(value: u64, blinding: &[u8; 32]) -> (point: [u8; 32])
    requires
        le_value(blinding@) < group_order(),
    ensures
        point@ == spec_pedersen_commit(value, blinding@),
{
    let pc_gens = bulletproofs::PedersenGens::default();
    let r = curve25519_dalek_ng::scalar::Scalar::from_bytes_mod_order(*blinding);
    pc_gens.commit(curve25519_dalek_ng::scalar::Scalar::from(value), r).compress().to_bytes()
}

/// Calls `thread_rng` of `rand` and fills 32 bytes from it.  Nothing is claimed of the
/// bytes.
#[verifier::external_body]
fn fresh_seed() -> (seed: [u8; 32]) {
    let mut seed = [0u8; 32];
    rand::RngCore::fill_bytes(&mut rand::thread_rng(), &mut seed);
    seed
}

/// Calls `RangeProof::prove_single_with_rng` of `bulletproofs` on the default Pedersen
/// bases, freshly built generators of the given capacities, a fresh transcript with
/// the given label and a `ChaCha20Rng` of `rand_chacha` started from `seed`, and hands
/// back the proof's encoding and the compressed commitment.
///
/// All that the prover draws comes from that generator, so the contract names the
/// outcome `spec_range_proof_prove` of the arguments.  What it claims of a success
/// beside the name: the prover refuses unsupported bit sizes and generators that are
/// too few; the proof holds `log2(bits)` pairs of points, which fixes the length of its
/// encoding; and the commitment it returns is the Pedersen commitment to `value` under
/// `blinding`.  The transcript panics on a label whose length does not fit 32 bits, and
/// building the generators takes time and memory in proportion to the capacities, so
/// both are bounded: the callers hand over no more capacity than a proof can use.
#[verifier::external_body]
fn range_proof_prove_single(
    gens_capacity: usize,
    party_capacity: usize,
    label: &'static [u8],
    value: u64,
    blinding: &[u8; 32],
    bits: usize,
    seed: &[u8; 32],
) -> (outcome: Result<(Vec<u8>, [u8; 32]), bulletproofs::ProofError>)
    requires
        gens_capacity <= MAX_GENS_CAPACITY,
        party_capacity <= MAX_PARTY_CAPACITY,
        label@.len() <= MAX_LABEL_LEN,
        le_value(blinding@) < group_order(),
    ensures
        match outcome {
            Ok((proof, point)) => spec_range_proof_prove(
                gens_capacity,
                party_capacity,
                label@,
                value,
                blinding@,
                bits,
                seed@,
            ) == Some((proof@, point@)),
            Err(_) => spec_range_proof_prove(
                gens_capacity,
                party_capacity,
                label@,
                value,
                blinding@,
                bits,
                seed@,
            ) is None,
        },
        outcome matches Ok((proof, point)) ==> {
            &&& supported_bits(bits)
            &&& bits <= gens_capacity
            &&& 1 <= party_capacity
            &&& proof@.len() == proof_len(bits)
            &&& point@ == spec_pedersen_commit(value, blinding@)
        },
{
    let pc_gens = bulletproofs::PedersenGens::default();
    let bp_gens = bulletproofs::BulletproofGens::new(gens_capacity, party_capacity);
    let mut transcript = merlin::Transcript::new(label);
    let r = curve25519_dalek_ng::scalar::Scalar::from_bytes_mod_order(*blinding);
    let mut rng = <rand_chacha::ChaCha20Rng as rand::SeedableRng>::from_seed(*seed);
    let t = &mut transcript;
    let (proof, point) =
        bulletproofs::RangeProof::prove_single_with_rng(&bp_gens, &pc_gens, t, value, &r, bits, &mut rng)?;
    Ok((proof.to_bytes(), point.to_bytes()))
}

/// Calls `RangeProof::from_bytes` and `RangeProof::verify_single_with_rng` of
/// `bulletproofs` on the default Pedersen bases, freshly built generators of the given
/// capacities, a fresh transcript with the given label and a `ChaCha20Rng` of
/// `rand_chacha` started from `seed`.
///
/// The batching factor that the verifier draws comes from that generator, so the
/// contract names the answer `spec_range_proof_verify` of the arguments.  What it
/// claims of an acceptance beside the name: the verifier refuses unsupported bit sizes
/// and generators that are too few, and accepts only a proof that holds `log2(bits)`
/// pairs of points, which fixes the length of its encoding.  The label and the
/// capacities are bounded as for the prover.
#[verifier::external_body]
fn range_proof_verify_single(
    gens_capacity: usize,
    party_capacity: usize,
    label: &'static [u8],
    proof: &[u8],
    point: &[u8; 32],
    bits: usize,
    seed: &[u8; 32],
) -> (outcome: Result<(), bulletproofs::ProofError>)
    requires
        gens_capacity <= MAX_GENS_CAPACITY,
        party_capacity <= MAX_PARTY_CAPACITY,
        label@.len() <= MAX_LABEL_LEN,
    ensures
        outcome is Ok <==> spec_range_proof_verify(
            gens_capacity,
            party_capacity,
            label@,
            proof@,
            point@,
            bits,
            seed@,
        ),
        outcome is Ok ==> {
            &&& supported_bits(bits)
            &&& bits <= gens_capacity
            &&& 1 <= party_capacity
            &&& proof@.len() == proof_len(bits)
        },
{
    let pc_gens = bulletproofs::PedersenGens::default();
    let bp_gens = bulletproofs::BulletproofGens::new(gens_capacity, party_capacity);
    let mut transcript = merlin::Transcript::new(label);
    let v = curve25519_dalek_ng::ristretto::CompressedRistretto(*point);
    let mut rng = <rand_chacha::ChaCha20Rng as rand::SeedableRng>::from_seed(*seed);
    let t = &mut transcript;
    bulletproofs::RangeProof::from_bytes(proof)?.verify_single_with_rng(&bp_gens, &pc_gens, t, &v, bits, &mut rng)
}

/// An integer modulo the group order, held as its canonical 32-byte little-endian
/// encoding.
#[derive(Clone, Copy, Debug, PartialEq, Eq)]
pub struct Scalar {
    bytes: [u8; 32],
}

impl View for Scalar {
    type V = Seq<u8>;

    closed spec fn view(&self) -> Seq<u8> {
        self.bytes@
    }
}

impl Scalar {
    #[verifier::type_invariant]
    spec fn canonical(&self) -> bool {
        le_value(self.bytes@) < group_order()
    }

    /// The number below the group order that this scalar stands for.
    pub open spec fn value(&self) -> nat {
        le_value(self@)
    }

    /// The scalar that a 512-bit little-endian integer reduces to modulo the group order.
    pub fn from_bytes_mod_order_wide(input: &[u8; 64]) -> (scalar: Scalar)
        ensures
            scalar.value() == le_value(input@) % group_order(),
            scalar@ == le_bytes(le_value(input@) % group_order(), 32),
    {
        let bytes = scalar_from_bytes_mod_order_wide(input);
        proof {
            lemma_le_bytes_of_le_value(bytes@);
        }
        Scalar { bytes }
    }

    /// The canonical encoding of this scalar.
    pub fn to_bytes(&self) -> (bytes: [u8; 32])
        ensures
            bytes@ == self@,
            le_value(bytes@) < group_order(),
    {
        proof {
            use_type_invariant(self);
        }
        self.bytes
    }
}

/// The encoding of the blinding scalar that a seed gives: the SHA-512 digest of the
/// seed, read as a little-endian integer, reduced modulo the group order and encoded in
/// 32 bytes.
pub open spec fn blinding_of(seed: Seq<u8>) -> Seq<u8> {
    le_bytes(le_value(spec_sha512(seed)) % group_order(), 32)
}

/// Derives a blinding scalar from a seed of any length: the SHA-512 digest of the seed,
/// read as a little-endian integer and reduced modulo the group order.
pub fn derive_blinding(seed: &[u8]) -> (scalar: Scalar)
    ensures
        scalar.value() == le_value(spec_sha512(seed@)) % group_order(),
        scalar@ == blinding_of(seed@),
{
    let hash_bytes = sha512(seed);
    Scalar::from_bytes_mod_order_wide(&hash_bytes)
}

/// A group element in its 32-byte compressed encoding: what a commitment looks like
/// to everyone but the voter.
#[derive(Clone, Copy, Debug, PartialEq, Eq)]
pub struct CompressedRistretto {
    pub bytes: [u8; 32],
}

impl View for CompressedRistretto {
    type V = Seq<u8>;

    open spec fn view(&self) -> Seq<u8> {
        self.bytes@
    }
}

/// A range proof in its wire encoding.
#[derive(Clone, Debug, PartialEq, Eq)]
pub struct RangeProof {
    pub bytes: Vec<u8>,
}

impl View for RangeProof {
    type V = Seq<u8>;

    open spec fn view(&self) -> Seq<u8> {
        self.bytes@
    }
}

/// A proof transcript that nothing has been appended to yet.  Such a transcript is
/// determined by its label.
#[derive(Clone, Copy, Debug)]
pub struct Transcript {
    label: &'static [u8],
}

impl View for Transcript {
    type V = Seq<u8>;

    closed spec fn view(&self) -> Seq<u8> {
        self.label@
    }
}

impl Transcript {
    /// A fresh transcript with the given label.
    pub fn new(label: &'static [u8]) -> (transcript: Transcript)
        ensures
            transcript@ == label@,
    {
        Transcript { label }
    }
}

/// The pair of bases of a Pedersen commitment.  Only the standard pair is offered: the
/// Ristretto base point for the value and its hash to the group for the blinding.
#[derive(Clone, Copy, Debug)]
pub struct PedersenGens {}

impl Default for PedersenGens {
    fn default() -> (gens: PedersenGens)
        ensures
            gens == (PedersenGens {  }),
    {
        PedersenGens {  }
    }
}

impl PedersenGens {
    /// The commitment to `value` under `blinding`, compressed.
    pub fn commit(&self, value: u64, blinding: &Scalar) -> (point: CompressedRistretto)
        ensures
            point@ == spec_pedersen_commit(value, blinding@),
    {
        let blinding_bytes = blinding.to_bytes();
        CompressedRistretto { bytes: pedersen_commit(value, &blinding_bytes) }
    }
}

/// The generators of the range-proof system.  They are determined by how many there
/// are for each party and by the number of parties.
///
/// The generators of a party form a chain, and a proof for one value of `n` bits uses
/// the first `n` of the first party.  So no more than `MAX_GENS_CAPACITY` generators of
/// `MAX_PARTY_CAPACITY` party are ever built, whatever the capacities.
#[derive(Clone, Copy, Debug)]
pub struct BulletproofGens {
    gens_capacity: usize,
    party_capacity: usize,
}

impl BulletproofGens {
    /// The number of generators for each party.
    pub closed spec fn gens_capacity(&self) -> usize {
        self.gens_capacity
    }

    /// The number of parties.
    pub closed spec fn party_capacity(&self) -> usize {
        self.party_capacity
    }

    /// The number of generators per party that are built for a proof or a check.
    pub open spec fn gens_built(&self) -> usize {
        if self.gens_capacity() <= MAX_GENS_CAPACITY {
            self.gens_capacity()
        } else {
            MAX_GENS_CAPACITY
        }
    }

    /// The number of parties that generators are built for.
    pub open spec fn parties_built(&self) -> usize {
        if self.party_capacity() <= MAX_PARTY_CAPACITY {
            self.party_capacity()
        } else {
            MAX_PARTY_CAPACITY
        }
    }

    /// Whether these generators suffice to prove or check a range of `bits` bits for one
    /// value.
    pub open spec fn covers(&self, bits: usize) -> bool {
        bits <= self.gens_capacity() && 1 <= self.party_capacity()
    }

    /// Generators of the given capacities.
    pub fn new(gens_capacity: usize, party_capacity: usize) -> (gens: BulletproofGens)
        ensures
            gens.gens_capacity() == gens_capacity,
            gens.party_capacity() == party_capacity,
    {
        BulletproofGens { gens_capacity, party_capacity }
    }

    fn gens_to_build(&self) -> (count: usize)
        ensures
            count == self.gens_built(),
    {
        if self.gens_capacity <= MAX_GENS_CAPACITY {
            self.gens_capacity
        } else {
            MAX_GENS_CAPACITY
        }
    }

    fn parties_to_build(&self) -> (count: usize)
        ensures
            count == self.parties_built(),
    {
        if self.party_capacity <= MAX_PARTY_CAPACITY {
            self.party_capacity
        } else {
            MAX_PARTY_CAPACITY
        }
    }
}

/// The proof system failed to produce a proof.  This is not an error of the input.
#[derive(Clone, Copy, Debug, PartialEq, Eq)]
pub enum ProofGenerationError {
    InternalProofGenerationFailure,
}

/// What the prover produces from a seed: the proof's encoding and the compressed
/// commitment, or nothing.  Under a label too long to start a transcript it produces
/// nothing.
pub open spec fn prover_outcome(
    value: u64,
    blinding: Seq<u8>,
    label: Seq<u8>,
    gens_capacity: usize,
    party_capacity: usize,
    bits: usize,
    seed: Seq<u8>,
) -> Option<(Seq<u8>, Seq<u8>)> {
    if label.len() <= MAX_LABEL_LEN {
        spec_range_proof_prove(gens_capacity, party_capacity, label, value, blinding, bits, seed)
    } else {
        None
    }
}

/// What the verifier answers from a seed.  Under a label too long to start a
/// transcript it refuses.
pub open spec fn verifier_answer(
    proof: Seq<u8>,
    committed_value: Seq<u8>,
    label: Seq<u8>,
    gens_capacity: usize,
    party_capacity: usize,
    bits: usize,
    seed: Seq<u8>,
) -> bool {
    label.len() <= MAX_LABEL_LEN && spec_range_proof_verify(
        gens_capacity,
        party_capacity,
        label,
        proof,
        committed_value,
        bits,
        seed,
    )
}

/// What generating a ballot's proof produces from two seeds: what the prover produces
/// for 64 bits from the first, if the verifier accepts it under the same label from
/// the second, and nothing otherwise.
pub open spec fn generation_outcome(
    value: u64,
    blinding: Seq<u8>,
    label: Seq<u8>,
    gens_capacity: usize,
    party_capacity: usize,
    prover_seed: Seq<u8>,
    verifier_seed: Seq<u8>,
) -> Option<(Seq<u8>, Seq<u8>)> {
    match prover_outcome(
        value,
        blinding,
        label,
        gens_capacity,
        party_capacity,
        RANGE_BITS,
        prover_seed,
    ) {
        Some((proof, committed_value)) => if verifier_answer(
            proof,
            committed_value,
            label,
            gens_capacity,
            party_capacity,
            RANGE_BITS,
            verifier_seed,
        ) {
            Some((proof, committed_value))
        } else {
            None
        },
        None => None,
    }
}

/// Whatever generating hands out is what the prover produced from the first seed, and
/// the verifier accepted it under the same label from the second seed.
pub proof fn lemma_generated_proof_was_accepted(
    value: u64,
    blinding: Seq<u8>,
    label: Seq<u8>,
    gens_capacity: usize,
    party_capacity: usize,
    prover_seed: Seq<u8>,
    verifier_seed: Seq<u8>,
)
    ensures
        generation_outcome(
            value,
            blinding,
            label,
            gens_capacity,
            party_capacity,
            prover_seed,
            verifier_seed,
        ) matches Some((proof, committed_value)) ==> {
            &&& prover_outcome(
                value,
                blinding,
                label,
                gens_capacity,
                party_capacity,
                RANGE_BITS,
                prover_seed,
            ) == Some((proof, committed_value))
            &&& verifier_answer(
                proof,
                committed_value,
                label,
                gens_capacity,
                party_capacity,
                RANGE_BITS,
                verifier_seed,
            )
        },
{
}

/// Whether a result of proving holds the given outcome: the proof and the commitment
/// with these encodings, or the failure.
pub open spec fn is_proved(
    proved: Result<(RangeProof, CompressedRistretto), ProofGenerationError>,
    outcome: Option<(Seq<u8>, Seq<u8>)>,
) -> bool {
    match outcome {
        Some((proof, committed_value)) => proved matches Ok(pair) && pair.0@ == proof && pair.1@
            == committed_value,
        None => proved is Err,
    }
}

/// Whether a result of generating holds the given outcome.
pub open spec fn is_generated(
    generated: Option<(RangeProof, CompressedRistretto)>,
    outcome: Option<(Seq<u8>, Seq<u8>)>,
) -> bool {
    match outcome {
        Some((proof, committed_value)) => generated matches Some(pair) && pair.0@ == proof
            && pair.1@ == committed_value,
        None => generated is None,
    }
}

/// Whether a ballot, or the failure to make one, is what the given outcome of
/// generating makes for a candidate, a value and the encoding of a blinding scalar.
pub open spec fn is_cast(
    cast: Result<Vote, ProofGenerationError>,
    candidate: CandidateId,
    value: u64,
    blinding: Seq<u8>,
    outcome: Option<(Seq<u8>, Seq<u8>)>,
) -> bool {
    match outcome {
        Some((proof, committed_value)) => {
            &&& cast matches Ok(vote)
            &&& vote.candidate == candidate
            &&& vote.commitment.value == value
            &&& vote.commitment.randomness@ == blinding
            &&& vote.proof@ == proof
            &&& vote.committed_value@ == committed_value
        },
        None => cast is Err,
    }
}

impl RangeProof {
    /// Proves that `v` lies in `[0, 2^n)` for the commitment to `v` under `v_blinding`,
    /// starting from the given transcript and drawing from a fresh seed.  Returns the
    /// proof and the compressed commitment.
    ///
    /// Two proofs of the same statement differ, as their seeds do.  The commitment does
    /// not.  A label of more than `MAX_LABEL_LEN` bytes cannot start a transcript;
    /// proving under it fails.
    pub fn prove_single(
        bp_gens: &BulletproofGens,
        pc_gens: &PedersenGens,
        transcript: Transcript,
        v: u64,
        v_blinding: &Scalar,
        n: usize,
    ) -> (proved: Result<(RangeProof, CompressedRistretto), ProofGenerationError>)
        ensures
            exists|seed: Seq<u8>|
                is_proved(
                    proved,
                    #[trigger] prover_outcome(
                        v,
                        v_blinding@,
                        transcript@,
                        bp_gens.gens_built(),
                        bp_gens.parties_built(),
                        n,
                        seed,
                    ),
                ),
            proved matches Ok((proof, committed_value)) ==> {
                &&& supported_bits(n)
                &&& bp_gens.covers(n)
                &&& proof@.len() == proof_len(n)
                &&& committed_value@ == spec_pedersen_commit(v, v_blinding@)
            },
    {
        let seed = fresh_seed();
        RangeProof::prove_single_seeded(bp_gens, pc_gens, transcript, v, v_blinding, n, &seed)
    }

    /// Proves as `prove_single` does, drawing from the given seed.  The same arguments
    /// and seed give the same proof.
    pub fn prove_single_seeded(
        bp_gens: &BulletproofGens,
        pc_gens: &PedersenGens,
        transcript: Transcript,
        v: u64,
        v_blinding: &Scalar,
        n: usize,
        seed: &[u8; 32],
    ) -> (proved: Result<(RangeProof, CompressedRistretto), ProofGenerationError>)
        ensures
            is_proved(
                proved,
                prover_outcome(
                    v,
                    v_blinding@,
                    transcript@,
                    bp_gens.gens_built(),
                    bp_gens.parties_built(),
                    n,
                    seed@,
                ),
            ),
            proved matches Ok((proof, committed_value)) ==> {
                &&& supported_bits(n)
                &&& bp_gens.covers(n)
                &&& proof@.len() == proof_len(n)
                &&& committed_value@ == spec_pedersen_commit(v, v_blinding@)
            },
    {
        if transcript.label.len() > MAX_LABEL_LEN {
            return Err(ProofGenerationError::InternalProofGenerationFailure);
        }
        let blinding = v_blinding.to_bytes();
        let outcome = range_proof_prove_single(
            bp_gens.gens_to_build(),
            bp_gens.parties_to_build(),
            transcript.label,
            v,
            &blinding,
            n,
            seed,
        );
        match outcome {
            Ok((proof_bytes, point)) => Ok(
                (RangeProof { bytes: proof_bytes }, CompressedRistretto { bytes: point }),
            ),
            Err(_) => Err(ProofGenerationError::InternalProofGenerationFailure),
        }
    }

    /// Checks this proof against a compressed commitment for a range of `n` bits,
    /// starting from the given transcript and drawing from a fresh seed.
    ///
    /// A proof under a label of more than `MAX_LABEL_LEN` bytes is refused.
    pub fn verify_single(
        &self,
        bp_gens: &BulletproofGens,
        pc_gens: &PedersenGens,
        transcript: Transcript,
        committed_value: &CompressedRistretto,
        n: usize,
    ) -> (accepted: bool)
        ensures
            exists|seed: Seq<u8>|
                accepted == #[trigger] verifier_answer(
                    self@,
                    committed_value@,
                    transcript@,
                    bp_gens.gens_built(),
                    bp_gens.parties_built(),
                    n,
                    seed,
                ),
            accepted ==> supported_bits(n) && bp_gens.covers(n) && self@.len() == proof_len(n),
    {
        let seed = fresh_seed();
        self.verify_single_seeded(bp_gens, pc_gens, transcript, committed_value, n, &seed)
    }

    /// Checks as `verify_single` does, drawing from the given seed.  The same arguments
    /// and seed give the same answer.
    pub fn verify_single_seeded(
        &self,
        bp_gens: &BulletproofGens,
        pc_gens: &PedersenGens,
        transcript: Transcript,
        committed_value: &CompressedRistretto,
        n: usize,
        seed: &[u8; 32],
    ) -> (accepted: bool)
        ensures
            accepted == verifier_answer(
                self@,
                committed_value@,
                transcript@,
                bp_gens.gens_built(),
                bp_gens.parties_built(),
                n,
                seed@,
            ),
            accepted ==> supported_bits(n) && bp_gens.covers(n) && self@.len() == proof_len(n),
    {
        if transcript.label.len() > MAX_LABEL_LEN {
            return false;
        }
        let outcome = range_proof_verify_single(
            bp_gens.gens_to_build(),
            bp_gens.parties_to_build(),
            transcript.label,
            self.bytes.as_slice(),
            &committed_value.bytes,
            n,
            seed,
        );
        outcome.is_ok()
    }
}

/// What is handed out of a proof once the verifier has answered: the proof with its
/// commitment if it was accepted, and nothing if it was refused.
pub fn keep_accepted(proof: RangeProof, committed_value: CompressedRistretto, accepted: bool) -> (kept:
    Option<(RangeProof, CompressedRistretto)>)
    ensures
        kept == (if accepted {
            Some((proof, committed_value))
        } else {
            None
        }),
{
    if accepted {
        Some((proof, committed_value))
    } else {
        None
    }
}

/// A value together with the blinding scalar that hides it: what the voter must know to
/// open the commitment.
#[derive(Clone, Copy, Debug, PartialEq, Eq)]
pub struct PedersenCommitment {
    pub value: u64,
    pub randomness: Scalar,
}

impl PedersenCommitment {
    pub fn new(value: u64, randomness: Scalar) -> (commitment: PedersenCommitment)
        ensures
            commitment.value == value,
            commitment.randomness == randomness,
    {
        PedersenCommitment { value, randomness }
    }

    /// What holds of a proof and a compressed commitment that
    /// `generate_proof_of_knowledge` hands out for this opening.
    pub open spec fn proves(
        &self,
        bp_gens: &BulletproofGens,
        proof: RangeProof,
        committed_value: CompressedRistretto,
    ) -> bool {
        &&& bp_gens.covers(RANGE_BITS)
        &&& proof@.len() == proof_len(RANGE_BITS)
        &&& committed_value@ == spec_pedersen_commit(self.value, self.randomness@)
    }

    /// Proves that the committed value lies in `[0, 2^64)`, starting from the given
    /// transcript, and checks the proof once against a transcript with the same label.
    ///
    /// Returns the proof and the compressed commitment that the prover made, or `None`
    /// if the proof system failed to produce a proof that its own verifier accepts.
    pub fn generate_proof_of_knowledge(
        &self,
        pc_gens: &PedersenGens,
        bp_gens: &BulletproofGens,
        prover_transcript: Transcript,
    ) -> (generated: Option<(RangeProof, CompressedRistretto)>)
        ensures
            exists|prover_seed: Seq<u8>, verifier_seed: Seq<u8>|
                is_generated(
                    generated,
                    #[trigger] generation_outcome(
                        self.value,
                        self.randomness@,
                        prover_transcript@,
                        bp_gens.gens_built(),
                        bp_gens.parties_built(),
                        prover_seed,
                        verifier_seed,
                    ),
                ),
            generated matches Some((proof, committed_value)) ==> self.proves(
                bp_gens,
                proof,
                committed_value,
            ),
    {
        let verifier_transcript = Transcript::new(prover_transcript.label);
        let proved = RangeProof::prove_single(
            bp_gens,
            pc_gens,
            prover_transcript,
            self.value,
            &self.randomness,
            RANGE_BITS,
        );
        let ghost prover_seed = choose|seed: Seq<u8>|
            is_proved(
                proved,
                #[trigger] prover_outcome(
                    self.value,
                    self.randomness@,
                    prover_transcript@,
                    bp_gens.gens_built(),
                    bp_gens.parties_built(),
                    RANGE_BITS,
                    seed,
                ),
            );
        match proved {
            Ok((proof, committed_value)) => {
                let accepted = self.verify_proof_of_knowledge(
                    pc_gens,
                    bp_gens,
                    &proof,
                    verifier_transcript,
                    &committed_value,
                );
                let ghost verifier_seed = choose|seed: Seq<u8>|
                    accepted == #[trigger] verifier_answer(
                        proof@,
                        committed_value@,
                        verifier_transcript@,
                        bp_gens.gens_built(),
                        bp_gens.parties_built(),
                        RANGE_BITS,
                        seed,
                    );
                let generated = keep_accepted(proof, committed_value, accepted);
                assert(is_generated(
                    generated,
                    generation_outcome(
                        self.value,
                        self.randomness@,
                        prover_transcript@,
                        bp_gens.gens_built(),
                        bp_gens.parties_built(),
                        prover_seed,
                        verifier_seed,
                    ),
                ));
                generated
            },
            Err(_) => {
                assert(is_generated(
                    None,
                    generation_outcome(
                        self.value,
                        self.randomness@,
                        prover_transcript@,
                        bp_gens.gens_built(),
                        bp_gens.parties_built(),
                        prover_seed,
                        prover_seed,
                    ),
                ));
                None
            },
        }
    }

    /// Checks a range proof for 64 bits against a compressed commitment, starting from
    /// the given transcript.  The opening plays no part in the check.
    pub fn verify_proof_of_knowledge(
        &self,
        pc_gens: &PedersenGens,
        bp_gens: &BulletproofGens,
        proof: &RangeProof,
        verifier_transcript: Transcript,
        committed_value: &CompressedRistretto,
    ) -> (accepted: bool)
        ensures
            exists|seed: Seq<u8>|
                accepted == #[trigger] verifier_answer(
                    proof@,
                    committed_value@,
                    verifier_transcript@,
                    bp_gens.gens_built(),
                    bp_gens.parties_built(),
                    RANGE_BITS,
                    seed,
                ),
            accepted ==> bp_gens.covers(RANGE_BITS) && proof@.len() == proof_len(RANGE_BITS),
    {
        proof.verify_single(bp_gens, pc_gens, verifier_transcript, committed_value, RANGE_BITS)
    }
}

/// The proof system set up for ballots: the standard Pedersen bases and generators for
/// one 64-bit value.
#[derive(Clone, Copy, Debug)]
pub struct ZKPModule {
    pc_gens: PedersenGens,
    bp_gens: BulletproofGens,
}

impl ZKPModule {
    /// The generators that this module proves and checks with.
    pub closed spec fn bp_gens(&self) -> BulletproofGens {
        self.bp_gens
    }

    pub fn new() -> (module: ZKPModule)
        ensures
            module.bp_gens().gens_capacity() == 64,
            module.bp_gens().party_capacity() == 1,
    {
        ZKPModule { pc_gens: PedersenGens::default(), bp_gens: BulletproofGens::new(64, 1) }
    }

    pub fn generate_commitment(value: u64, randomness: Scalar) -> (commitment: PedersenCommitment)
        ensures
            commitment.value == value,
            commitment.randomness == randomness,
    {
        PedersenCommitment::new(value, randomness)
    }

    /// Proves, for the opening `commitment`, that its value lies in `[0, 2^64)`, and
    /// checks the proof once, with this module's generators.
    pub fn generate_proof_of_knowledge(
        &self,
        commitment: &PedersenCommitment,
        prover_transcript: Transcript,
    ) -> (generated: Option<(RangeProof, CompressedRistretto)>)
        ensures
            exists|prover_seed: Seq<u8>, verifier_seed: Seq<u8>|
                is_generated(
                    generated,
                    #[trigger] generation_outcome(
                        commitment.value,
                        commitment.randomness@,
                        prover_transcript@,
                        self.bp_gens().gens_built(),
                        self.bp_gens().parties_built(),
                        prover_seed,
                        verifier_seed,
                    ),
                ),
            generated matches Some((proof, committed_value)) ==> commitment.proves(
                &self.bp_gens(),
                proof,
                committed_value,
            ),
    {
        let generated = commitment.generate_proof_of_knowledge(
            &self.pc_gens,
            &self.bp_gens,
            prover_transcript,
        );
        proof {
            let (prover_seed, verifier_seed) = choose|prover_seed: Seq<u8>, verifier_seed: Seq<u8>|
                is_generated(
                    generated,
                    #[trigger] generation_outcome(
                        commitment.value,
                        commitment.randomness@,
                        prover_transcript@,
                        self.bp_gens.gens_built(),
                        self.bp_gens.parties_built(),
                        prover_seed,
                        verifier_seed,
                    ),
                );
            assert(is_generated(
                generated,
                generation_outcome(
                    commitment.value,
                    commitment.randomness@,
                    prover_transcript@,
                    self.bp_gens().gens_built(),
                    self.bp_gens().parties_built(),
                    prover_seed,
                    verifier_seed,
                ),
            ));
        }
        generated
    }

    /// Checks a range proof for 64 bits against a compressed commitment, with this
    /// module's generators.
    pub fn verify_proof_of_knowledge(
        &self,
        commitment: &PedersenCommitment,
        proof: &RangeProof,
        verifier_transcript: Transcript,
        committed_value: &CompressedRistretto,
    ) -> (accepted: bool)
        ensures
            exists|seed: Seq<u8>|
                accepted == #[trigger] verifier_answer(
                    proof@,
                    committed_value@,
                    verifier_transcript@,
                    self.bp_gens().gens_built(),
                    self.bp_gens().parties_built(),
                    RANGE_BITS,
                    seed,
                ),
            accepted ==> self.bp_gens().covers(RANGE_BITS) && proof@.len() == proof_len(
                RANGE_BITS,
            ),
    {
        let accepted = commitment.verify_proof_of_knowledge(
            &self.pc_gens,
            &self.bp_gens,
            proof,
            verifier_transcript,
            committed_value,
        );
        proof {
            let seed = choose|seed: Seq<u8>|
                accepted == #[trigger] verifier_answer(
                    proof@,
                    committed_value@,
                    verifier_transcript@,
                    self.bp_gens.gens_built(),
                    self.bp_gens.parties_built(),
                    RANGE_BITS,
                    seed,
                );
            assert(accepted == verifier_answer(
                proof@,
                committed_value@,
                verifier_transcript@,
                self.bp_gens().gens_built(),
                self.bp_gens().parties_built(),
                RANGE_BITS,
                seed,
            ));
        }
        accepted
    }
}

/// A ballot as the voter holds it: the chosen candidate, the opening of the commitment,
/// the range proof and the compressed commitment.  Only the candidate, the compressed
/// commitment and the proof are handed in when the ballot is cast.
#[derive(Clone, Debug, PartialEq, Eq)]
pub struct Vote {
    pub candidate: CandidateId,
    pub commitment: PedersenCommitment,
    pub proof: RangeProof,
    pub committed_value: CompressedRistretto,
}

/// The label `ZKPExample` as bytes.
pub open spec fn example_label() -> Seq<u8> {
    "ZKPExample".spec_bytes()
}

/// Proves that `value` lies in `[0, 2^64)` under the label `ZKPExample`, with the
/// standard bases and generators for one value of 64 bits, checks the proof once and
/// hands it out alone.  A proof that is handed out was accepted against the Pedersen
/// commitment to `value` under `randomness`.
pub fn generate_proof_of_knowledge(value: u64, randomness: Scalar) -> (generated: Option<RangeProof>)
    ensures
        exists|prover_seed: Seq<u8>, verifier_seed: Seq<u8>|
            match #[trigger] generation_outcome(
                value,
                randomness@,
                example_label(),
                64,
                1,
                prover_seed,
                verifier_seed,
            ) {
                Some((proof, _)) => generated matches Some(made) && made@ == proof,
                None => generated is None,
            },
        generated matches Some(proof) ==> exists|verifier_seed: Seq<u8>|
            #[trigger] verifier_answer(
                proof@,
                spec_pedersen_commit(value, randomness@),
                example_label(),
                64,
                1,
                RANGE_BITS,
                verifier_seed,
            ),
        generated matches Some(proof) ==> proof@.len() == proof_len(RANGE_BITS),
{
    let zkm = ZKPModule::new();
    let commitment = PedersenCommitment::new(value, randomness);
    let prover_transcript = Transcript::new("ZKPExample".as_bytes());
    let generated = zkm.generate_proof_of_knowledge(&commitment, prover_transcript);
    proof {
        let (prover_seed, verifier_seed) = choose|prover_seed: Seq<u8>, verifier_seed: Seq<u8>|
            is_generated(
                generated,
                #[trigger] generation_outcome(
                    value,
                    randomness@,
                    prover_transcript@,
                    zkm.bp_gens().gens_built(),
                    zkm.bp_gens().parties_built(),
                    prover_seed,
                    verifier_seed,
                ),
            );
        assert(is_generated(
            generated,
            generation_outcome(value, randomness@, example_label(), 64, 1, prover_seed, verifier_seed),
        ));
        if generated is Some {
            let made = generated->Some_0;
            assert(verifier_answer(made.0@, made.1@, example_label(), 64, 1, RANGE_BITS, verifier_seed));
            assert(made.1@ == spec_pedersen_commit(value, randomness@));
        }
    }
    match generated {
        Some((proof, _)) => Some(proof),
        None => None,
    }
}

impl Vote {
    /// The ballot that a generated proof makes for a candidate and an opening, and the
    /// failure that the lack of a proof is.
    pub fn from_generated(
        candidate: CandidateId,
        commitment: PedersenCommitment,
        generated: Option<(RangeProof, CompressedRistretto)>,
    ) -> (cast: Result<Vote, ProofGenerationError>)
        ensures
            cast == (match generated {
                Some((proof, committed_value)) => Ok::<Vote, ProofGenerationError>(
                    Vote { candidate, commitment, proof, committed_value },
                ),
                None => Err(ProofGenerationError::InternalProofGenerationFailure),
            }),
    {
        match generated {
            Some((proof, committed_value)) => Ok(
                Vote { candidate, commitment, proof, committed_value },
            ),
            None => Err(ProofGenerationError::InternalProofGenerationFailure),
        }
    }
}

/// Makes and checks ballots under one transcript label.
#[derive(Clone, Copy, Debug)]
pub struct VotingSystem {
    pub transcript: &'static [u8],
}

impl VotingSystem {
    pub fn new(transcript: &'static [u8]) -> (system: VotingSystem)
        ensures
            system.transcript@ == transcript@,
    {
        VotingSystem { transcript }
    }

    /// Makes a ballot for `candidate`: derives the blinding scalar from `zkp_randomness`,
    /// commits to `zkp_value` under it, proves the range under this system's label with
    /// generators for one value of 64 bits, and checks the proof once.
    pub fn cast_vote(
        &self,
        candidate: CandidateId,
        zkp_value: ZKPCommitmentValue,
        zkp_randomness: &[u8],
    ) -> (cast: Result<Vote, ProofGenerationError>)
        ensures
            exists|prover_seed: Seq<u8>, verifier_seed: Seq<u8>|
                is_cast(
                    cast,
                    candidate,
                    zkp_value,
                    blinding_of(zkp_randomness@),
                    #[trigger] generation_outcome(
                        zkp_value,
                        blinding_of(zkp_randomness@),
                        self.transcript@,
                        64,
                        1,
                        prover_seed,
                        verifier_seed,
                    ),
                ),
            cast matches Ok(vote) ==> {
                &&& vote.candidate == candidate
                &&& vote.commitment.value == zkp_value
                &&& vote.commitment.randomness.value() == le_value(spec_sha512(zkp_randomness@))
                    % group_order()
                &&& vote.proof@.len() == proof_len(RANGE_BITS)
                &&& vote.committed_value@ == spec_pedersen_commit(
                    zkp_value,
                    vote.commitment.randomness@,
                )
            },
    {
        let zkm = ZKPModule::new();
        let randomness = derive_blinding(zkp_randomness);
        let prover_transcript = Transcript::new(self.transcript);
        let commitment = ZKPModule::generate_commitment(zkp_value, randomness);
        let generated = zkm.generate_proof_of_knowledge(&commitment, prover_transcript);
        Vote::from_generated(candidate, commitment, generated)
    }

    /// Checks a ballot's proof against its compressed commitment under this system's
    /// label, with generators for one value of 64 bits.
    pub fn verify_vote(&self, vote: &Vote) -> (accepted: bool)
        ensures
            exists|seed: Seq<u8>|
                accepted == #[trigger] verifier_answer(
                    vote.proof@,
                    vote.committed_value@,
                    self.transcript@,
                    64,
                    1,
                    RANGE_BITS,
                    seed,
                ),
            accepted ==> vote.proof@.len() == proof_len(RANGE_BITS),
    {
        let zkm = ZKPModule::new();
        let verifier_transcript = Transcript::new(self.transcript);
        zkm.verify_proof_of_knowledge(
            &vote.commitment,
            &vote.proof,
            verifier_transcript,
            &vote.committed_value,
        )
    }
}

} // verus!
