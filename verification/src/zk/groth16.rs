use crate::error::ErrorCode;
use crate::zk::encoding::{canonical, is_canonical, BASE_FIELD_MODULUS, SCALAR_FIELD_MODULUS};
use groth16_solana::errors::Groth16Error;
use groth16_solana::groth16::{Groth16Verifier, Groth16Verifyingkey};
use vstd::prelude::*;

verus! {

/// The error type of the outside Groth16 verifier. Nothing is read from it:
/// which step failed decides what is reported.
#[verifier::external_type_specification]
#[verifier::external_body]
pub struct ExGroth16Error(Groth16Error);

/// The public parameters against which the proofs of one circuit are
/// checked. A G1 point takes 64 bytes and a G2 point 128, each coordinate
/// 32 bytes with the most significant byte first. `ic` holds one point more
/// than the circuit has public inputs.
pub struct VerifyingKey {
    pub alpha_g1: [u8; 64],
    pub beta_g2: [u8; 128],
    pub gamma_g2: [u8; 128],
    pub delta_g2: [u8; 128],
    pub ic: Vec<[u8; 64]>,
}

/// A verifying key as a mathematical value.
pub struct VerifyingKeyView {
    pub alpha_g1: Seq<u8>,
    pub beta_g2: Seq<u8>,
    pub gamma_g2: Seq<u8>,
    pub delta_g2: Seq<u8>,
    pub ic: Seq<Seq<u8>>,
}

/// The byte strings that a sequence of byte arrays holds.
pub open spec fn rows<const W: usize>(arrays: Seq<[u8; W]>) -> Seq<Seq<u8>> {
    Seq::new(arrays.len(), |i: int| arrays[i]@)
}

impl View for VerifyingKey {
    type V = VerifyingKeyView;

    open spec fn view(&self) -> VerifyingKeyView {
        VerifyingKeyView {
            alpha_g1: self.alpha_g1@,
            beta_g2: self.beta_g2@,
            gamma_g2: self.gamma_g2@,
            delta_g2: self.delta_g2@,
            ic: rows(self.ic@),
        }
    }
}

/// Whether each of `rows` is canonical below `modulus`.
pub open spec fn all_canonical(rows: Seq<Seq<u8>>, modulus: Seq<u8>) -> bool {
    forall|i: int| 0 <= i < rows.len() ==> canonical(#[trigger] rows[i], modulus)
}

impl VerifyingKeyView {
    /// Whether every coordinate of every point of the key is a number below
    /// the base field modulus.
    pub open spec fn well_encoded(self) -> bool {
        &&& canonical(self.alpha_g1, BASE_FIELD_MODULUS@)
        &&& canonical(self.beta_g2, BASE_FIELD_MODULUS@)
        &&& canonical(self.gamma_g2, BASE_FIELD_MODULUS@)
        &&& canonical(self.delta_g2, BASE_FIELD_MODULUS@)
        &&& all_canonical(self.ic, BASE_FIELD_MODULUS@)
    }
}

/// Whether a proof, its public inputs and the key are encoded as the
/// verifier expects them: every coordinate of a point is a number below the
/// base field modulus, every public input a number below the scalar field
/// modulus, and the key has one `ic` point more than there are inputs.
pub open spec fn well_encoded(
    proof_a: Seq<u8>,
    proof_b: Seq<u8>,
    proof_c: Seq<u8>,
    public_inputs: Seq<Seq<u8>>,
    vk: VerifyingKeyView,
) -> bool {
    &&& canonical(proof_a, BASE_FIELD_MODULUS@)
    &&& canonical(proof_b, BASE_FIELD_MODULUS@)
    &&& canonical(proof_c, BASE_FIELD_MODULUS@)
    &&& all_canonical(public_inputs, SCALAR_FIELD_MODULUS@)
    &&& vk.well_encoded()
    &&& public_inputs.len() + 1 == vk.ic.len()
}

/// Whether `Groth16Verifier::verify` of groth16-solana accepts the proof
/// (`proof_a`, `proof_b`, `proof_c`) for `public_inputs` under the key made
/// of the last five arguments: whether every buffer encodes a point of its
/// group, every public input is below the scalar field modulus, and the
/// pairing equation of Groth16 holds. It depends on these values alone.
pub uninterp spec fn groth16_accepts(
    proof_a: Seq<u8>,
    proof_b: Seq<u8>,
    proof_c: Seq<u8>,
    public_inputs: Seq<Seq<u8>>,
    alpha_g1: Seq<u8>,
    beta_g2: Seq<u8>,
    gamma_g2: Seq<u8>,
    delta_g2: Seq<u8>,
    ic: Seq<Seq<u8>>,
) -> bool;

/// What the check of a proof comes to: `InvalidProofData` where something is
/// not encoded as it should be, else `Groth16VerificationFailed` where the
/// verifier does not accept the proof, else success.
pub open spec fn proof_verdict(
    proof_a: Seq<u8>,
    proof_b: Seq<u8>,
    proof_c: Seq<u8>,
    public_inputs: Seq<Seq<u8>>,
    vk: VerifyingKeyView,
) -> Result<(), ErrorCode> {
    if !well_encoded(proof_a, proof_b, proof_c, public_inputs, vk) {
        Err(ErrorCode::InvalidProofData)
    } else if !groth16_accepts(
        proof_a,
        proof_b,
        proof_c,
        public_inputs,
        vk.alpha_g1,
        vk.beta_g2,
        vk.gamma_g2,
        vk.delta_g2,
        vk.ic,
    ) {
        Err(ErrorCode::Groth16VerificationFailed)
    } else {
        Ok(())
    }
}

/// Calls `Groth16Verifier::new` of groth16-solana on the proof, the inputs
/// and the key. Trusted: it succeeds exactly when the key has one `ic` point
/// more than there are public inputs, which is the one test it makes on
/// buffers of these fixed sizes. The count field of the outside key, which
/// the verifier never reads, gets the number of `ic` points.
#[verifier::external_body]
fn groth16_new<const N: usize>(
    proof_a: &[u8; 64],
    proof_b: &[u8; 128],
    proof_c: &[u8; 64],
    public_inputs: &[[u8; 32]; N],
    vk: &VerifyingKey,
) -> (made: Result<(), Groth16Error>)
    requires
        N < usize::MAX,
    ensures
        made is Ok <==> N + 1 == vk.ic@.len(),
{
    let key = Groth16Verifyingkey {
        nr_pubinputs: vk.ic.len(),
        vk_alpha_g1: vk.alpha_g1,
        vk_beta_g2: vk.beta_g2,
        vk_gamme_g2: vk.gamma_g2,
        vk_delta_g2: vk.delta_g2,
        vk_ic: vk.ic.as_slice(),
    };
    match Groth16Verifier::new(proof_a, proof_b, proof_c, public_inputs, &key) {
        Ok(_) => Ok(()),
        Err(e) => Err(e),
    }
}

/// Calls `Groth16Verifier::verify` of groth16-solana on a verifier made of
/// the proof, the inputs and the key. Trusted: it succeeds exactly when
/// `groth16_accepts` holds of these values. The key must have one `ic` point
/// more than there are public inputs, so that the verifier can be made.
#[verifier::external_body]
fn groth16_verify<const N: usize>(
    proof_a: &[u8; 64],
    proof_b: &[u8; 128],
    proof_c: &[u8; 64],
    public_inputs: &[[u8; 32]; N],
    vk: &VerifyingKey,
) -> (verified: Result<(), Groth16Error>)
    requires
        N + 1 == vk.ic@.len(),
    ensures
        verified is Ok <==> groth16_accepts(
            proof_a@,
            proof_b@,
            proof_c@,
            rows(public_inputs@),
            vk.alpha_g1@,
            vk.beta_g2@,
            vk.gamma_g2@,
            vk.delta_g2@,
            rows(vk.ic@),
        ),
{
    let key = Groth16Verifyingkey {
        nr_pubinputs: vk.ic.len(),
        vk_alpha_g1: vk.alpha_g1,
        vk_beta_g2: vk.beta_g2,
        vk_gamme_g2: vk.gamma_g2,
        vk_delta_g2: vk.delta_g2,
        vk_ic: vk.ic.as_slice(),
    };
    Groth16Verifier::new(proof_a, proof_b, proof_c, public_inputs, &key)?.verify()
}

/// Whether each of `arrays` is canonical below `modulus`.
fn rows_canonical<const W: usize>(arrays: &[[u8; W]], modulus: &[u8; 32]) -> (yes: bool)
    ensures
        yes == all_canonical(rows(arrays@), modulus@),
{
    let n: usize = arrays.len();
    let mut i: usize = 0;
    while i < n
        invariant
            i <= n,
            n == arrays@.len(),
            forall|j: int| 0 <= j < i ==> canonical(#[trigger] rows(arrays@)[j], modulus@),
        decreases n - i,
    {
        if !is_canonical(arrays[i].as_slice(), modulus) {
            assert(!canonical(rows(arrays@)[i as int], modulus@));
            return false;
        }
        i += 1;
    }
    true
}

impl VerifyingKey {
    /// Whether every coordinate of every point of the key is a number below
    /// the base field modulus.
    pub fn is_well_encoded(&self) -> (yes: bool)
        ensures
            yes == self@.well_encoded(),
    {
        is_canonical(self.alpha_g1.as_slice(), &BASE_FIELD_MODULUS)
            && is_canonical(self.beta_g2.as_slice(), &BASE_FIELD_MODULUS)
            && is_canonical(self.gamma_g2.as_slice(), &BASE_FIELD_MODULUS)
            && is_canonical(self.delta_g2.as_slice(), &BASE_FIELD_MODULUS)
            && rows_canonical(self.ic.as_slice(), &BASE_FIELD_MODULUS)
    }
}

/// Checks the proof (`proof_a`, `proof_b`, `proof_c`) for `public_inputs`
/// against `vk`. It has no effect of its own: it is a gate.
///
/// It first looks at the encodings, then has the outside verifier made, and
/// reports `InvalidProofData` where either fails. It then runs the outside
/// verifier and reports `Groth16VerificationFailed` where that one does not
/// accept the proof.
pub fn verify_proof<const N: usize>(
    proof_a: [u8; 64],
    proof_b: [u8; 128],
    proof_c: [u8; 64],
    public_inputs: [[u8; 32]; N],
    vk: &VerifyingKey,
) -> (verdict: Result<(), ErrorCode>)
    ensures
        verdict == proof_verdict(proof_a@, proof_b@, proof_c@, rows(public_inputs@), vk@),
{
    let encoded: bool = is_canonical(proof_a.as_slice(), &BASE_FIELD_MODULUS)
        && is_canonical(proof_b.as_slice(), &BASE_FIELD_MODULUS)
        && is_canonical(proof_c.as_slice(), &BASE_FIELD_MODULUS)
        && rows_canonical(public_inputs.as_slice(), &SCALAR_FIELD_MODULUS)
        && vk.is_well_encoded();
    if !encoded || N == usize::MAX {
        assert(rows(public_inputs@).len() == N && vk.ic.len() <= usize::MAX);
        return Err(ErrorCode::InvalidProofData);
    }
    match groth16_new(&proof_a, &proof_b, &proof_c, &public_inputs, vk) {
        Err(_) => {
            return Err(ErrorCode::InvalidProofData);
        },
        Ok(()) => {},
    }
    match groth16_verify(&proof_a, &proof_b, &proof_c, &public_inputs, vk) {
        Err(_) => Err(ErrorCode::Groth16VerificationFailed),
        Ok(()) => Ok(()),
    }
}

} // verus!
