//! The proof verifier as the game consumes it: a yes or no for a proof, a
//! verification key and the public inputs the game built itself.

use crate::codec::{public_inputs, public_inputs_spec};
use crate::types::{ProofData, ProofDataView};
use soroban_sdk::{Bytes, Env};
use ultrahonk_soroban_verifier::UltraHonkVerifier;
use vstd::prelude::*;

verus! {

/// The host environment the verifier runs its curve arithmetic in. The library
/// only hands it through.
#[verifier::external_type_specification]
#[verifier::external_body]
pub struct ExEnv(Env);

/// How many bytes stand in front of the key proper in a stored verification
/// key.
pub const KEY_PREFIX_BYTES: usize = 4;

/// What the verifier makes of a key, a proof and public inputs.
#[derive(Clone, Copy, Debug, PartialEq, Eq, Structural)]
pub enum VerifierAnswer {
    /// The key loaded and the proof verified.
    Accepted,
    /// The key loaded, and verification ended in an error.
    ProofRefused,
    /// The key did not load, so no proof was looked at.
    KeyRefused,
}

/// What comes of `UltraHonkVerifier::new` on `key` and, where the key loads,
/// of `UltraHonkVerifier::verify` on `proof` and `inputs` with the verifier
/// that `new` returned.
pub uninterp spec fn ultrahonk_answer(key: Seq<u8>, proof: Seq<u8>, inputs: Seq<u8>) -> VerifierAnswer;

/// Calls `UltraHonkVerifier::new` on `key` and, where that yields a verifier,
/// `UltraHonkVerifier::verify` on `proof` and `inputs`, and tells the three
/// ways it can end apart.
///
/// Trusted: the answer depends on the three byte strings alone. The three
/// lengths are bounded because the host stores the length of a byte string
/// in 32 bits. The environment must have the budget for the work.
#[verifier::external_body]
fn ultrahonk_verify(env: &Env, key: &Vec<u8>, proof: &Vec<u8>, inputs: &Vec<u8>) -> (answer:
    VerifierAnswer)
    requires
        key.len() <= u32::MAX,
        proof.len() <= u32::MAX,
        inputs.len() <= u32::MAX,
    ensures
        answer == ultrahonk_answer(key@, proof@, inputs@),
{
    let key = Bytes::from_slice(env, key.as_slice());
    let proof = Bytes::from_slice(env, proof.as_slice());
    let inputs = Bytes::from_slice(env, inputs.as_slice());
    match UltraHonkVerifier::new(env, &key) {
        Ok(verifier) => match verifier.verify(&proof, &inputs) {
            Ok(_) => VerifierAnswer::Accepted,
            Err(_) => VerifierAnswer::ProofRefused,
        },
        Err(_) => VerifierAnswer::KeyRefused,
    }
}

/// Whether the verifier accepts `proof` for `inputs` under `key`: only a
/// proof that verified counts. A key that does not load and a verification
/// that ends in an error both make the proof invalid.
pub open spec fn ultrahonk_accepts(key: Seq<u8>, proof: Seq<u8>, inputs: Seq<u8>) -> bool {
    ultrahonk_answer(key, proof, inputs) is Accepted
}

/// The key proper of a stored verification key: what follows its first four
/// bytes. A stored key of four bytes or fewer is taken as it is.
pub open spec fn key_body(stored: Seq<u8>) -> Seq<u8> {
    if stored.len() > KEY_PREFIX_BYTES {
        stored.subrange(KEY_PREFIX_BYTES as int, stored.len() as int)
    } else {
        stored
    }
}

/// Whether a proof counts as valid under a stored verification key: the byte
/// strings are short enough to be handed to the verifier, and the verifier
/// accepts the proof under the key proper.
pub open spec fn proof_holds(stored_key: Seq<u8>, proof: Seq<u8>, inputs: Seq<u8>) -> bool {
    &&& key_body(stored_key).len() <= u32::MAX
    &&& proof.len() <= u32::MAX
    &&& inputs.len() <= u32::MAX
    &&& ultrahonk_accepts(key_body(stored_key), proof, inputs)
}

/// Returns the key proper of a stored verification key.
pub fn strip_key_prefix(stored: &Vec<u8>) -> (key: Vec<u8>)
    ensures
        key@ == key_body(stored@),
{
    let start: usize = if stored.len() > KEY_PREFIX_BYTES {
        KEY_PREFIX_BYTES
    } else {
        0
    };
    let mut key: Vec<u8> = Vec::new();
    let mut i: usize = start;
    while i < stored.len()
        invariant
            start <= i <= stored.len(),
            key@ == stored@.subrange(start as int, i as int),
        decreases stored.len() - i,
    {
        key.push(stored[i]);
        assert(key@ =~= stored@.subrange(start as int, i + 1));
        i += 1;
    }
    assert(stored@.subrange(0, stored.len() as int) =~= stored@);
    key
}

/// Decides whether a proof counts as valid under a stored verification key.
/// A byte string too long for the verifier makes the proof invalid; anything
/// else is put to the verifier.
pub fn check_proof(env: &Env, stored_key: &Vec<u8>, proof: &Vec<u8>, inputs: &Vec<u8>) -> (ok: bool)
    ensures
        ok == proof_holds(stored_key@, proof@, inputs@),
{
    let key = strip_key_prefix(stored_key);
    if key.len() > 0xffff_ffff || proof.len() > 0xffff_ffff || inputs.len() > 0xffff_ffff {
        return false;
    }
    match ultrahonk_verify(env, &key, proof, inputs) {
        VerifierAnswer::Accepted => true,
        VerifierAnswer::ProofRefused => false,
        VerifierAnswer::KeyRefused => false,
    }
}

/// Whether a player's submission counts as valid under a stored verification
/// key: the proof holds for the public inputs made of the opponent's guess,
/// the player's commitment and the counts the player reports.
pub open spec fn submission_holds(
    stored_key: Seq<u8>,
    digits: u32,
    submission: ProofDataView,
    secret_hash: Seq<u8>,
    opponent_guess: u32,
) -> bool {
    proof_holds(
        stored_key,
        submission.proof,
        public_inputs_spec(
            digits,
            opponent_guess,
            secret_hash,
            submission.acertos,
            submission.permutados,
            submission.erros,
        ),
    )
}

/// Decides whether a player's submission counts as valid. The public inputs
/// are built here, from what the session holds, and never taken from the
/// player.
pub fn verify_zk_proof(
    env: &Env,
    stored_key: &Vec<u8>,
    digits: u32,
    proof_data: &ProofData,
    secret_hash: &[u8; 32],
    opponent_guess: u32,
) -> (valid: bool)
    ensures
        valid == submission_holds(stored_key@, digits, proof_data@, secret_hash@, opponent_guess),
{
    let inputs = public_inputs(
        digits,
        opponent_guess,
        secret_hash,
        proof_data.acertos,
        proof_data.permutados,
        proof_data.erros,
    );
    check_proof(env, stored_key, &proof_data.proof, &inputs)
}

} // verus!
