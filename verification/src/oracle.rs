use vstd::prelude::*;

use crate::account::{spec_id_bytes, id_to_bytes, lemma_id_bytes_injective, AccountId, ID_LEN};
use crate::errors::PV3Error;

verus! {

/// The well-known address of the host's native signature-verification
/// program, in this model's identity space.  The host executes an
/// instruction for that program before the settlement call; the program
/// aborts the whole transaction unless the signature embedded in its data
/// is a valid signature by the embedded key over the embedded message.
pub const ED25519_PROGRAM_ID: AccountId = 0xED25519;

/// A host instruction as the settlement path observes it: the program it
/// targets and its raw data bytes.
pub struct Instruction {
    /// The program the instruction invokes.
    pub program_id: AccountId,
    /// The instruction's data.
    pub data: Vec<u8>,
}

/// The canonical attestation message for a match result: the match
/// identity, the winner identity and the result hash, concatenated.  The
/// embedded match identity binds a signature to one match, so an
/// attestation for one match can never settle another.
pub open spec fn spec_result_message(match_id: AccountId, winner: AccountId, result_hash: Seq<u8>) -> Seq<u8> {
    spec_id_bytes(match_id) + spec_id_bytes(winner) + result_hash
}

/// An identity's encoding is exactly one key wide.
pub proof fn lemma_id_bytes_len(id: AccountId)
    ensures
        spec_id_bytes(id).len() == ID_LEN,
{
    vstd::bytes::lemma_auto_spec_u64_to_from_le_bytes();
}

/// The attestation message determines the match, the winner and the hash:
/// two equal messages name the same match identity, the same winner and
/// the same result hash.
pub proof fn lemma_result_message_binds(
    match_id1: AccountId,
    winner1: AccountId,
    hash1: Seq<u8>,
    match_id2: AccountId,
    winner2: AccountId,
    hash2: Seq<u8>,
)
    requires
        spec_result_message(match_id1, winner1, hash1) == spec_result_message(match_id2, winner2, hash2),
    ensures
        match_id1 == match_id2,
        winner1 == winner2,
        hash1 == hash2,
{
    let m1 = spec_result_message(match_id1, winner1, hash1);
    let m2 = spec_result_message(match_id2, winner2, hash2);
    lemma_id_bytes_len(match_id1);
    lemma_id_bytes_len(match_id2);
    lemma_id_bytes_len(winner1);
    lemma_id_bytes_len(winner2);
    assert(m1.subrange(0, 32) =~= spec_id_bytes(match_id1));
    assert(m2.subrange(0, 32) =~= spec_id_bytes(match_id2));
    lemma_id_bytes_injective(match_id1, match_id2);
    assert(m1.subrange(32, 64) =~= spec_id_bytes(winner1));
    assert(m2.subrange(32, 64) =~= spec_id_bytes(winner2));
    lemma_id_bytes_injective(winner1, winner2);
    assert(m1.subrange(64, m1.len() as int) =~= hash1);
    assert(m2.subrange(64, m2.len() as int) =~= hash2);
}

/// Build the canonical attestation message for a match result.
pub fn create_result_message(match_id: AccountId, winner: AccountId, result_hash: &Vec<u8>) -> (message: Vec<u8>)
    ensures
        message@ == spec_result_message(match_id, winner, result_hash@),
{
    let mut message = id_to_bytes(match_id);
    let mut winner_bytes = id_to_bytes(winner);
    message.append(&mut winner_bytes);
    let mut i: usize = 0;
    while i < result_hash.len()
        invariant
            i <= result_hash@.len(),
            message@ == spec_id_bytes(match_id) + spec_id_bytes(winner)
                + result_hash@.subrange(0, i as int),
        decreases result_hash@.len() - i,
    {
        message.push(result_hash[i]);
        i = i + 1;
        proof {
            assert(message@ =~= spec_id_bytes(match_id) + spec_id_bytes(winner)
                + result_hash@.subrange(0, i as int));
        }
    }
    proof {
        assert(result_hash@.subrange(0, result_hash@.len() as int) =~= result_hash@);
    }
    message
}

/// What a verification instruction's data must look like to attest
/// `message` under `pubkey` with `signature`, and the error reported at
/// the first check that fails: a minimum length, a single signature, the
/// claimed signature at offset 1, the signing key at offset 65, and the
/// attested message as the entire remainder from offset 97.
pub open spec fn spec_verification_error(
    signature: Seq<u8>,
    message: Seq<u8>,
    pubkey: AccountId,
    data: Seq<u8>,
) -> Option<PV3Error> {
    if data.len() < 112 {
        Some(PV3Error::InvalidSignatureData)
    } else if data[0] != 1 {
        Some(PV3Error::InvalidSignatureCount)
    } else if data.subrange(1, 65) != signature {
        Some(PV3Error::SignatureMismatch)
    } else if data.subrange(65, 97) != spec_id_bytes(pubkey) {
        Some(PV3Error::PublicKeyMismatch)
    } else if data.len() != 97 + message.len() || data.subrange(97, data.len() as int) != message {
        Some(PV3Error::InvalidSignatureData)
    } else {
        None
    }
}

/// Whether `expect` occurs in `data` at offset `off`.
fn bytes_match_at(data: &Vec<u8>, off: usize, expect: &Vec<u8>) -> (matched: bool)
    requires
        off + expect@.len() <= data@.len(),
    ensures
        matched == (data@.subrange(off as int, off + expect@.len()) == expect@),
{
    let n = expect.len();
    let data_len = data.len();
    let mut i: usize = 0;
    while i < n
        invariant
            i <= n,
            n == expect@.len(),
            data_len == data@.len(),
            off + n <= data_len,
            forall|j: int| 0 <= j < i ==> data@[off + j] == expect@[j],
        decreases n - i,
    {
        if data[off + i] != expect[i] {
            proof {
                assert(data@.subrange(off as int, off + expect@.len())[i as int] == data@[off + i]);
            }
            return false;
        }
        i = i + 1;
    }
    proof {
        assert(data@.subrange(off as int, off + expect@.len()) =~= expect@);
    }
    true
}

/// Check that the co-submitted verification instruction's data attests
/// exactly `message` with `signature` under `pubkey`.  The cryptographic
/// validity of the signature itself is the host verification program's
/// doing; this check binds that validity to the claimed signature, the
/// configured key and this exact message.
pub fn verify_ed25519_signature(
    signature: &Vec<u8>,
    message: &Vec<u8>,
    pubkey: AccountId,
    instruction_data: &Vec<u8>,
) -> (r: Result<(), PV3Error>)
    ensures
        spec_verification_error(signature@, message@, pubkey, instruction_data@) matches Some(e)
            ==> r == Err::<(), PV3Error>(e),
        spec_verification_error(signature@, message@, pubkey, instruction_data@) is None
            ==> r is Ok,
{
    if instruction_data.len() < 112 {
        return Err(PV3Error::InvalidSignatureData);
    }
    if instruction_data[0] != 1 {
        return Err(PV3Error::InvalidSignatureCount);
    }
    if signature.len() != 64 || !bytes_match_at(instruction_data, 1, signature) {
        proof {
            if signature@.len() != 64 {
                assert(instruction_data@.subrange(1, 65).len() == 64);
            }
        }
        return Err(PV3Error::SignatureMismatch);
    }
    let pubkey_bytes = id_to_bytes(pubkey);
    if !bytes_match_at(instruction_data, 65, &pubkey_bytes) {
        return Err(PV3Error::PublicKeyMismatch);
    }
    if instruction_data.len() - 97 != message.len() || !bytes_match_at(instruction_data, 97, message) {
        return Err(PV3Error::InvalidSignatureData);
    }
    proof {
        assert(instruction_data@.subrange(97, instruction_data@.len() as int) =~= message@);
    }
    Ok(())
}

} // verus!
