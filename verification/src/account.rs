use vstd::prelude::*;

verus! {

/// A logical ledger identity: a user wallet, an escrow sub-account, the
/// treasury, the referral pool, or a signing key.  The host addresses
/// accounts by 32-byte keys; this model carries the distinguishing value in
/// the low eight bytes of that encoding and keeps the remainder zero.
pub type AccountId = u64;

/// Length in bytes of one encoded identity.
pub const ID_LEN: usize = 32;

/// The 32-byte wire encoding of an identity: its value in little-endian
/// order, zero-padded to the full key width.
pub open spec fn spec_id_bytes(id: AccountId) -> Seq<u8> {
    vstd::bytes::spec_u64_to_le_bytes(id) + Seq::new(24, |_i: int| 0u8)
}

/// Two identities with the same encoding are the same identity.
pub proof fn lemma_id_bytes_injective(a: AccountId, b: AccountId)
    requires
        spec_id_bytes(a) == spec_id_bytes(b),
    ensures
        a == b,
{
    vstd::bytes::lemma_auto_spec_u64_to_from_le_bytes();
    assert(spec_id_bytes(a).subrange(0, 8) =~= vstd::bytes::spec_u64_to_le_bytes(a));
    assert(spec_id_bytes(b).subrange(0, 8) =~= vstd::bytes::spec_u64_to_le_bytes(b));
}

/// Encode an identity as its 32-byte key.
pub fn id_to_bytes(id: AccountId) -> (bytes: Vec<u8>)
    ensures
        bytes@ == spec_id_bytes(id),
        bytes@.len() == ID_LEN,
{
    let mut bytes = vstd::bytes::u64_to_le_bytes(id);
    proof {
        vstd::bytes::lemma_auto_spec_u64_to_from_le_bytes();
    }
    let mut i: usize = 0;
    while i < 24
        invariant
            i <= 24,
            bytes@ == vstd::bytes::spec_u64_to_le_bytes(id) + Seq::new(i as nat, |_j: int| 0u8),
        decreases 24 - i,
    {
        bytes.push(0u8);
        i = i + 1;
        proof {
            assert(bytes@ =~= vstd::bytes::spec_u64_to_le_bytes(id)
                + Seq::new(i as nat, |_j: int| 0u8));
        }
    }
    proof {
        assert(bytes@ =~= spec_id_bytes(id));
    }
    bytes
}

} // verus!
