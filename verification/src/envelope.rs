use vstd::prelude::*;
use vstd::bytes::{spec_u16_from_le_bytes, u16_from_le_bytes};
use vstd::slice::slice_subrange;
use crate::errors::ResolveError;

verus! {

/// One entry of the signature envelope: a native-primitive invocation as
/// recorded in the caller's transaction. The whole entry is attacker
/// supplied; the verifier trusts only the shape it parses here.
pub struct InstructionEntry {
    /// The 32 identity bytes of the primitive the entry is addressed to.
    pub program_id: [u8; 32],
    /// How many auxiliary account references the entry declares.
    pub account_count: u64,
    /// The entry's raw payload.
    pub data: Vec<u8>,
}

/// A well-formed payload is longer than this: a 2-byte header, 14 bytes of
/// offsets, a 64-byte signature, a 32-byte key, and at least part of a
/// message must fit.
pub const MIN_PAYLOAD_LEN: usize = 112;

/// Where the embedded signature starts: a little-endian 16-bit offset read
/// from payload bytes 2..4.
pub open spec fn spec_sig_offset(d: Seq<u8>) -> int {
    spec_u16_from_le_bytes(d.subrange(2, 4)) as int
}

/// Where the embedded public key starts: read from payload bytes 6..8.
pub open spec fn spec_pubkey_offset(d: Seq<u8>) -> int {
    spec_u16_from_le_bytes(d.subrange(6, 8)) as int
}

/// Where the embedded message starts: read from payload bytes 10..12.
pub open spec fn spec_msg_offset(d: Seq<u8>) -> int {
    spec_u16_from_le_bytes(d.subrange(10, 12)) as int
}

/// The embedded message's length: read from payload bytes 12..14.
pub open spec fn spec_msg_len(d: Seq<u8>) -> int {
    spec_u16_from_le_bytes(d.subrange(12, 14)) as int
}

/// All three embedded regions lie inside the payload. The offsets are
/// untrusted, so every derived slice is bounds-checked before it is read.
pub open spec fn spec_offsets_in_bounds(d: Seq<u8>) -> bool {
    &&& spec_sig_offset(d) + 64 <= d.len()
    &&& spec_pubkey_offset(d) + 32 <= d.len()
    &&& spec_msg_offset(d) + spec_msg_len(d) <= d.len()
}

/// The embedded signature bytes.
pub open spec fn spec_embedded_sig(d: Seq<u8>) -> Seq<u8> {
    d.subrange(spec_sig_offset(d), spec_sig_offset(d) + 64)
}

/// The embedded public key bytes.
pub open spec fn spec_embedded_pubkey(d: Seq<u8>) -> Seq<u8> {
    d.subrange(spec_pubkey_offset(d), spec_pubkey_offset(d) + 32)
}

/// The embedded message bytes.
pub open spec fn spec_embedded_msg(d: Seq<u8>) -> Seq<u8> {
    d.subrange(spec_msg_offset(d), spec_msg_offset(d) + spec_msg_len(d))
}

/// What envelope verification yields: the checks in order, each with its own
/// error kind, and success only when every one of them holds of the entry at
/// the designated index.
pub open spec fn spec_verify(
    entries: Seq<InstructionEntry>,
    sig: Seq<u8>,
    expected_signer: Seq<u8>,
    expected_message: Seq<u8>,
    primitive_id: Seq<u8>,
) -> Result<(), ResolveError> {
    if entries.len() == 0 {
        Err(ResolveError::EnvelopeUnavailable)
    } else {
        let d = entries[0].data@;
        if entries[0].program_id@ != primitive_id {
            Err(ResolveError::NotVerificationPrimitive)
        } else if entries[0].account_count != 0 {
            Err(ResolveError::UnexpectedAccounts)
        } else if d.len() <= MIN_PAYLOAD_LEN {
            Err(ResolveError::MalformedPayload)
        } else if d[0] != 1 {
            Err(ResolveError::WrongSignatureCount)
        } else if !spec_offsets_in_bounds(d) {
            Err(ResolveError::MalformedPayload)
        } else if spec_embedded_sig(d) != sig {
            Err(ResolveError::SignatureMismatch)
        } else if spec_embedded_pubkey(d) != expected_signer {
            Err(ResolveError::SignerMismatch)
        } else if spec_embedded_msg(d) != expected_message {
            Err(ResolveError::MessageMismatch)
        } else {
            Ok(())
        }
    }
}

/// Byte-for-byte equality of two slices.
fn bytes_equal(a: &[u8], b: &[u8]) -> (r: bool)
    ensures
        r == (a@ == b@),
{
    if a.len() != b.len() {
        return false;
    }
    let mut i: usize = 0;
    while i < a.len()
        invariant
            i <= a@.len(),
            a@.len() == b@.len(),
            forall|j: int| 0 <= j < i ==> a@[j] == b@[j],
        decreases a@.len() - i,
    {
        if a[i] != b[i] {
            proof {
                assert(a@[i as int] != b@[i as int]);
            }
            return false;
        }
        i = i + 1;
    }
    proof {
        assert(a@ =~= b@);
    }
    true
}

/// Checks the envelope entry at the designated index against the supplied
/// signature, the expected signer's key bytes, the expected message, and the
/// identity of the signature-verification primitive. Succeeds exactly when
/// the entry is addressed to the primitive, carries no account references,
/// is well formed with exactly one signature record, and embeds this
/// signature, this signer, and this message; otherwise reports the error of
/// the first failing check. No side effects; no funds move here.
pub fn verify_ed25519_signature(
    entries: &Vec<InstructionEntry>,
    sig: &[u8],
    expected_signer: &[u8; 32],
    expected_message: &[u8],
    primitive_id: &[u8; 32],
) -> (r: Result<(), ResolveError>)
    ensures
        r == spec_verify(entries@, sig@, expected_signer@, expected_message@, primitive_id@),
{
    if entries.len() == 0 {
        return Err(ResolveError::EnvelopeUnavailable);
    }
    let entry = &entries[0];
    if !bytes_equal(entry.program_id.as_slice(), primitive_id.as_slice()) {
        return Err(ResolveError::NotVerificationPrimitive);
    }
    if entry.account_count != 0 {
        return Err(ResolveError::UnexpectedAccounts);
    }
    let d = entry.data.as_slice();
    if d.len() <= MIN_PAYLOAD_LEN {
        return Err(ResolveError::MalformedPayload);
    }
    if d[0] != 1 {
        return Err(ResolveError::WrongSignatureCount);
    }
    let sig_offset = u16_from_le_bytes(slice_subrange(d, 2, 4)) as usize;
    let pubkey_offset = u16_from_le_bytes(slice_subrange(d, 6, 8)) as usize;
    let msg_offset = u16_from_le_bytes(slice_subrange(d, 10, 12)) as usize;
    let msg_len = u16_from_le_bytes(slice_subrange(d, 12, 14)) as usize;
    if sig_offset + 64 > d.len() || pubkey_offset + 32 > d.len() || msg_offset + msg_len > d.len() {
        return Err(ResolveError::MalformedPayload);
    }
    if !bytes_equal(slice_subrange(d, sig_offset, sig_offset + 64), sig) {
        return Err(ResolveError::SignatureMismatch);
    }
    if !bytes_equal(slice_subrange(d, pubkey_offset, pubkey_offset + 32), expected_signer.as_slice()) {
        return Err(ResolveError::SignerMismatch);
    }
    if !bytes_equal(slice_subrange(d, msg_offset, msg_offset + msg_len), expected_message) {
        return Err(ResolveError::MessageMismatch);
    }
    Ok(())
}

/// Completeness law: a correctly constructed envelope verifies. If the entry
/// at the designated index is addressed to the primitive, carries no account
/// references, has a long-enough payload declaring exactly one signature,
/// keeps every embedded region in bounds, and embeds exactly the supplied
/// signature, the expected signer, and the expected message, verification
/// succeeds.
pub proof fn lemma_verifier_complete(
    entries: Seq<InstructionEntry>,
    sig: Seq<u8>,
    expected_signer: Seq<u8>,
    expected_message: Seq<u8>,
    primitive_id: Seq<u8>,
)
    requires
        entries.len() > 0,
        entries[0].program_id@ == primitive_id,
        entries[0].account_count == 0,
        entries[0].data@.len() > MIN_PAYLOAD_LEN,
        entries[0].data@[0] == 1,
        spec_offsets_in_bounds(entries[0].data@),
        spec_embedded_sig(entries[0].data@) == sig,
        spec_embedded_pubkey(entries[0].data@) == expected_signer,
        spec_embedded_msg(entries[0].data@) == expected_message,
    ensures
        spec_verify(entries, sig, expected_signer, expected_message, primitive_id)
            == Ok::<(), ResolveError>(()),
{
}

/// Soundness law: verification never succeeds on a violated envelope. If it
/// reports success, every one of its checks held: the entry existed, was
/// addressed to the primitive, carried no account references, was well
/// formed with exactly one signature record and in-bounds regions, and
/// embedded exactly the supplied signature, signer, and message.
pub proof fn lemma_verifier_sound(
    entries: Seq<InstructionEntry>,
    sig: Seq<u8>,
    expected_signer: Seq<u8>,
    expected_message: Seq<u8>,
    primitive_id: Seq<u8>,
)
    requires
        spec_verify(entries, sig, expected_signer, expected_message, primitive_id)
            == Ok::<(), ResolveError>(()),
    ensures
        entries.len() > 0,
        entries[0].program_id@ == primitive_id,
        entries[0].account_count == 0,
        entries[0].data@.len() > MIN_PAYLOAD_LEN,
        entries[0].data@[0] == 1,
        spec_offsets_in_bounds(entries[0].data@),
        spec_embedded_sig(entries[0].data@) == sig,
        spec_embedded_pubkey(entries[0].data@) == expected_signer,
        spec_embedded_msg(entries[0].data@) == expected_message,
{
}

} // verus!
