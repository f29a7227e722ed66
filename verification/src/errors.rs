use vstd::prelude::*;

verus! {

/// Every way a resolution attempt can fail. Each kind is terminal for the
/// attempt: the caller sees exactly one of these and no state has changed.
#[derive(Clone, Copy, Debug, PartialEq, Eq, Structural)]
pub enum ResolveError {
    /// No bet record exists under the requested seed (already resolved, or
    /// never placed).
    BetNotFound,
    /// The envelope has no entry at the designated index.
    EnvelopeUnavailable,
    /// The designated entry is not addressed to the signature-verification
    /// primitive.
    NotVerificationPrimitive,
    /// The designated entry carries auxiliary account references, which the
    /// verification primitive never takes.
    UnexpectedAccounts,
    /// The entry's payload is too short to be well formed, or one of its
    /// embedded offsets points past the end of the payload.
    MalformedPayload,
    /// The entry's header does not declare exactly one signature record.
    WrongSignatureCount,
    /// The signature embedded in the entry differs from the one supplied to
    /// the engine.
    SignatureMismatch,
    /// The public key embedded in the entry is not the house's key.
    SignerMismatch,
    /// The message embedded in the entry is not the canonical encoding of
    /// this bet.
    MessageMismatch,
    /// Payout arithmetic left the representable range.
    Overflow,
    /// The vault does not hold enough to cover the payout.
    InsufficientVaultBalance,
}

} // verus!
