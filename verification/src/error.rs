use vstd::prelude::*;

verus! {

/// Why an operation on the ledger was refused. Every error is terminal for the
/// operation that returned it: the ledger is left exactly as it was.
#[derive(Clone, Copy, Debug, PartialEq, Eq, Structural)]
pub enum ErrorCode {
    /// A record already stands at the address derived for this owner and tag.
    AlreadyExists,
    /// No record stands at the address.
    NotFound,
    /// The signer is not the owner of the record.
    Unauthorized,
    /// The address is not the one derived from the record's owner and tag.
    AddressMismatch,
    /// The encrypted amount does not have the length the scheme mandates.
    InvalidEncryptedAmount,
    /// The proof does not attest that what leaves one side enters the other.
    ProofInvalid,
    /// The sender's balance would fall below zero.
    RangeCheckFailed,
    /// Sender and recipient are the same account.
    InvalidSelfTransfer,
    /// The proof was made against another sequence number than the current one.
    SequenceConflict,
}

impl ErrorCode {
    /// Only a sequence conflict is worth retrying; every other error reports a
    /// malformed request or a policy violation.
    pub fn is_retryable(&self) -> (r: bool)
        ensures
            r == (*self == ErrorCode::SequenceConflict),
    {
        match self {
            ErrorCode::SequenceConflict => true,
            _ => false,
        }
    }
}

} // verus!
