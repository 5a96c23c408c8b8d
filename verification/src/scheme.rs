use crate::error::ErrorCode;
use vstd::prelude::*;

verus! {

/// Number of bytes of an encrypted amount under this scheme.
pub const ENCRYPTED_AMOUNT_LEN: usize = 8;

/// The order of the group in which commitments live: 2 to the 64th.
pub open spec fn group_order() -> int {
    0x1_0000_0000_0000_0000
}

/// A committed balance: an element of the additive group of integers modulo
/// `group_order()`. The ledger never reads it; only the scheme combines it.
#[derive(Clone, Copy, Debug, PartialEq, Eq, Structural)]
pub struct Commitment {
    pub value: u64,
}

/// A verified change to a commitment, applied with `combine`.
#[derive(Clone, Copy, Debug, PartialEq, Eq, Structural)]
pub struct Delta {
    pub value: u64,
}

/// What a sender hands in with a transfer: the sequence number of the sending
/// record that the proof was made against, and the two changes it claims, one
/// for each side.
#[derive(Clone, Copy, Debug, PartialEq, Eq, Structural)]
pub struct TransferProof {
    pub sequence: u64,
    pub debit: Delta,
    pub credit: Delta,
}

/// The group element that eight bytes encode, least significant byte first.
pub open spec fn amount_of(bytes: Seq<u8>) -> int
    recommends
        bytes.len() == 8,
{
    bytes[0] + bytes[1] * 0x100 + bytes[2] * 0x1_0000 + bytes[3] * 0x100_0000 + bytes[4]
        * 0x1_0000_0000 + bytes[5] * 0x100_0000_0000 + bytes[6] * 0x1_0000_0000_0000 + bytes[7]
        * 0x100_0000_0000_0000
}

/// The commitment that results from applying `d` to `c`: their sum in the group.
pub open spec fn combined(c: Commitment, d: Delta) -> Commitment {
    Commitment { value: ((c.value + d.value) % group_order()) as u64 }
}

/// The change that undoes `d`: its negative in the group.
pub open spec fn inverted(d: Delta) -> Delta {
    Delta { value: ((group_order() - d.value) % group_order()) as u64 }
}

/// What the verifier answers on two commitments, an encrypted amount and a
/// proof. The amount must have the mandated length. The proof must claim the
/// encrypted amount as the credit and its negative as the debit, so that what
/// leaves the sender is what reaches the recipient. The sender's commitment
/// must cover the amount, so that the balance it is left with is not negative.
/// The answer is the pair of changes, for the sender and for the recipient.
pub open spec fn verdict(
    from: Commitment,
    to: Commitment,
    encrypted_amount: Seq<u8>,
    proof: TransferProof,
) -> Result<(Delta, Delta), ErrorCode> {
    if encrypted_amount.len() != ENCRYPTED_AMOUNT_LEN {
        Err(ErrorCode::InvalidEncryptedAmount)
    } else if proof.credit.value != amount_of(encrypted_amount) || proof.debit != inverted(
        proof.credit,
    ) {
        Err(ErrorCode::ProofInvalid)
    } else if from.value < amount_of(encrypted_amount) {
        Err(ErrorCode::RangeCheckFailed)
    } else {
        Ok((proof.debit, proof.credit))
    }
}

/// The neutral commitment, which every new record starts with.
pub fn neutral() -> (c: Commitment)
    ensures
        c.value == 0,
        forall|d: Delta| combined(c, d).value == d.value,
{
    Commitment { value: 0 }
}

/// Applies a change to a commitment.
pub fn combine(c: Commitment, d: Delta) -> (r: Commitment)
    ensures
        r == combined(c, d),
{
    let room: u64 = u64::MAX - d.value;
    if c.value <= room {
        Commitment { value: c.value + d.value }
    } else {
        Commitment { value: c.value - room - 1 }
    }
}

/// The change that undoes `d`.
pub fn invert(d: Delta) -> (r: Delta)
    ensures
        r == inverted(d),
{
    if d.value == 0 {
        Delta { value: 0 }
    } else {
        Delta { value: u64::MAX - d.value + 1 }
    }
}

/// Reads an encrypted amount of the mandated length as a group element.
pub fn decode_amount(bytes: &Vec<u8>) -> (v: u64)
    requires
        bytes@.len() == ENCRYPTED_AMOUNT_LEN,
    ensures
        v == amount_of(bytes@),
{
    let b0: u64 = bytes[0] as u64;
    let b1: u64 = bytes[1] as u64;
    let b2: u64 = bytes[2] as u64;
    let b3: u64 = bytes[3] as u64;
    let b4: u64 = bytes[4] as u64;
    let b5: u64 = bytes[5] as u64;
    let b6: u64 = bytes[6] as u64;
    let b7: u64 = bytes[7] as u64;
    b0 + b1 * 0x100 + b2 * 0x1_0000 + b3 * 0x100_0000 + b4 * 0x1_0000_0000 + b5 * 0x100_0000_0000
        + b6 * 0x1_0000_0000_0000 + b7 * 0x100_0000_0000_0000
}

/// Validates a transfer against the two commitments it would change and
/// returns the changes to apply, for the sender and for the recipient. The
/// three checks come in a fixed order: the length of the encrypted amount,
/// then conservation, then the range of the sender's resulting balance.
pub fn verify_transfer(
    from: Commitment,
    to: Commitment,
    encrypted_amount: &Vec<u8>,
    proof: &TransferProof,
) -> (r: Result<(Delta, Delta), ErrorCode>)
    ensures
        r == verdict(from, to, encrypted_amount@, *proof),
{
    if encrypted_amount.len() != ENCRYPTED_AMOUNT_LEN {
        return Err(ErrorCode::InvalidEncryptedAmount);
    }
    let amount: u64 = decode_amount(encrypted_amount);
    let balancing: Delta = invert(proof.credit);
    if proof.credit.value != amount || proof.debit.value != balancing.value {
        return Err(ErrorCode::ProofInvalid);
    }
    if from.value < amount {
        return Err(ErrorCode::RangeCheckFailed);
    }
    Ok((proof.debit, proof.credit))
}

/// A proof for moving `amount` out of a record that stands at `sequence`.
pub fn prove_transfer(sequence: u64, amount: u64) -> (p: TransferProof)
    ensures
        p.sequence == sequence,
        p.credit.value == amount,
        p.debit == inverted(p.credit),
{
    let credit = Delta { value: amount };
    TransferProof { sequence, debit: invert(credit), credit }
}

/// Applying a change and then the change that undoes it restores the
/// commitment.
pub proof fn lemma_inverse_restores(c: Commitment, d: Delta)
    ensures
        combined(combined(c, d), inverted(d)) == c,
        combined(combined(c, inverted(d)), d) == c,
        inverted(inverted(d)) == d,
{
}

} // verus!
