use crate::account::{applied, authorization, authorize, AccountView, ConfidentialAccount};
use crate::address::Key;
use crate::error::ErrorCode;
use crate::event::{Event, EventView};
use crate::scheme::{verdict, verify_transfer, Delta, TransferProof, ENCRYPTED_AMOUNT_LEN};
use crate::store::{creation, pair_application, Ledger};
use vstd::prelude::*;

verus! {

/// A request to create the record of `authority`, signed by `authority`.
#[derive(Clone, Copy, Debug, PartialEq, Eq)]
pub struct InitializeConfidentialAccount {
    pub authority: Key,
}

/// A request to move a hidden amount from the record at `from` to the record
/// at `to`, signed by `authority`.
#[derive(Clone, Copy, Debug, PartialEq, Eq)]
pub struct ConfidentialTransfer {
    pub from: Key,
    pub to: Key,
    pub authority: Key,
}

/// The domain tag under which the records of this ledger are derived: the
/// ASCII bytes of the word "confidential".
pub open spec fn domain_tag() -> Seq<u8> {
    seq![99u8, 111u8, 110u8, 102u8, 105u8, 100u8, 101u8, 110u8, 116u8, 105u8, 97u8, 108u8]
}

/// The domain tag as bytes.
pub fn confidential_tag() -> (tag: Vec<u8>)
    ensures
        tag@ == domain_tag(),
{
    let tag = vec![99u8, 111u8, 110u8, 102u8, 105u8, 100u8, 101u8, 110u8, 116u8, 105u8, 97u8, 108u8];
    assert(tag@ =~= domain_tag());
    tag
}

/// Whether a transfer between two records that the host has loaded goes
/// ahead, and with which changes for the sender and for the recipient. The
/// checks come in this order, and the first that fails decides: sender and
/// recipient differ; the encrypted amount has the mandated length; the signer
/// owns the sending record, and that record belongs at the address it was
/// loaded from; the proof was made against the sending record's current
/// sequence number, and neither counter is exhausted; the verifier accepts the
/// proof.
pub open spec fn settlement_decision(
    sender: AccountView,
    recipient: AccountView,
    from: Seq<u8>,
    to: Seq<u8>,
    signer: Seq<u8>,
    program_id: Seq<u8>,
    encrypted_amount: Seq<u8>,
    proof: TransferProof,
) -> Result<(Delta, Delta), ErrorCode> {
    if from == to {
        Err(ErrorCode::InvalidSelfTransfer)
    } else if encrypted_amount.len() != ENCRYPTED_AMOUNT_LEN {
        Err(ErrorCode::InvalidEncryptedAmount)
    } else if authorization(sender, signer, from, program_id) is Err {
        Err(authorization(sender, signer, from, program_id)->Err_0)
    } else if proof.sequence != sender.sequence || sender.sequence == u64::MAX
        || recipient.sequence == u64::MAX {
        Err(ErrorCode::SequenceConflict)
    } else {
        verdict(sender.commitment, recipient.commitment, encrypted_amount, proof)
    }
}

/// Whether a transfer between two addresses of a store goes ahead, and with
/// which changes for the sender and for the recipient. The checks come in this order, and the first that fails
/// decides: sender and recipient differ; the encrypted amount has the mandated
/// length; both records exist; the signer owns the sending record; the proof
/// was made against the sending record's current sequence number, and neither
/// counter is exhausted; the verifier accepts the proof.
pub open spec fn transfer_decision(
    accounts: Map<Seq<u8>, AccountView>,
    from: Seq<u8>,
    to: Seq<u8>,
    signer: Seq<u8>,
    encrypted_amount: Seq<u8>,
    proof: TransferProof,
) -> Result<(Delta, Delta), ErrorCode> {
    if from == to {
        Err(ErrorCode::InvalidSelfTransfer)
    } else if encrypted_amount.len() != ENCRYPTED_AMOUNT_LEN {
        Err(ErrorCode::InvalidEncryptedAmount)
    } else if !accounts.dom().contains(from) || !accounts.dom().contains(to) {
        Err(ErrorCode::NotFound)
    } else if accounts[from].owner != signer {
        Err(ErrorCode::Unauthorized)
    } else if proof.sequence != accounts[from].sequence || accounts[from].sequence == u64::MAX
        || accounts[to].sequence == u64::MAX {
        Err(ErrorCode::SequenceConflict)
    } else {
        verdict(accounts[from].commitment, accounts[to].commitment, encrypted_amount, proof)
    }
}

/// What a transfer does to the records: the sequence numbers that result for
/// sender and recipient and the records after it, or the reason why nothing
/// changed.
pub open spec fn transfer_outcome(
    accounts: Map<Seq<u8>, AccountView>,
    from: Seq<u8>,
    to: Seq<u8>,
    signer: Seq<u8>,
    encrypted_amount: Seq<u8>,
    proof: TransferProof,
) -> Result<(u64, u64, Map<Seq<u8>, AccountView>), ErrorCode> {
    match transfer_decision(accounts, from, to, signer, encrypted_amount, proof) {
        Err(e) => Err(e),
        Ok((debit, credit)) => pair_application(accounts, from, to, debit, credit),
    }
}

/// Creates the record of the request's authority under the domain tag, with
/// neutral commitment and sequence zero, and returns the event that tells of
/// it. Fails, and changes nothing, where the record exists already or no
/// address can be derived for the authority.
pub fn initialize_confidential_account(
    ledger: &mut Ledger,
    ctx: &InitializeConfidentialAccount,
) -> (r: Result<Event, ErrorCode>)
    requires
        old(ledger).wf(),
    ensures
        final(ledger).wf(),
        final(ledger).program() == old(ledger).program(),
        match r {
            Ok(event) => creation(
                old(ledger)@,
                ctx.authority@,
                domain_tag(),
                old(ledger).program(),
            ) matches Ok(made) && final(ledger)@ == made.1 && event@
                == (EventView::AccountInitialized { address: made.0, owner: ctx.authority@ }),
            Err(e) => creation(
                old(ledger)@,
                ctx.authority@,
                domain_tag(),
                old(ledger).program(),
            ) matches Err(reason) && reason == e && final(ledger)@ == old(ledger)@,
        },
{
    match ledger.create(ctx.authority, confidential_tag()) {
        Ok(address) => Ok(Event::AccountInitialized { address, owner: ctx.authority }),
        Err(e) => Err(e),
    }
}

/// Runs every check of a transfer on the two records it would change, and
/// changes neither. The answer is the pair of verified changes, for the sender
/// and for the recipient.
pub fn decide_transfer(
    sender: &ConfidentialAccount,
    recipient: &ConfidentialAccount,
    ctx: &ConfidentialTransfer,
    program_id: &Key,
    encrypted_amount: &Vec<u8>,
    proof: &TransferProof,
) -> (r: Result<(Delta, Delta), ErrorCode>)
    ensures
        r == settlement_decision(
            sender@,
            recipient@,
            ctx.from@,
            ctx.to@,
            ctx.authority@,
            program_id@,
            encrypted_amount@,
            *proof,
        ),
{
    if ctx.from.same(&ctx.to) {
        return Err(ErrorCode::InvalidSelfTransfer);
    }
    if encrypted_amount.len() != ENCRYPTED_AMOUNT_LEN {
        return Err(ErrorCode::InvalidEncryptedAmount);
    }
    match authorize(sender, &ctx.authority, &ctx.from, program_id) {
        Ok(()) => {},
        Err(e) => {
            return Err(e);
        },
    }
    if proof.sequence != sender.sequence || sender.sequence == u64::MAX || recipient.sequence
        == u64::MAX {
        return Err(ErrorCode::SequenceConflict);
    }
    verify_transfer(sender.commitment, recipient.commitment, encrypted_amount, proof)
}

/// Moves a hidden amount between two records that the host has loaded from
/// the addresses `ctx.from` and `ctx.to` and holds exclusively. Every check
/// is made before either record changes: on success both commitments change
/// by the verified deltas and both sequence numbers advance by one; on
/// failure both records are as they were.
pub fn settle_transfer(
    sender: &mut ConfidentialAccount,
    recipient: &mut ConfidentialAccount,
    ctx: &ConfidentialTransfer,
    program_id: &Key,
    encrypted_amount: &Vec<u8>,
    proof: &TransferProof,
) -> (r: Result<Event, ErrorCode>)
    ensures
        match r {
            Ok(event) => {
                &&& settlement_decision(
                    old(sender)@,
                    old(recipient)@,
                    ctx.from@,
                    ctx.to@,
                    ctx.authority@,
                    program_id@,
                    encrypted_amount@,
                    *proof,
                ) matches Ok(deltas)
                &&& final(sender)@ == applied(old(sender)@, deltas.0)
                &&& final(recipient)@ == applied(old(recipient)@, deltas.1)
                &&& event@ == (EventView::TransferApplied {
                    from: ctx.from@,
                    to: ctx.to@,
                    sequence_from: final(sender)@.sequence,
                    sequence_to: final(recipient)@.sequence,
                })
            },
            Err(e) => {
                &&& settlement_decision(
                    old(sender)@,
                    old(recipient)@,
                    ctx.from@,
                    ctx.to@,
                    ctx.authority@,
                    program_id@,
                    encrypted_amount@,
                    *proof,
                ) matches Err(reason)
                &&& reason == e
                &&& final(sender)@ == old(sender)@
                &&& final(recipient)@ == old(recipient)@
            },
        },
{
    let (debit, credit) = match decide_transfer(
        sender,
        recipient,
        ctx,
        program_id,
        encrypted_amount,
        proof,
    ) {
        Ok(deltas) => deltas,
        Err(e) => {
            return Err(e);
        },
    };
    sender.apply_delta(debit);
    recipient.apply_delta(credit);
    Ok(
        Event::TransferApplied {
            from: ctx.from,
            to: ctx.to,
            sequence_from: sender.sequence,
            sequence_to: recipient.sequence,
        },
    )
}

/// Moves a hidden amount between two records of a store. On success both commitments
/// change by the verified deltas and both sequence numbers advance by one, in
/// one step; the event names the two records and their new sequence numbers,
/// and no amount. On failure the ledger is as it was, and the error is the one
/// that `transfer_decision` names.
pub fn confidential_transfer(
    ledger: &mut Ledger,
    ctx: &ConfidentialTransfer,
    encrypted_amount: Vec<u8>,
    proof: &TransferProof,
) -> (r: Result<Event, ErrorCode>)
    requires
        old(ledger).wf(),
    ensures
        final(ledger).wf(),
        final(ledger).program() == old(ledger).program(),
        match r {
            Ok(event) => transfer_outcome(
                old(ledger)@,
                ctx.from@,
                ctx.to@,
                ctx.authority@,
                encrypted_amount@,
                *proof,
            ) matches Ok(done) && final(ledger)@ == done.2 && event@
                == (EventView::TransferApplied {
                from: ctx.from@,
                to: ctx.to@,
                sequence_from: done.0,
                sequence_to: done.1,
            }),
            Err(e) => transfer_outcome(
                old(ledger)@,
                ctx.from@,
                ctx.to@,
                ctx.authority@,
                encrypted_amount@,
                *proof,
            ) matches Err(reason) && reason == e && final(ledger)@ == old(ledger)@,
        },
{
    if ctx.from.same(&ctx.to) {
        return Err(ErrorCode::InvalidSelfTransfer);
    }
    if encrypted_amount.len() != ENCRYPTED_AMOUNT_LEN {
        return Err(ErrorCode::InvalidEncryptedAmount);
    }
    let program_id = ledger.program_id();
    let sender = match ledger.load(&ctx.from) {
        Ok(account) => account,
        Err(e) => {
            return Err(e);
        },
    };
    let recipient = match ledger.load(&ctx.to) {
        Ok(account) => account,
        Err(e) => {
            return Err(e);
        },
    };
    proof {
        ledger.lemma_canonical(ctx.from@);
    }
    let (debit, credit) = match decide_transfer(
        sender,
        recipient,
        ctx,
        &program_id,
        &encrypted_amount,
        proof,
    ) {
        Ok(deltas) => deltas,
        Err(e) => {
            return Err(e);
        },
    };
    match ledger.apply_pair(&ctx.from, &ctx.to, debit, credit) {
        Ok((sequence_from, sequence_to)) => Ok(
            Event::TransferApplied { from: ctx.from, to: ctx.to, sequence_from, sequence_to },
        ),
        Err(e) => Err(e),
    }
}

} // verus!
