use crate::account::AccountView;
use crate::error::ErrorCode;
use crate::scheme::{lemma_inverse_restores, Delta, TransferProof, ENCRYPTED_AMOUNT_LEN};
use crate::store::creation;
use crate::address::derived;
use crate::transfer::{settlement_decision, transfer_decision, transfer_outcome};
use vstd::prelude::*;

verus! {

/// Once a record has been created for an owner and a tag, creating one for
/// the same pair again fails with `AlreadyExists`.
pub proof fn lemma_second_creation_fails(
    accounts: Map<Seq<u8>, AccountView>,
    owner: Seq<u8>,
    tag: Seq<u8>,
    program_id: Seq<u8>,
)
    ensures
        creation(accounts, owner, tag, program_id) matches Ok(made) ==> (creation(
            made.1,
            owner,
            tag,
            program_id,
        ) matches Err(e) && e == ErrorCode::AlreadyExists),
{
}

/// A transfer between two different existing records, with an encrypted
/// amount of the mandated length, that is signed by anyone but the owner of
/// the sending record fails with `Unauthorized`.
pub proof fn lemma_foreign_signer_refused(
    accounts: Map<Seq<u8>, AccountView>,
    from: Seq<u8>,
    to: Seq<u8>,
    signer: Seq<u8>,
    encrypted_amount: Seq<u8>,
    proof: TransferProof,
)
    requires
        from != to,
        encrypted_amount.len() == ENCRYPTED_AMOUNT_LEN,
        accounts.dom().contains(from),
        accounts.dom().contains(to),
        signer != accounts[from].owner,
    ensures
        transfer_outcome(accounts, from, to, signer, encrypted_amount, proof) matches Err(e) && e
            == ErrorCode::Unauthorized,
{
}

/// A transfer from a record to itself fails with `InvalidSelfTransfer`,
/// whatever else it holds.
pub proof fn lemma_self_transfer_refused(
    accounts: Map<Seq<u8>, AccountView>,
    address: Seq<u8>,
    signer: Seq<u8>,
    encrypted_amount: Seq<u8>,
    proof: TransferProof,
)
    ensures
        transfer_outcome(accounts, address, address, signer, encrypted_amount, proof) matches Err(
            e,
        ) && e == ErrorCode::InvalidSelfTransfer,
{
}

/// An encrypted amount of any other length than the mandated one is refused
/// with `InvalidEncryptedAmount`, whether or not the records exist.
pub proof fn lemma_wrong_length_refused(
    accounts: Map<Seq<u8>, AccountView>,
    from: Seq<u8>,
    to: Seq<u8>,
    signer: Seq<u8>,
    encrypted_amount: Seq<u8>,
    proof: TransferProof,
)
    requires
        from != to,
        encrypted_amount.len() != ENCRYPTED_AMOUNT_LEN,
    ensures
        transfer_outcome(accounts, from, to, signer, encrypted_amount, proof) matches Err(e) && e
            == ErrorCode::InvalidEncryptedAmount,
{
}

/// A successful transfer advances the sequence numbers of sender and
/// recipient by exactly one. Besides the two commitments nothing else
/// changes: no record comes or goes, owner, tag and bump of the two records
/// stay, and every other record is as it was.
pub proof fn lemma_transfer_steps_both(
    accounts: Map<Seq<u8>, AccountView>,
    from: Seq<u8>,
    to: Seq<u8>,
    signer: Seq<u8>,
    encrypted_amount: Seq<u8>,
    proof: TransferProof,
)
    requires
        transfer_outcome(accounts, from, to, signer, encrypted_amount, proof) is Ok,
    ensures
        ({
            let done = transfer_outcome(accounts, from, to, signer, encrypted_amount, proof)->Ok_0;
            &&& done.2.dom() == accounts.dom()
            &&& done.2[from].sequence == accounts[from].sequence + 1
            &&& done.2[to].sequence == accounts[to].sequence + 1
            &&& done.0 == done.2[from].sequence
            &&& done.1 == done.2[to].sequence
            &&& done.2[from] == (AccountView {
                commitment: done.2[from].commitment,
                sequence: done.2[from].sequence,
                ..accounts[from]
            })
            &&& done.2[to] == (AccountView {
                commitment: done.2[to].commitment,
                sequence: done.2[to].sequence,
                ..accounts[to]
            })
            &&& forall|a: Seq<u8>| a != from && a != to ==> done.2[a] == accounts[a]
        }),
{
    let done = transfer_outcome(accounts, from, to, signer, encrypted_amount, proof)->Ok_0;
    assert(done.2.dom() =~= accounts.dom());
}

/// A proof that a transfer succeeded with cannot succeed again right after it:
/// the sending record has moved on, and the replay fails with
/// `SequenceConflict`.
pub proof fn lemma_replay_refused(
    accounts: Map<Seq<u8>, AccountView>,
    from: Seq<u8>,
    to: Seq<u8>,
    signer: Seq<u8>,
    encrypted_amount: Seq<u8>,
    proof: TransferProof,
)
    requires
        transfer_outcome(accounts, from, to, signer, encrypted_amount, proof) is Ok,
    ensures
        transfer_outcome(
            transfer_outcome(accounts, from, to, signer, encrypted_amount, proof)->Ok_0.2,
            from,
            to,
            signer,
            encrypted_amount,
            proof,
        ) matches Err(e) && e == ErrorCode::SequenceConflict,
{
}

/// A transfer followed by the transfer of the same encrypted amount back, both
/// successful, leaves both commitments as they were before the first.
pub proof fn lemma_return_restores_commitments(
    accounts: Map<Seq<u8>, AccountView>,
    from: Seq<u8>,
    to: Seq<u8>,
    signer_there: Seq<u8>,
    signer_back: Seq<u8>,
    encrypted_amount: Seq<u8>,
    proof_there: TransferProof,
    proof_back: TransferProof,
)
    requires
        transfer_outcome(accounts, from, to, signer_there, encrypted_amount, proof_there) is Ok,
        transfer_outcome(
            transfer_outcome(
                accounts,
                from,
                to,
                signer_there,
                encrypted_amount,
                proof_there,
            )->Ok_0.2,
            to,
            from,
            signer_back,
            encrypted_amount,
            proof_back,
        ) is Ok,
    ensures
        ({
            let there = transfer_outcome(
                accounts,
                from,
                to,
                signer_there,
                encrypted_amount,
                proof_there,
            )->Ok_0.2;
            let back = transfer_outcome(
                there,
                to,
                from,
                signer_back,
                encrypted_amount,
                proof_back,
            )->Ok_0.2;
            &&& back[from].commitment == accounts[from].commitment
            &&& back[to].commitment == accounts[to].commitment
        }),
{
    lemma_inverse_restores(accounts[from].commitment, proof_there.credit);
    lemma_inverse_restores(accounts[to].commitment, proof_there.credit);
}

/// For two records of a store, the sending one standing where its owner and
/// tag place it, the checks on the loaded records decide as the checks on the
/// store do.
pub proof fn lemma_settlement_agrees_with_store(
    accounts: Map<Seq<u8>, AccountView>,
    from: Seq<u8>,
    to: Seq<u8>,
    signer: Seq<u8>,
    program_id: Seq<u8>,
    encrypted_amount: Seq<u8>,
    proof: TransferProof,
)
    requires
        accounts.dom().contains(from),
        accounts.dom().contains(to),
    ensures
        derived(accounts[from].owner, accounts[from].derivation_tag, program_id) == Some(
            (from, accounts[from].bump),
        ) ==> settlement_decision(
            accounts[from],
            accounts[to],
            from,
            to,
            signer,
            program_id,
            encrypted_amount,
            proof,
        ) == transfer_decision(accounts, from, to, signer, encrypted_amount, proof),
{
}

/// A record that is presented at another address than the one its owner and
/// tag derive is refused with `AddressMismatch`, though its owner signs.
pub proof fn lemma_substituted_record_refused(
    sender: AccountView,
    recipient: AccountView,
    from: Seq<u8>,
    to: Seq<u8>,
    program_id: Seq<u8>,
    encrypted_amount: Seq<u8>,
    proof: TransferProof,
)
    requires
        from != to,
        encrypted_amount.len() == ENCRYPTED_AMOUNT_LEN,
    ensures
        derived(sender.owner, sender.derivation_tag, program_id) != Some((from, sender.bump))
            ==> settlement_decision(
            sender,
            recipient,
            from,
            to,
            sender.owner,
            program_id,
            encrypted_amount,
            proof,
        ) == Err::<(Delta, Delta), ErrorCode>(ErrorCode::AddressMismatch),
{
}

} // verus!
