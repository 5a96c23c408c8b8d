use anchor_lang::prelude::Pubkey;
use noctis_finance::account::{authorize, ConfidentialAccount};
use noctis_finance::address::Key;
use noctis_finance::error::ErrorCode;
use noctis_finance::event::{AuditLog, Event};
use noctis_finance::scheme::{
    combine, decode_amount, invert, neutral, prove_transfer, verify_transfer, Commitment, Delta,
    TransferProof, ENCRYPTED_AMOUNT_LEN,
};
use noctis_finance::store::Ledger;
use noctis_finance::transfer::{
    confidential_tag, confidential_transfer, decide_transfer, initialize_confidential_account,
    settle_transfer, ConfidentialTransfer, InitializeConfidentialAccount,
};

fn program() -> Key {
    Key::new([7u8; 32])
}

fn alice() -> Key {
    Key::new([1u8; 32])
}

fn bob() -> Key {
    Key::new([2u8; 32])
}

fn address_of(owner: &Key) -> Key {
    noctis_finance::address::derive(owner, &confidential_tag(), &program()).expect("an address exists").0
}

/// A ledger with the records of Alice and Bob, and their addresses.
fn two_accounts() -> (Ledger, Key, Key) {
    let mut ledger = Ledger::new(program());
    let a = match initialize_confidential_account(
        &mut ledger,
        &InitializeConfidentialAccount { authority: alice() },
    ) {
        Ok(Event::AccountInitialized { address, .. }) => address,
        other => panic!("unexpected {:?}", other),
    };
    let b = match initialize_confidential_account(
        &mut ledger,
        &InitializeConfidentialAccount { authority: bob() },
    ) {
        Ok(Event::AccountInitialized { address, .. }) => address,
        other => panic!("unexpected {:?}", other),
    };
    (ledger, a, b)
}

/// The same, with `balance` committed on Alice's side, put there by the store.
fn funded(balance: u64) -> (Ledger, Key, Key) {
    let (mut ledger, a, b) = two_accounts();
    assert_eq!(
        ledger.apply_pair(&a, &b, Delta { value: balance }, Delta { value: 0 }),
        Ok((1, 1))
    );
    (ledger, a, b)
}

fn amount(v: u64) -> Vec<u8> {
    v.to_le_bytes().to_vec()
}

#[test]
fn derive_agrees_with_the_program_address_search() {
    let owner = alice();
    let (expected, bump) = Pubkey::find_program_address(
        &[b"confidential", &owner.to_bytes()],
        &Pubkey::new_from_array(program().to_bytes()),
    );
    let (address, found_bump) = noctis_finance::address::derive(&owner, &confidential_tag(), &program()).unwrap();
    assert_eq!(address.to_bytes(), expected.to_bytes());
    assert_eq!(found_bump, bump);
    assert_ne!(address, owner);
    assert_ne!(address, program());
}

#[test]
fn derive_is_deterministic_and_separates_owners_and_tags() {
    let tag = confidential_tag();
    assert_eq!(tag, b"confidential".to_vec());
    let first = noctis_finance::address::derive(&alice(), &tag, &program());
    let second = noctis_finance::address::derive(&alice(), &tag, &program());
    assert!(first.is_some());
    assert_eq!(first, second);
    assert_ne!(first, noctis_finance::address::derive(&bob(), &tag, &program()));
    assert_ne!(first, noctis_finance::address::derive(&alice(), &b"other".to_vec(), &program()));
    assert_ne!(first, noctis_finance::address::derive(&alice(), &tag, &Key::new([8u8; 32])));
}

#[test]
fn derive_finds_no_address_for_an_overlong_tag() {
    assert_eq!(noctis_finance::address::derive(&alice(), &vec![0u8; 33], &program()), None);
    assert!(noctis_finance::address::derive(&alice(), &vec![0u8; 32], &program()).is_some());
    assert!(noctis_finance::address::derive(&alice(), &Vec::new(), &program()).is_some());
}

#[test]
fn key_comparison_is_bytewise() {
    let mut bytes = [1u8; 32];
    assert!(alice().same(&Key::new(bytes)));
    bytes[31] = 0;
    assert!(!alice().same(&Key::new(bytes)));
    assert!(!alice().same(&bob()));
    assert_eq!(Key::new(bytes).to_bytes(), bytes);
}

#[test]
fn initialize_creates_a_neutral_record_at_the_derived_address() {
    let mut ledger = Ledger::new(program());
    assert_eq!(ledger.program_id(), program());
    let event = initialize_confidential_account(
        &mut ledger,
        &InitializeConfidentialAccount { authority: alice() },
    );
    let (expected, bump) = noctis_finance::address::derive(&alice(), &confidential_tag(), &program()).unwrap();
    assert_eq!(event, Ok(Event::AccountInitialized { address: expected, owner: alice() }));
    assert!(ledger.contains(&expected));
    let record = ledger.load(&expected).unwrap();
    assert_eq!(record.owner, alice());
    assert_eq!(record.commitment, Commitment { value: 0 });
    assert_eq!(record.derivation_tag, b"confidential".to_vec());
    assert_eq!(record.sequence, 0);
    assert_eq!(record.bump, bump);
}

#[test]
fn second_initialize_fails_with_already_exists() {
    let mut ledger = Ledger::new(program());
    let ctx = InitializeConfidentialAccount { authority: alice() };
    assert!(initialize_confidential_account(&mut ledger, &ctx).is_ok());
    assert_eq!(initialize_confidential_account(&mut ledger, &ctx), Err(ErrorCode::AlreadyExists));
    assert_eq!(ledger.create(alice(), confidential_tag()), Err(ErrorCode::AlreadyExists));
    let address = address_of(&alice());
    assert_eq!(ledger.load(&address).unwrap().sequence, 0);
    // Another tag for the same owner is another record.
    let other = ledger.create(alice(), b"savings".to_vec()).unwrap();
    assert_ne!(other, address);
    assert_eq!(ledger.create(alice(), b"savings".to_vec()), Err(ErrorCode::AlreadyExists));
}

#[test]
fn create_without_an_address_fails_with_address_mismatch() {
    let mut ledger = Ledger::new(program());
    assert_eq!(ledger.create(alice(), vec![0u8; 40]), Err(ErrorCode::AddressMismatch));
}

#[test]
fn load_of_a_missing_record_fails_with_not_found() {
    let (ledger, a, _) = two_accounts();
    assert!(ledger.load(&a).is_ok());
    assert_eq!(ledger.load(&alice()).err(), Some(ErrorCode::NotFound));
    assert!(!ledger.contains(&alice()));
}

#[test]
fn authorize_checks_the_signer_then_the_address() {
    let (ledger, a, b) = two_accounts();
    let record = ledger.load(&a).unwrap();
    assert_eq!(authorize(record, &alice(), &a, &program()), Ok(()));
    assert_eq!(authorize(record, &bob(), &a, &program()), Err(ErrorCode::Unauthorized));
    assert_eq!(authorize(record, &bob(), &b, &program()), Err(ErrorCode::Unauthorized));
    assert_eq!(authorize(record, &alice(), &b, &program()), Err(ErrorCode::AddressMismatch));
    assert_eq!(
        authorize(record, &alice(), &a, &Key::new([9u8; 32])),
        Err(ErrorCode::AddressMismatch)
    );
    let mut forged = record.clone();
    forged.bump = forged.bump.wrapping_sub(1);
    assert_eq!(authorize(&forged, &alice(), &a, &program()), Err(ErrorCode::AddressMismatch));
    assert!(record.is_authority(&alice()));
    assert!(!record.is_authority(&bob()));
}

#[test]
fn apply_delta_combines_and_steps_the_sequence() {
    let mut record = ConfidentialAccount::new(alice(), confidential_tag(), 254);
    assert_eq!(record.commitment, neutral());
    record.apply_delta(Delta { value: 40 });
    assert_eq!(record.commitment, Commitment { value: 40 });
    assert_eq!(record.sequence, 1);
    record.apply_delta(invert(Delta { value: 15 }));
    assert_eq!(record.commitment, Commitment { value: 25 });
    assert_eq!(record.sequence, 2);
    assert_eq!(record.owner, alice());
    assert_eq!(record.bump, 254);
    assert_eq!(record.derivation_tag, confidential_tag());
}

#[test]
fn group_arithmetic_wraps_at_two_to_the_sixty_fourth() {
    assert_eq!(combine(Commitment { value: u64::MAX }, Delta { value: 1 }), Commitment { value: 0 });
    assert_eq!(combine(Commitment { value: 3 }, Delta { value: 4 }), Commitment { value: 7 });
    assert_eq!(
        combine(Commitment { value: u64::MAX }, Delta { value: u64::MAX }),
        Commitment { value: u64::MAX - 1 }
    );
    assert_eq!(invert(Delta { value: 0 }), Delta { value: 0 });
    assert_eq!(invert(Delta { value: 1 }), Delta { value: u64::MAX });
    assert_eq!(invert(Delta { value: u64::MAX }), Delta { value: 1 });
    let c = Commitment { value: 0xdead_beef };
    let d = Delta { value: 0xffff_ffff_ffff_0000 };
    assert_eq!(combine(combine(c, d), invert(d)), c);
    assert_eq!(combine(combine(c, invert(d)), d), c);
}

#[test]
fn decode_amount_reads_least_significant_byte_first() {
    assert_eq!(ENCRYPTED_AMOUNT_LEN, 8);
    assert_eq!(decode_amount(&vec![1, 2, 3, 4, 5, 6, 7, 8]), 0x0807_0605_0403_0201);
    assert_eq!(decode_amount(&vec![0; 8]), 0);
    assert_eq!(decode_amount(&vec![255; 8]), u64::MAX);
    assert_eq!(decode_amount(&vec![5, 1, 0, 0, 0, 0, 0, 0]), 261);
}

#[test]
fn verifier_checks_length_then_conservation_then_range() {
    let from = Commitment { value: 300 };
    let to = Commitment { value: 9 };
    let good = prove_transfer(4, 261);
    assert_eq!(
        good,
        TransferProof {
            sequence: 4,
            debit: Delta { value: u64::MAX - 260 },
            credit: Delta { value: 261 }
        }
    );
    assert_eq!(
        verify_transfer(from, to, &amount(261), &good),
        Ok((Delta { value: u64::MAX - 260 }, Delta { value: 261 }))
    );
    for len in [0usize, 7, 9, 64] {
        assert_eq!(
            verify_transfer(from, to, &vec![0u8; len], &good),
            Err(ErrorCode::InvalidEncryptedAmount)
        );
    }
    // The credit is not the encrypted amount.
    assert_eq!(verify_transfer(from, to, &amount(260), &good), Err(ErrorCode::ProofInvalid));
    // The debit does not balance the credit.
    let lopsided = TransferProof { debit: Delta { value: u64::MAX - 259 }, ..good };
    assert_eq!(verify_transfer(from, to, &amount(261), &lopsided), Err(ErrorCode::ProofInvalid));
    // A lopsided proof is refused before the range is looked at.
    assert_eq!(
        verify_transfer(Commitment { value: 0 }, to, &amount(261), &lopsided),
        Err(ErrorCode::ProofInvalid)
    );
    assert_eq!(
        verify_transfer(Commitment { value: 260 }, to, &amount(261), &good),
        Err(ErrorCode::RangeCheckFailed)
    );
    assert!(verify_transfer(Commitment { value: 261 }, to, &amount(261), &good).is_ok());
}

#[test]
fn zero_transfer_succeeds_and_its_replay_conflicts() {
    let (mut ledger, a, b) = two_accounts();
    let ctx = ConfidentialTransfer { from: a, to: b, authority: alice() };
    let proof = prove_transfer(0, 0);
    assert_eq!(
        confidential_transfer(&mut ledger, &ctx, vec![0u8; 8], &proof),
        Ok(Event::TransferApplied { from: a, to: b, sequence_from: 1, sequence_to: 1 })
    );
    assert_eq!(ledger.load(&a).unwrap().sequence, 1);
    assert_eq!(ledger.load(&b).unwrap().sequence, 1);
    assert_eq!(
        confidential_transfer(&mut ledger, &ctx, vec![0u8; 8], &proof),
        Err(ErrorCode::SequenceConflict)
    );
    assert_eq!(ledger.load(&a).unwrap().sequence, 1);
    assert_eq!(ledger.load(&b).unwrap().sequence, 1);
}

#[test]
fn short_amount_is_rejected_and_nothing_is_touched() {
    let (mut ledger, a, b) = two_accounts();
    let ctx = ConfidentialTransfer { from: a, to: b, authority: alice() };
    assert_eq!(
        confidential_transfer(&mut ledger, &ctx, vec![0u8; 7], &prove_transfer(0, 0)),
        Err(ErrorCode::InvalidEncryptedAmount)
    );
    assert_eq!(ledger.load(&a).unwrap().sequence, 0);
    assert_eq!(ledger.load(&b).unwrap().sequence, 0);
    // The length is looked at before any record is: these two do not exist.
    let nowhere = ConfidentialTransfer { from: alice(), to: bob(), authority: alice() };
    for len in [0usize, 7, 9] {
        assert_eq!(
            confidential_transfer(&mut ledger, &nowhere, vec![0u8; len], &prove_transfer(0, 0)),
            Err(ErrorCode::InvalidEncryptedAmount)
        );
    }
}

#[test]
fn foreign_signer_is_unauthorized_and_sequences_stay() {
    let (mut ledger, a, b) = funded(100);
    let before_a = ledger.load(&a).unwrap().clone();
    let before_b = ledger.load(&b).unwrap().clone();
    for signer in [bob(), a, b, program()] {
        let ctx = ConfidentialTransfer { from: a, to: b, authority: signer };
        assert_eq!(
            confidential_transfer(&mut ledger, &ctx, amount(10), &prove_transfer(1, 10)),
            Err(ErrorCode::Unauthorized)
        );
    }
    assert_eq!(ledger.load(&a).unwrap(), &before_a);
    assert_eq!(ledger.load(&b).unwrap(), &before_b);
}

#[test]
fn self_transfer_is_rejected() {
    let (mut ledger, a, _) = funded(100);
    let ctx = ConfidentialTransfer { from: a, to: a, authority: alice() };
    assert_eq!(
        confidential_transfer(&mut ledger, &ctx, amount(10), &prove_transfer(1, 10)),
        Err(ErrorCode::InvalidSelfTransfer)
    );
    // Also with a malformed amount, a foreign signer, or no record at all.
    let odd = ConfidentialTransfer { from: a, to: a, authority: bob() };
    assert_eq!(
        confidential_transfer(&mut ledger, &odd, vec![0u8; 3], &prove_transfer(0, 0)),
        Err(ErrorCode::InvalidSelfTransfer)
    );
    let nowhere = ConfidentialTransfer { from: bob(), to: bob(), authority: bob() };
    assert_eq!(
        confidential_transfer(&mut ledger, &nowhere, amount(0), &prove_transfer(0, 0)),
        Err(ErrorCode::InvalidSelfTransfer)
    );
    assert_eq!(ledger.load(&a).unwrap().sequence, 1);
    assert_eq!(
        ledger.apply_pair(&a, &a, Delta { value: 1 }, Delta { value: 1 }),
        Err(ErrorCode::InvalidSelfTransfer)
    );
}

#[test]
fn missing_records_are_not_found() {
    let (mut ledger, a, b) = two_accounts();
    let proof = prove_transfer(0, 0);
    let no_sender = ConfidentialTransfer { from: alice(), to: b, authority: alice() };
    assert_eq!(
        confidential_transfer(&mut ledger, &no_sender, amount(0), &proof),
        Err(ErrorCode::NotFound)
    );
    let no_recipient = ConfidentialTransfer { from: a, to: bob(), authority: alice() };
    assert_eq!(
        confidential_transfer(&mut ledger, &no_recipient, amount(0), &proof),
        Err(ErrorCode::NotFound)
    );
    // A missing recipient is told before the signer is looked at.
    let both_wrong = ConfidentialTransfer { from: a, to: bob(), authority: bob() };
    assert_eq!(
        confidential_transfer(&mut ledger, &both_wrong, amount(0), &proof),
        Err(ErrorCode::NotFound)
    );
    assert_eq!(
        ledger.apply_pair(&a, &bob(), Delta { value: 1 }, Delta { value: 1 }),
        Err(ErrorCode::NotFound)
    );
    assert_eq!(ledger.load(&a).unwrap().sequence, 0);
}

#[test]
fn successful_transfer_moves_the_amount_and_steps_both_sequences() {
    let (mut ledger, a, b) = funded(100);
    let before_a = ledger.load(&a).unwrap().clone();
    let before_b = ledger.load(&b).unwrap().clone();
    let ctx = ConfidentialTransfer { from: a, to: b, authority: alice() };
    assert_eq!(
        confidential_transfer(&mut ledger, &ctx, amount(30), &prove_transfer(1, 30)),
        Ok(Event::TransferApplied { from: a, to: b, sequence_from: 2, sequence_to: 2 })
    );
    let after_a = ledger.load(&a).unwrap().clone();
    let after_b = ledger.load(&b).unwrap().clone();
    assert_eq!(after_a.commitment, Commitment { value: 70 });
    assert_eq!(after_b.commitment, Commitment { value: 30 });
    assert_eq!(after_a.sequence, before_a.sequence + 1);
    assert_eq!(after_b.sequence, before_b.sequence + 1);
    assert_eq!(
        ConfidentialAccount { commitment: before_a.commitment, sequence: 1, ..after_a },
        before_a
    );
    assert_eq!(
        ConfidentialAccount { commitment: before_b.commitment, sequence: 1, ..after_b },
        before_b
    );
}

#[test]
fn transfer_and_return_restore_both_commitments() {
    let (mut ledger, a, b) = funded(100);
    let there = ConfidentialTransfer { from: a, to: b, authority: alice() };
    let back = ConfidentialTransfer { from: b, to: a, authority: bob() };
    assert!(confidential_transfer(&mut ledger, &there, amount(64), &prove_transfer(1, 64)).is_ok());
    assert_eq!(ledger.load(&a).unwrap().commitment, Commitment { value: 36 });
    assert_eq!(ledger.load(&b).unwrap().commitment, Commitment { value: 64 });
    assert_eq!(
        confidential_transfer(&mut ledger, &back, amount(64), &prove_transfer(2, 64)),
        Ok(Event::TransferApplied { from: b, to: a, sequence_from: 3, sequence_to: 3 })
    );
    assert_eq!(ledger.load(&a).unwrap().commitment, Commitment { value: 100 });
    assert_eq!(ledger.load(&b).unwrap().commitment, Commitment { value: 0 });
}

#[test]
fn stale_or_early_proofs_conflict() {
    let (mut ledger, a, b) = funded(100);
    let ctx = ConfidentialTransfer { from: a, to: b, authority: alice() };
    for sequence in [0u64, 2, u64::MAX] {
        assert_eq!(
            confidential_transfer(&mut ledger, &ctx, amount(1), &prove_transfer(sequence, 1)),
            Err(ErrorCode::SequenceConflict)
        );
    }
    assert_eq!(ledger.load(&a).unwrap().commitment, Commitment { value: 100 });
    assert!(confidential_transfer(&mut ledger, &ctx, amount(1), &prove_transfer(1, 1)).is_ok());
}

#[test]
fn verifier_failures_pass_through_unchanged_and_change_nothing() {
    let (mut ledger, a, b) = funded(100);
    let ctx = ConfidentialTransfer { from: a, to: b, authority: alice() };
    assert_eq!(
        confidential_transfer(&mut ledger, &ctx, amount(101), &prove_transfer(1, 101)),
        Err(ErrorCode::RangeCheckFailed)
    );
    assert_eq!(
        confidential_transfer(&mut ledger, &ctx, amount(10), &prove_transfer(1, 11)),
        Err(ErrorCode::ProofInvalid)
    );
    let lopsided =
        TransferProof { sequence: 1, debit: Delta { value: 0 }, credit: Delta { value: 10 } };
    assert_eq!(
        confidential_transfer(&mut ledger, &ctx, amount(10), &lopsided),
        Err(ErrorCode::ProofInvalid)
    );
    assert_eq!(ledger.load(&a).unwrap().commitment, Commitment { value: 100 });
    assert_eq!(ledger.load(&a).unwrap().sequence, 1);
    assert_eq!(ledger.load(&b).unwrap().commitment, Commitment { value: 0 });
    assert_eq!(ledger.load(&b).unwrap().sequence, 1);
    // The whole balance may leave.
    assert!(confidential_transfer(&mut ledger, &ctx, amount(100), &prove_transfer(1, 100)).is_ok());
    assert_eq!(ledger.load(&a).unwrap().commitment, Commitment { value: 0 });
    assert_eq!(ledger.load(&b).unwrap().commitment, Commitment { value: 100 });
}

#[test]
fn only_a_sequence_conflict_is_retryable() {
    assert!(ErrorCode::SequenceConflict.is_retryable());
    for e in [
        ErrorCode::AlreadyExists,
        ErrorCode::NotFound,
        ErrorCode::Unauthorized,
        ErrorCode::AddressMismatch,
        ErrorCode::InvalidEncryptedAmount,
        ErrorCode::ProofInvalid,
        ErrorCode::RangeCheckFailed,
        ErrorCode::InvalidSelfTransfer,
    ] {
        assert!(!e.is_retryable());
    }
}

#[test]
fn audit_log_appends_until_full_and_then_drops() {
    let first = Event::AccountInitialized { address: alice(), owner: bob() };
    let second = Event::TransferApplied { from: alice(), to: bob(), sequence_from: 1, sequence_to: 2 };
    let mut log = AuditLog::new(2);
    assert_eq!(log.len(), 0);
    assert_eq!(log.get(0), None);
    assert!(log.record(first));
    assert!(log.record(second));
    assert!(!log.record(first));
    assert_eq!(log.len(), 2);
    assert_eq!(log.get(0), Some(first));
    assert_eq!(log.get(1), Some(second));
    assert_eq!(log.get(2), None);
    let mut none = AuditLog::new(0);
    assert!(!none.record(first));
    assert_eq!(none.len(), 0);
}

/// The records of Alice and Bob as a host would hand them over, Alice's with
/// `balance` committed, and the two addresses.
fn loaded(balance: u64) -> (ConfidentialAccount, ConfidentialAccount, Key, Key) {
    let (ledger, a, b) = funded(balance);
    (ledger.load(&a).unwrap().clone(), ledger.load(&b).unwrap().clone(), a, b)
}

#[test]
fn settle_changes_both_loaded_records_or_neither() {
    let (mut sender, mut recipient, a, b) = loaded(50);
    let ctx = ConfidentialTransfer { from: a, to: b, authority: alice() };
    assert_eq!(
        settle_transfer(&mut sender, &mut recipient, &ctx, &program(), &amount(20), &prove_transfer(1, 20)),
        Ok(Event::TransferApplied { from: a, to: b, sequence_from: 2, sequence_to: 2 })
    );
    assert_eq!(sender.commitment, Commitment { value: 30 });
    assert_eq!(recipient.commitment, Commitment { value: 20 });
    assert_eq!((sender.sequence, recipient.sequence), (2, 2));
    let kept = (sender.clone(), recipient.clone());
    assert_eq!(
        settle_transfer(&mut sender, &mut recipient, &ctx, &program(), &amount(31), &prove_transfer(2, 31)),
        Err(ErrorCode::RangeCheckFailed)
    );
    assert_eq!(
        settle_transfer(&mut sender, &mut recipient, &ctx, &program(), &amount(20), &prove_transfer(1, 20)),
        Err(ErrorCode::SequenceConflict)
    );
    assert_eq!((sender, recipient), kept);
}

#[test]
fn decide_refuses_in_the_stated_order() {
    let (sender, recipient, a, b) = loaded(50);
    let good = prove_transfer(1, 20);
    let ctx = ConfidentialTransfer { from: a, to: b, authority: alice() };
    assert_eq!(
        decide_transfer(&sender, &recipient, &ctx, &program(), &amount(20), &good),
        Ok((Delta { value: u64::MAX - 19 }, Delta { value: 20 }))
    );
    let same = ConfidentialTransfer { from: a, to: a, authority: bob() };
    assert_eq!(
        decide_transfer(&sender, &recipient, &same, &program(), &vec![0u8; 7], &good),
        Err(ErrorCode::InvalidSelfTransfer)
    );
    let foreign = ConfidentialTransfer { from: a, to: b, authority: bob() };
    assert_eq!(
        decide_transfer(&sender, &recipient, &foreign, &program(), &vec![0u8; 7], &good),
        Err(ErrorCode::InvalidEncryptedAmount)
    );
    assert_eq!(
        decide_transfer(&sender, &recipient, &foreign, &program(), &amount(20), &prove_transfer(0, 20)),
        Err(ErrorCode::Unauthorized)
    );
    // Alice's record presented at an address that is not its own.
    let moved = ConfidentialTransfer { from: bob(), to: b, authority: alice() };
    assert_eq!(
        decide_transfer(&sender, &recipient, &moved, &program(), &amount(20), &prove_transfer(0, 20)),
        Err(ErrorCode::AddressMismatch)
    );
    assert_eq!(
        decide_transfer(&sender, &recipient, &ctx, &Key::new([3u8; 32]), &amount(20), &good),
        Err(ErrorCode::AddressMismatch)
    );
    assert_eq!(
        decide_transfer(&sender, &recipient, &ctx, &program(), &amount(51), &prove_transfer(0, 51)),
        Err(ErrorCode::SequenceConflict)
    );
    assert_eq!(
        decide_transfer(&sender, &recipient, &ctx, &program(), &amount(51), &prove_transfer(1, 51)),
        Err(ErrorCode::RangeCheckFailed)
    );
}

#[test]
fn exhausted_counters_conflict() {
    let (mut sender, mut recipient, a, b) = loaded(50);
    let ctx = ConfidentialTransfer { from: a, to: b, authority: alice() };
    recipient.sequence = u64::MAX;
    assert_eq!(
        settle_transfer(&mut sender, &mut recipient, &ctx, &program(), &amount(1), &prove_transfer(1, 1)),
        Err(ErrorCode::SequenceConflict)
    );
    recipient.sequence = u64::MAX - 1;
    sender.sequence = u64::MAX;
    assert_eq!(
        settle_transfer(&mut sender, &mut recipient, &ctx, &program(), &amount(1), &prove_transfer(u64::MAX, 1)),
        Err(ErrorCode::SequenceConflict)
    );
    sender.sequence = u64::MAX - 1;
    assert_eq!(
        settle_transfer(&mut sender, &mut recipient, &ctx, &program(), &amount(1), &prove_transfer(u64::MAX - 1, 1)),
        Ok(Event::TransferApplied { from: a, to: b, sequence_from: u64::MAX, sequence_to: u64::MAX })
    );
}
