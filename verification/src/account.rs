use crate::address::{derived, matches_derivation, Key};
use crate::error::ErrorCode;
use crate::scheme::{combine, combined, neutral, Commitment, Delta};
use vstd::prelude::*;

verus! {

/// The record of one owner under one domain tag, as contracts see it.
pub struct AccountView {
    pub owner: Seq<u8>,
    pub commitment: Commitment,
    pub derivation_tag: Seq<u8>,
    pub sequence: u64,
    pub bump: u8,
}

/// The record of one owner under one domain tag. Owner, tag and bump never
/// change after creation; the commitment changes only together with a step of
/// the sequence counter.
#[derive(Clone, Debug, PartialEq, Eq)]
pub struct ConfidentialAccount {
    pub owner: Key,
    pub commitment: Commitment,
    pub derivation_tag: Vec<u8>,
    pub sequence: u64,
    pub bump: u8,
}

impl View for ConfidentialAccount {
    type V = AccountView;

    open spec fn view(&self) -> AccountView {
        AccountView {
            owner: self.owner@,
            commitment: self.commitment,
            derivation_tag: self.derivation_tag@,
            sequence: self.sequence,
            bump: self.bump,
        }
    }
}

/// The record that creation yields: neutral commitment, sequence zero.
pub open spec fn fresh(owner: Seq<u8>, tag: Seq<u8>, bump: u8) -> AccountView {
    AccountView {
        owner,
        commitment: Commitment { value: 0 },
        derivation_tag: tag,
        sequence: 0,
        bump,
    }
}

/// The record after one verified change: the commitment combined with the
/// change, the sequence one higher, everything else as before.
pub open spec fn applied(account: AccountView, delta: Delta) -> AccountView {
    AccountView {
        commitment: combined(account.commitment, delta),
        sequence: (account.sequence + 1) as u64,
        ..account
    }
}

/// What `authorize` answers for a record, a signer and the address at which
/// the record is claimed to stand under a program.
pub open spec fn authorization(
    account: AccountView,
    signer: Seq<u8>,
    address: Seq<u8>,
    program_id: Seq<u8>,
) -> Result<(), ErrorCode> {
    if signer != account.owner {
        Err(ErrorCode::Unauthorized)
    } else if derived(account.owner, account.derivation_tag, program_id) != Some(
        (address, account.bump),
    ) {
        Err(ErrorCode::AddressMismatch)
    } else {
        Ok(())
    }
}

impl ConfidentialAccount {
    /// A new record for `owner` under `tag`, derived with `bump`.
    pub fn new(owner: Key, tag: Vec<u8>, bump: u8) -> (account: ConfidentialAccount)
        ensures
            account@ == fresh(owner@, tag@, bump),
    {
        ConfidentialAccount {
            owner,
            commitment: neutral(),
            derivation_tag: tag,
            sequence: 0,
            bump,
        }
    }

    /// Whether `signer` is the authority over this record.
    pub fn is_authority(&self, signer: &Key) -> (r: bool)
        ensures
            r == (signer@ == self@.owner),
    {
        self.owner.same(signer)
    }

    /// Applies a verified change: combines it into the commitment and advances
    /// the sequence by one. It validates nothing; the caller has verified the
    /// change.
    pub fn apply_delta(&mut self, delta: Delta)
        requires
            old(self).sequence < u64::MAX,
        ensures
            final(self)@ == applied(old(self)@, delta),
    {
        self.commitment = combine(self.commitment, delta);
        self.sequence = self.sequence + 1;
    }
}

/// Checks that `signer` owns the record and that `address` is where the
/// record belongs: the address derived from its owner and tag under
/// `program_id`, with the bump it stores. The signer is checked first.
pub fn authorize(
    account: &ConfidentialAccount,
    signer: &Key,
    address: &Key,
    program_id: &Key,
) -> (r: Result<(), ErrorCode>)
    ensures
        r == authorization(account@, signer@, address@, program_id@),
{
    if !account.is_authority(signer) {
        return Err(ErrorCode::Unauthorized);
    }
    let found = crate::address::derive(&account.owner, &account.derivation_tag, program_id);
    if !matches_derivation(&found, address, account.bump) {
        return Err(ErrorCode::AddressMismatch);
    }
    Ok(())
}

} // verus!
