use crate::account::{applied, fresh, AccountView, ConfidentialAccount};
use crate::address::{derived, Key, MAX_SEED_LEN};
use crate::error::ErrorCode;
use crate::scheme::Delta;
use vstd::prelude::*;

verus! {

/// One record together with the address at which it stands.
struct Slot {
    address: Key,
    account: ConfidentialAccount,
}

/// Whether a record stands at `address` among `slots`.
spec fn has_slot(slots: Seq<Slot>, address: Seq<u8>) -> bool {
    exists|i: int| #![trigger slots[i]] 0 <= i < slots.len() && slots[i].address@ == address
}

/// The place among `slots` of the record that stands at `address`.
spec fn slot_of(slots: Seq<Slot>, address: Seq<u8>) -> int {
    choose|i: int| #![trigger slots[i]] 0 <= i < slots.len() && slots[i].address@ == address
}

/// No two slots share an address.
spec fn distinct_addresses(slots: Seq<Slot>) -> bool {
    forall|i: int, j: int|
        #![trigger slots[i], slots[j]]
        0 <= i < slots.len() && 0 <= j < slots.len() && i != j ==> slots[i].address@
            != slots[j].address@
}

/// Every slot stands at the address derived from its record's owner and tag
/// under `program_id`, and its record stores the bump of that derivation.
spec fn canonically_placed(slots: Seq<Slot>, program_id: Seq<u8>) -> bool {
    forall|i: int|
        #![trigger slots[i]]
        0 <= i < slots.len() ==> derived(
            slots[i].account@.owner,
            slots[i].account@.derivation_tag,
            program_id,
        ) == Some((slots[i].address@, slots[i].account@.bump))
}

/// The records as a map from address to record.
spec fn records(slots: Seq<Slot>) -> Map<Seq<u8>, AccountView> {
    Map::new(
        |address: Seq<u8>| has_slot(slots, address),
        |address: Seq<u8>| slots[slot_of(slots, address)].account@,
    )
}

/// What creating a record for `owner` under `tag` does to the records of a
/// program: the address of the new record and the records with it added, or
/// the reason why none was added.
pub open spec fn creation(
    accounts: Map<Seq<u8>, AccountView>,
    owner: Seq<u8>,
    tag: Seq<u8>,
    program_id: Seq<u8>,
) -> Result<(Seq<u8>, Map<Seq<u8>, AccountView>), ErrorCode> {
    match derived(owner, tag, program_id) {
        None => Err(ErrorCode::AddressMismatch),
        Some((address, bump)) => if accounts.dom().contains(address) {
            Err(ErrorCode::AlreadyExists)
        } else {
            Ok((address, accounts.insert(address, fresh(owner, tag, bump))))
        },
    }
}

/// What applying a pair of verified changes does: the two sequence numbers
/// that result, for `from` and for `to`, and the records with both changes
/// made, or the reason why neither was made.
pub open spec fn pair_application(
    accounts: Map<Seq<u8>, AccountView>,
    from: Seq<u8>,
    to: Seq<u8>,
    debit: Delta,
    credit: Delta,
) -> Result<(u64, u64, Map<Seq<u8>, AccountView>), ErrorCode> {
    if from == to {
        Err(ErrorCode::InvalidSelfTransfer)
    } else if !accounts.dom().contains(from) || !accounts.dom().contains(to) {
        Err(ErrorCode::NotFound)
    } else if accounts[from].sequence == u64::MAX || accounts[to].sequence == u64::MAX {
        Err(ErrorCode::SequenceConflict)
    } else {
        Ok(
            (
                applied(accounts[from], debit).sequence,
                applied(accounts[to], credit).sequence,
                accounts.insert(from, applied(accounts[from], debit)).insert(
                    to,
                    applied(accounts[to], credit),
                ),
            ),
        )
    }
}

/// In a sequence without repeated addresses, a slot is found by its address.
proof fn lemma_slot_found(slots: Seq<Slot>, i: int)
    requires
        distinct_addresses(slots),
        0 <= i < slots.len(),
    ensures
        has_slot(slots, slots[i].address@),
        slot_of(slots, slots[i].address@) == i,
        records(slots).dom().contains(slots[i].address@),
        records(slots)[slots[i].address@] == slots[i].account@,
{
    let a = slots[i].address@;
    assert(has_slot(slots, a));
    let k = slot_of(slots, a);
    assert(0 <= k < slots.len() && slots[k].address@ == a);
}

/// Replacing the record of one slot, and not its address, replaces that
/// record in the map and nothing else.
proof fn lemma_records_update(before: Seq<Slot>, after: Seq<Slot>, i: int)
    requires
        distinct_addresses(before),
        0 <= i < before.len(),
        after.len() == before.len(),
        after[i].address@ == before[i].address@,
        forall|j: int| 0 <= j < before.len() && j != i ==> after[j] == before[j],
    ensures
        distinct_addresses(after),
        records(after) =~= records(before).insert(before[i].address@, after[i].account@),
{
    assert forall|j: int| 0 <= j < before.len() implies #[trigger] after[j].address@
        == before[j].address@ by {}
    assert(distinct_addresses(after)) by {
        assert forall|x: int, y: int|
            #![trigger after[x], after[y]]
            0 <= x < after.len() && 0 <= y < after.len() && x != y implies after[x].address@
            != after[y].address@ by {
            assert(before[x].address@ != before[y].address@);
        }
    }
    let target = records(before).insert(before[i].address@, after[i].account@);
    assert forall|a: Seq<u8>| records(after).dom().contains(a) <==> target.dom().contains(a) by {
        if has_slot(after, a) {
            let k = slot_of(after, a);
            assert(before[k].address@ == a);
        }
        if has_slot(before, a) {
            let k = slot_of(before, a);
            assert(after[k].address@ == a);
        }
        lemma_slot_found(before, i);
        lemma_slot_found(after, i);
    }
    assert forall|a: Seq<u8>| records(after).dom().contains(a) implies records(after)[a]
        == target[a] by {
        let k = slot_of(after, a);
        lemma_slot_found(after, k);
        lemma_slot_found(before, k);
    }
}

/// The commitment store of one program: the records of that program, each at
/// the address derived for its owner and tag, at most one at each address.
pub struct Ledger {
    program_id: Key,
    slots: Vec<Slot>,
}

impl View for Ledger {
    type V = Map<Seq<u8>, AccountView>;

    closed spec fn view(&self) -> Map<Seq<u8>, AccountView> {
        records(self.slots@)
    }
}

impl Ledger {
    /// The program under which the addresses of this store are derived.
    pub closed spec fn program(&self) -> Seq<u8> {
        self.program_id@
    }

    /// The store's invariant: no address holds two records, and every record
    /// stands where its owner and tag place it.
    pub closed spec fn wf(&self) -> bool {
        &&& distinct_addresses(self.slots@)
        &&& canonically_placed(self.slots@, self.program_id@)
    }

    /// An empty store for the program `program_id`.
    pub fn new(program_id: Key) -> (ledger: Ledger)
        ensures
            ledger.wf(),
            ledger.program() == program_id@,
            ledger@ == Map::<Seq<u8>, AccountView>::empty(),
    {
        let ledger = Ledger { program_id, slots: Vec::new() };
        assert(ledger@ =~= Map::<Seq<u8>, AccountView>::empty());
        ledger
    }

    pub fn program_id(&self) -> (id: Key)
        ensures
            id@ == self.program(),
    {
        self.program_id
    }

    /// Every record of a well-formed store stands at the address derived from
    /// its owner and tag, and stores the bump of that derivation.
    pub proof fn lemma_canonical(&self, address: Seq<u8>)
        requires
            self.wf(),
            self@.dom().contains(address),
        ensures
            derived(self@[address].owner, self@[address].derivation_tag, self.program()) == Some(
                (address, self@[address].bump),
            ),
    {
        let k = slot_of(self.slots@, address);
        assert(self.slots@[k].address@ == address);
    }

    /// A well-formed store holds at most one record for an owner and a tag.
    pub proof fn lemma_one_record_per_pair(&self, first: Seq<u8>, second: Seq<u8>)
        requires
            self.wf(),
            self@.dom().contains(first),
            self@.dom().contains(second),
            self@[first].owner == self@[second].owner,
            self@[first].derivation_tag == self@[second].derivation_tag,
        ensures
            first == second,
    {
        self.lemma_canonical(first);
        self.lemma_canonical(second);
    }

    fn find(&self, address: &Key) -> (r: Option<usize>)
        requires
            self.wf(),
        ensures
            match r {
                Some(i) => i < self.slots@.len() && self.slots@[i as int].address@ == address@
                    && self@.dom().contains(address@) && self@[address@]
                    == self.slots@[i as int].account@,
                None => !self@.dom().contains(address@),
            },
    {
        let mut i: usize = 0;
        while i < self.slots.len()
            invariant
                self.wf(),
                i <= self.slots@.len(),
                forall|j: int|
                    #![trigger self.slots@[j]]
                    0 <= j < i ==> self.slots@[j].address@ != address@,
            decreases self.slots@.len() - i,
        {
            if self.slots[i].address.same(address) {
                proof {
                    lemma_slot_found(self.slots@, i as int);
                }
                return Some(i);
            }
            i += 1;
        }
        None
    }

    /// Whether a record stands at `address`.
    pub fn contains(&self, address: &Key) -> (r: bool)
        requires
            self.wf(),
        ensures
            r == self@.dom().contains(address@),
    {
        self.find(address).is_some()
    }

    /// The record that stands at `address`.
    pub fn load(&self, address: &Key) -> (r: Result<&ConfidentialAccount, ErrorCode>)
        requires
            self.wf(),
        ensures
            match r {
                Ok(account) => self@.dom().contains(address@) && account@ == self@[address@],
                Err(e) => e == ErrorCode::NotFound && !self@.dom().contains(address@),
            },
    {
        match self.find(address) {
            Some(i) => Ok(&self.slots[i].account),
            None => Err(ErrorCode::NotFound),
        }
    }

    /// Creates the record of `owner` under `tag`, with neutral commitment and
    /// sequence zero, at the address derived for the pair, and returns that
    /// address. Fails with `AlreadyExists` where a record stands there, and
    /// with `AddressMismatch` where no address can be derived for the pair.
    pub fn create(&mut self, owner: Key, tag: Vec<u8>) -> (r: Result<Key, ErrorCode>)
        requires
            old(self).wf(),
        ensures
            final(self).wf(),
            final(self).program() == old(self).program(),
            tag@.len() > MAX_SEED_LEN ==> r == Err::<Key, ErrorCode>(ErrorCode::AddressMismatch),
            match r {
                Ok(address) => creation(old(self)@, owner@, tag@, old(self).program()) matches Ok(
                    made,
                ) && made.0 == address@ && made.1 == final(self)@,
                Err(e) => creation(old(self)@, owner@, tag@, old(self).program()) matches Err(
                    reason,
                ) && reason == e && final(self)@ == old(self)@,
            },
    {
        let (address, bump) = match crate::address::derive(&owner, &tag, &self.program_id) {
            Some(found) => found,
            None => {
                return Err(ErrorCode::AddressMismatch);
            },
        };
        if self.find(&address).is_some() {
            return Err(ErrorCode::AlreadyExists);
        }
        let ghost before = self.slots@;
        let account = ConfidentialAccount::new(owner, tag, bump);
        self.slots.push(Slot { address, account });
        proof {
            let after = self.slots@;
            let last = before.len() as int;
            assert forall|j: int| 0 <= j < before.len() implies #[trigger] after[j]
                == before[j] by {}
            assert(!has_slot(before, address@));
            assert(distinct_addresses(after)) by {
                assert forall|x: int, y: int|
                    #![trigger after[x], after[y]]
                    0 <= x < after.len() && 0 <= y < after.len() && x != y implies after[x].address@
                    != after[y].address@ by {
                    if x < last && y < last {
                        assert(before[x].address@ != before[y].address@);
                    } else if x < last {
                        assert(before[x].address@ != address@);
                    } else {
                        assert(before[y].address@ != address@);
                    }
                }
            }
            let target = records(before).insert(address@, account@);
            assert forall|a: Seq<u8>| records(after).dom().contains(a) <==> target.dom().contains(
                a,
            ) by {
                if has_slot(after, a) {
                    let k = slot_of(after, a);
                    if k < last {
                        assert(before[k].address@ == a);
                    }
                }
                if has_slot(before, a) {
                    let k = slot_of(before, a);
                    assert(after[k].address@ == a);
                }
                lemma_slot_found(after, last);
            }
            assert forall|a: Seq<u8>| records(after).dom().contains(a) implies records(after)[a]
                == target[a] by {
                let k = slot_of(after, a);
                lemma_slot_found(after, k);
                if k < last {
                    lemma_slot_found(before, k);
                }
            }
            assert(records(after) =~= target);
        }
        Ok(address)
    }

    /// Applies two verified changes as one step: `debit` to the record at
    /// `from` and `credit` to the record at `to`, each with a step of its
    /// sequence counter. Both records are found and both counters checked
    /// before either record changes, so that either both change or neither
    /// does. It validates neither change; the caller has verified them.
    pub fn apply_pair(&mut self, from: &Key, to: &Key, debit: Delta, credit: Delta) -> (r: Result<
        (u64, u64),
        ErrorCode,
    >)
        requires
            old(self).wf(),
        ensures
            final(self).wf(),
            final(self).program() == old(self).program(),
            match r {
                Ok(sequences) => pair_application(old(self)@, from@, to@, debit, credit) matches Ok(
                    done,
                ) && done.0 == sequences.0 && done.1 == sequences.1 && done.2 == final(self)@,
                Err(e) => pair_application(old(self)@, from@, to@, debit, credit) matches Err(
                    reason,
                ) && reason == e && final(self)@ == old(self)@,
            },
    {
        if from.same(to) {
            return Err(ErrorCode::InvalidSelfTransfer);
        }
        let i = match self.find(from) {
            Some(i) => i,
            None => {
                return Err(ErrorCode::NotFound);
            },
        };
        let j = match self.find(to) {
            Some(j) => j,
            None => {
                return Err(ErrorCode::NotFound);
            },
        };
        if self.slots[i].account.sequence == u64::MAX || self.slots[j].account.sequence
            == u64::MAX {
            return Err(ErrorCode::SequenceConflict);
        }
        let ghost before = self.slots@;
        self.slots[i].account.apply_delta(debit);
        let ghost middle = self.slots@;
        self.slots[j].account.apply_delta(credit);
        let ghost after = self.slots@;
        proof {
            lemma_records_update(before, middle, i as int);
            lemma_slot_found(middle, j as int);
            lemma_records_update(middle, after, j as int);
        }
        Ok((self.slots[i].account.sequence, self.slots[j].account.sequence))
    }
}

} // verus!
