use anchor_lang::prelude::Pubkey;
use vstd::prelude::*;

verus! {

/// A 32-byte public-key identifier: an owner, a signer, a program or the
/// address of a record. Two keys are the same key when their bytes agree.
#[derive(Clone, Copy, Debug, PartialEq, Eq)]
pub struct Key {
    pub bytes: [u8; 32],
}

impl View for Key {
    type V = Seq<u8>;

    open spec fn view(&self) -> Seq<u8> {
        self.bytes@
    }
}

impl Key {
    pub fn new(bytes: [u8; 32]) -> (k: Key)
        ensures
            k@ == bytes@,
    {
        Key { bytes }
    }

    pub fn to_bytes(&self) -> (b: [u8; 32])
        ensures
            b@ == self@,
    {
        self.bytes
    }

    /// Byte-wise comparison of two keys.
    pub fn same(&self, other: &Key) -> (r: bool)
        ensures
            r == (self@ == other@),
    {
        let mut i: usize = 0;
        while i < 32
            invariant
                i <= 32,
                forall|j: int| 0 <= j < i ==> self.bytes@[j] == other.bytes@[j],
            decreases 32 - i,
        {
            if self.bytes[i] != other.bytes[i] {
                return false;
            }
            i += 1;
        }
        assert(self@ =~= other@);
        true
    }
}

/// The greatest number of bytes that one seed of a derivation may have.
pub const MAX_SEED_LEN: usize = 32;

/// The address and bump that `Pubkey::try_find_program_address` yields for a
/// list of seeds under a program id, or `None` where it yields none. The search
/// hashes the seeds, a bump counted down from 255, the program id and a fixed
/// marker, and keeps the first digest that is no curve point; it reads nothing
/// but its arguments.
pub uninterp spec fn program_address(seeds: Seq<Seq<u8>>, program_id: Seq<u8>) -> Option<(Seq<u8>, u8)>;

/// The seeds under which the record of `owner` for `tag` is derived: the tag,
/// then the owner's bytes.
pub open spec fn record_seeds(owner: Seq<u8>, tag: Seq<u8>) -> Seq<Seq<u8>> {
    seq![tag, owner]
}

/// What `derive` returns for an owner and a tag under a program.
pub open spec fn derived(owner: Seq<u8>, tag: Seq<u8>, program_id: Seq<u8>) -> Option<(Seq<u8>, u8)> {
    program_address(record_seeds(owner, tag), program_id)
}

/// Calls `Pubkey::try_find_program_address` with the seeds `[tag, owner]` and
/// hands its answer back as plain bytes. Nothing is proved of the search
/// itself: the contract gives its answer the name `program_address`, and
/// claims that a tag longer than `MAX_SEED_LEN` bytes finds no address, since
/// the search gives up on a seed of that length.
#[verifier::external_body]
fn find_program_address(tag: &Vec<u8>, owner: &[u8; 32], program_id: &[u8; 32]) -> (r: Option<([u8; 32], u8)>)
    ensures
        tag@.len() > MAX_SEED_LEN ==> r is None,
        match r {
            Some((address, bump)) => program_address(seq![tag@, owner@], program_id@) == Some(
                (address@, bump),
            ),
            None => program_address(seq![tag@, owner@], program_id@) is None,
        },
{
    let program = Pubkey::new_from_array(*program_id);
    match Pubkey::try_find_program_address(&[tag.as_slice(), owner.as_slice()], &program) {
        Some((address, bump)) => Some((address.to_bytes(), bump)),
        None => None,
    }
}

/// Derives the address at which the record of `owner` for `tag` stands under
/// `program_id`, with the canonical bump. The same inputs always give the same
/// answer. `None` means that no address exists for the pair, as for a tag
/// longer than a seed may be.
pub fn derive(owner: &Key, tag: &Vec<u8>, program_id: &Key) -> (r: Option<(Key, u8)>)
    ensures
        tag@.len() > MAX_SEED_LEN ==> r is None,
        match r {
            Some((address, bump)) => derived(owner@, tag@, program_id@) == Some((address@, bump)),
            None => derived(owner@, tag@, program_id@) is None,
        },
{
    match find_program_address(tag, &owner.bytes, &program_id.bytes) {
        Some((bytes, bump)) => Some((Key::new(bytes), bump)),
        None => None,
    }
}

/// Whether `address` with `bump` is what a derivation returned.
pub fn matches_derivation(found: &Option<(Key, u8)>, address: &Key, bump: u8) -> (r: bool)
    ensures
        r == match *found {
            Some((a, b)) => a@ == address@ && b == bump,
            None => false,
        },
{
    match found {
        Some((a, b)) => a.same(address) && *b == bump,
        None => false,
    }
}

} // verus!
