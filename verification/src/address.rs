//! Deterministic record addressing.
//!
//! A record's address is derived from the program that owns it and from the
//! record's key: a tag naming the record kind, followed by the bytes that tell
//! records of that kind apart. The derivation itself is Solana's search for a
//! program-derived address; what is proved here is that no two keys hand it
//! the same bytes.

use vstd::prelude::*;
use vstd::bytes::{lemma_auto_spec_u64_to_from_le_bytes, spec_u64_to_le_bytes, u64_to_le_bytes};
use anchor_lang::prelude::Pubkey;
use crate::identity::{lemma_identity_view_injective, Address, Identity};

verus! {

/// What a record is found by: its kind and, within the kind, what tells it apart.
#[derive(Clone, Copy, Debug)]
pub enum RecordKey {
    /// The shop singleton. Its key is fixed, never taken from input.
    Shop,
    /// The item with this id.
    Item { id: u64 },
    /// The purchase history of this buyer.
    History { owner: Identity },
}

/// The kind tag of the shop: the ASCII bytes of `shop`.
pub open spec fn shop_tag() -> Seq<u8> {
    seq![115u8, 104u8, 111u8, 112u8]
}

/// The kind tag of items: the ASCII bytes of `item`.
pub open spec fn item_tag() -> Seq<u8> {
    seq![105u8, 116u8, 101u8, 109u8]
}

/// The kind tag of histories: the ASCII bytes of `history`.
pub open spec fn history_tag() -> Seq<u8> {
    seq![104u8, 105u8, 115u8, 116u8, 111u8, 114u8, 121u8]
}

impl RecordKey {
    /// The seeds an address is derived from: the kind tag, then the key's own bytes.
    pub open spec fn seeds(self) -> Seq<Seq<u8>> {
        match self {
            RecordKey::Shop => seq![shop_tag()],
            RecordKey::Item { id } => seq![item_tag(), spec_u64_to_le_bytes(id)],
            RecordKey::History { owner } => seq![history_tag(), owner@],
        }
    }

    /// All seed bytes in order. The derivation hashes exactly these bytes,
    /// without regard to where one seed ends and the next begins.
    pub open spec fn seed_bytes(self) -> Seq<u8> {
        match self {
            RecordKey::Shop => shop_tag(),
            RecordKey::Item { id } => item_tag() + spec_u64_to_le_bytes(id),
            RecordKey::History { owner } => history_tag() + owner@,
        }
    }

    /// Builds the seeds of this key.
    pub fn to_seeds(&self) -> (seeds: Vec<Vec<u8>>)
        ensures
            seeds.deep_view() == self.seeds(),
    {
        let mut seeds: Vec<Vec<u8>> = Vec::new();
        match self {
            RecordKey::Shop => {
                let tag: Vec<u8> = vec![115u8, 104u8, 111u8, 112u8];
                assert(tag@ =~= shop_tag());
                seeds.push(tag);
            },
            RecordKey::Item { id } => {
                let tag: Vec<u8> = vec![105u8, 116u8, 101u8, 109u8];
                assert(tag@ =~= item_tag());
                seeds.push(tag);
                seeds.push(u64_to_le_bytes(*id));
            },
            RecordKey::History { owner } => {
                let tag: Vec<u8> = vec![104u8, 105u8, 115u8, 116u8, 111u8, 114u8, 121u8];
                assert(tag@ =~= history_tag());
                seeds.push(tag);
                seeds.push(owner.to_vec());
            },
        }
        assert(seeds.deep_view() =~~= self.seeds());
        seeds
    }
}

/// The address, if there is one, that Solana derives for a program from a
/// list of seeds. Equal seeds and program give equal results.
pub uninterp spec fn program_address(seeds: Seq<Seq<u8>>, program_id: Seq<u8>) -> Option<Seq<u8>>;

/// The address of the record with key `key` under the program `program_id`,
/// or `None` where none can be derived.
pub open spec fn address_of(program_id: Identity, key: RecordKey) -> Option<Seq<u8>> {
    program_address(key.seeds(), program_id@)
}

/// Calls `Pubkey::try_find_program_address` of `anchor_lang` (Solana's address
/// type) on the given seeds and program id, and keeps the address without its
/// bump seed. Trusted: the result is the one that `program_address` names for
/// these seeds and this program, and is absent exactly when that is.
#[verifier::external_body]
fn find_program_address(seeds: &Vec<Vec<u8>>, program_id: &Identity) -> (found: Option<Address>)
    ensures
        match found {
            Some(address) => program_address(seeds.deep_view(), program_id@) == Some(address@),
            None => program_address(seeds.deep_view(), program_id@) is None,
        },
{
    let parts: Vec<&[u8]> = seeds.iter().map(|seed| seed.as_slice()).collect();
    let program = Pubkey::new_from_array(program_id.bytes);
    Pubkey::try_find_program_address(&parts, &program).map(
        |(key, _bump)| Identity::new(key.to_bytes()),
    )
}

/// Derives the address of the record with key `key` under the program `program_id`.
pub fn derive_address(program_id: &Identity, key: &RecordKey) -> (address: Option<Address>)
    ensures
        match address {
            Some(a) => address_of(*program_id, *key) == Some(a@),
            None => address_of(*program_id, *key) is None,
        },
{
    let seeds = key.to_seeds();
    find_program_address(&seeds, program_id)
}

/// Distinct keys have distinct seed bytes: the kind tags keep the kinds apart,
/// and within a kind the key's own bytes differ. So two records share an
/// address only if the derivation itself collides.
pub proof fn lemma_seed_bytes_injective(a: RecordKey, b: RecordKey)
    requires
        a.seed_bytes() == b.seed_bytes(),
    ensures
        a == b,
{
    lemma_auto_spec_u64_to_from_le_bytes();
    match (a, b) {
        (RecordKey::Shop, RecordKey::Shop) => {},
        (RecordKey::Item { id: x }, RecordKey::Item { id: y }) => {
            let sx = spec_u64_to_le_bytes(x);
            let sy = spec_u64_to_le_bytes(y);
            assert(sx =~= (item_tag() + sx).subrange(4, 12));
            assert(sy =~= (item_tag() + sy).subrange(4, 12));
        },
        (RecordKey::History { owner: x }, RecordKey::History { owner: y }) => {
            assert(x@ =~= (history_tag() + x@).subrange(7, 39));
            assert(y@ =~= (history_tag() + y@).subrange(7, 39));
            lemma_identity_view_injective(x, y);
        },
        _ => {
            lemma_seed_bytes_len(a);
            lemma_seed_bytes_len(b);
        },
    }
}

/// How many seed bytes each kind of key has.
proof fn lemma_seed_bytes_len(key: RecordKey)
    ensures
        key.seed_bytes().len() == match key {
            RecordKey::Shop => 4nat,
            RecordKey::Item { .. } => 12nat,
            RecordKey::History { .. } => 39nat,
        },
{
    lemma_auto_spec_u64_to_from_le_bytes();
    match key {
        RecordKey::Shop => {},
        RecordKey::Item { id } => {
            assert(spec_u64_to_le_bytes(id).len() == 8);
        },
        RecordKey::History { owner } => {
            assert(owner@.len() == 32);
        },
    }
}

/// Distinct keys have distinct seed lists.
pub proof fn lemma_seeds_injective(a: RecordKey, b: RecordKey)
    requires
        a.seeds() == b.seeds(),
    ensures
        a == b,
{
    lemma_auto_spec_u64_to_from_le_bytes();
    match (a, b) {
        (RecordKey::Shop, RecordKey::Shop) => {},
        (RecordKey::Item { id: x }, RecordKey::Item { id: y }) => {
            assert(a.seeds()[1] == spec_u64_to_le_bytes(x));
            assert(b.seeds()[1] == spec_u64_to_le_bytes(y));
        },
        (RecordKey::History { owner: x }, RecordKey::History { owner: y }) => {
            assert(a.seeds()[1] == x@);
            assert(b.seeds()[1] == y@);
            lemma_identity_view_injective(x, y);
        },
        _ => {
            assert(a.seeds()[0].len() == b.seeds()[0].len());
            assert(a.seeds()[0][0] == b.seeds()[0][0]);
            assert(a.seeds().len() == b.seeds().len());
        },
    }
}

} // verus!
