//! The record store: which record lives at which address, in how much storage.
//!
//! A record is created at the address derived from its own key, in storage of
//! a size fixed then and never changed. Creation cannot overwrite: an occupied
//! address refuses it.

use vstd::prelude::*;
use crate::address::{address_of, derive_address, RecordKey};
use crate::error::ShopError;
use crate::identity::{Address, Identity};
use crate::records::{
    HistoryView, Item, ItemView, PurchaseHistory, Shop, SHOP_SPACE,
};

verus! {

/// A record of one of the three kinds.
#[derive(Debug, PartialEq, Eq)]
pub enum Record {
    Shop(Shop),
    Item(Item),
    History(PurchaseHistory),
}

/// What a record holds, as mathematical values.
pub enum RecordView {
    Shop(Shop),
    Item(ItemView),
    History(HistoryView),
}

/// A record together with where it lives and how much storage it was given.
#[derive(Debug, PartialEq, Eq)]
pub struct Stored {
    pub address: Address,
    /// Bytes allocated when the record was created.
    pub space: usize,
    pub record: Record,
}

/// What lives at an address: a record and the size of its storage.
pub struct StoredView {
    pub space: nat,
    pub record: RecordView,
}

impl RecordView {
    /// The key that the record's address is derived from.
    pub open spec fn key(self) -> RecordKey {
        match self {
            RecordView::Shop(_) => RecordKey::Shop,
            RecordView::Item(item) => RecordKey::Item { id: item.id },
            RecordView::History(history) => RecordKey::History { owner: history.user },
        }
    }

    /// Whether storage of `space` bytes holds the record: its fixed fields,
    /// an item's URI, and every purchase slot that a history has room for.
    pub open spec fn fits(self, space: nat) -> bool {
        match self {
            RecordView::Shop(_) => SHOP_SPACE <= space,
            RecordView::Item(item) => item.space_needed() <= space,
            RecordView::History(history) => history.wf() && history.space_needed() <= space,
        }
    }
}

impl View for Record {
    type V = RecordView;

    open spec fn view(&self) -> RecordView {
        match self {
            Record::Shop(shop) => RecordView::Shop(*shop),
            Record::Item(item) => RecordView::Item(item@),
            Record::History(history) => RecordView::History(history@),
        }
    }
}

impl View for Stored {
    type V = StoredView;

    open spec fn view(&self) -> StoredView {
        StoredView { space: self.space as nat, record: self.record@ }
    }
}

impl Clone for Record {
    fn clone(&self) -> (copy: Record)
        ensures
            copy@ == self@,
    {
        match self {
            Record::Shop(shop) => Record::Shop(*shop),
            Record::Item(item) => Record::Item(item.clone()),
            Record::History(history) => Record::History(history.clone()),
        }
    }
}

impl Record {
    /// The key that the record's address is derived from.
    pub fn key(&self) -> (key: RecordKey)
        ensures
            key == self@.key(),
    {
        match self {
            Record::Shop(_) => RecordKey::Shop,
            Record::Item(item) => RecordKey::Item { id: item.id },
            Record::History(history) => RecordKey::History { owner: history.user },
        }
    }

    /// Whether storage of `space` bytes holds the record.
    pub fn fits_in(&self, space: usize) -> (fits: bool)
        ensures
            fits == self@.fits(space as nat),
    {
        match self {
            Record::Shop(_) => SHOP_SPACE <= space,
            Record::Item(item) => item.fits_in(space),
            Record::History(history) => history.len() <= history.capacity && history.fits_in(
                space,
            ),
        }
    }
}

/// Every record of a program, by address.
pub struct StoreView {
    /// The program that owns the records; every address is derived under it.
    pub program_id: Identity,
    pub records: Map<Seq<u8>, StoredView>,
}

impl StoreView {
    /// Every record sits at the address derived from its own key, in storage that holds it.
    pub open spec fn wf(self) -> bool {
        forall|address: Seq<u8>| #[trigger]
            self.records.contains_key(address) ==> {
                &&& address_of(self.program_id, self.records[address].record.key()) == Some(
                    address,
                )
                &&& self.records[address].record.fits(self.records[address].space)
            }
    }

    /// The store of a program that has created nothing yet.
    pub open spec fn empty(program_id: Identity) -> StoreView {
        StoreView { program_id, records: Map::empty() }
    }

    /// The store with `record` at `address` in `space` bytes, everything else as it was.
    pub open spec fn with_record(self, address: Seq<u8>, space: nat, record: RecordView) -> StoreView {
        StoreView {
            program_id: self.program_id,
            records: self.records.insert(address, StoredView { space, record }),
        }
    }

    /// Why `record` cannot be created in `space` bytes, if it cannot.
    pub open spec fn create_outcome(self, record: RecordView, space: nat) -> Result<
        Seq<u8>,
        ShopError,
    > {
        match address_of(self.program_id, record.key()) {
            None => Err(ShopError::AddressUnavailable),
            Some(address) => if self.records.contains_key(address) {
                Err(ShopError::AlreadyExists)
            } else if !record.fits(space) {
                Err(ShopError::CapacityExceeded)
            } else {
                Ok(address)
            },
        }
    }

    /// What lives at the address derived from `key`, if anything does.
    pub open spec fn record_of(self, key: RecordKey) -> Option<StoredView> {
        match address_of(self.program_id, key) {
            Some(address) => if self.records.contains_key(address) {
                Some(self.records[address])
            } else {
                None
            },
            None => None,
        }
    }

    /// The shop, if it exists.
    pub open spec fn shop(self) -> Option<Shop> {
        match address_of(self.program_id, RecordKey::Shop) {
            Some(address) => if self.records.contains_key(address) {
                match self.records[address].record {
                    RecordView::Shop(shop) => Some(shop),
                    _ => None,
                }
            } else {
                None
            },
            None => None,
        }
    }

    /// The item at `address`, if an item lives there.
    pub open spec fn item_at(self, address: Seq<u8>) -> Option<ItemView> {
        if self.records.contains_key(address) {
            match self.records[address].record {
                RecordView::Item(item) => Some(item),
                _ => None,
            }
        } else {
            None
        }
    }

    /// The history at `address`, if a history lives there.
    pub open spec fn history_at(self, address: Seq<u8>) -> Option<HistoryView> {
        if self.records.contains_key(address) {
            match self.records[address].record {
                RecordView::History(history) => Some(history),
                _ => None,
            }
        } else {
            None
        }
    }
}

/// Whether slot `i` of `slots` is the one at `address`.
spec fn slot_at(slots: Seq<Stored>, i: int, address: Seq<u8>) -> bool {
    0 <= i < slots.len() && slots[i].address@ == address
}

/// No two slots share an address.
spec fn distinct(slots: Seq<Stored>) -> bool {
    forall|i: int, j: int|
        0 <= i < slots.len() && 0 <= j < slots.len() && #[trigger] slots[i].address@
            == #[trigger] slots[j].address@ ==> i == j
}

/// The records that a list of slots holds, by address.
spec fn records_of(slots: Seq<Stored>) -> Map<Seq<u8>, StoredView> {
    Map::new(
        |address: Seq<u8>| exists|i: int| slot_at(slots, i, address),
        |address: Seq<u8>| slots[choose|i: int| slot_at(slots, i, address)]@,
    )
}

proof fn lemma_records_lookup(slots: Seq<Stored>, i: int)
    requires
        distinct(slots),
        0 <= i < slots.len(),
    ensures
        records_of(slots).contains_key(slots[i].address@),
        records_of(slots)[slots[i].address@] == slots[i]@,
{
    let address = slots[i].address@;
    assert(slot_at(slots, i, address));
    let j = choose|j: int| slot_at(slots, j, address);
    assert(slot_at(slots, j, address));
    assert(slots[i].address@ == slots[j].address@);
}

proof fn lemma_records_push(slots: Seq<Stored>, slot: Stored)
    requires
        distinct(slots),
        !records_of(slots).contains_key(slot.address@),
    ensures
        distinct(slots.push(slot)),
        records_of(slots.push(slot)) == records_of(slots).insert(slot.address@, slot@),
{
    let grown = slots.push(slot);
    assert forall|i: int, j: int|
        0 <= i < grown.len() && 0 <= j < grown.len() && #[trigger] grown[i].address@
            == #[trigger] grown[j].address@ implies i == j by {
        if i < slots.len() && j < slots.len() {
            assert(slots[i].address@ == slots[j].address@);
        } else if i < slots.len() {
            assert(slot_at(slots, i, slot.address@));
        } else if j < slots.len() {
            assert(slot_at(slots, j, slot.address@));
        }
    }
    let target = records_of(slots).insert(slot.address@, slot@);
    assert forall|address: Seq<u8>| records_of(grown).contains_key(address) implies #[trigger]
        target.contains_key(address) by {
        let i = choose|i: int| slot_at(grown, i, address);
        if i < slots.len() {
            assert(slot_at(slots, i, address));
        }
    }
    assert forall|address: Seq<u8>| #[trigger] target.contains_key(address) implies records_of(
        grown,
    ).contains_key(address) by {
        if address == slot.address@ {
            assert(slot_at(grown, slots.len() as int, address));
        } else {
            let i = choose|i: int| slot_at(slots, i, address);
            assert(slot_at(grown, i, address));
        }
    }
    assert forall|address: Seq<u8>| #[trigger] target.contains_key(address) implies records_of(
        grown,
    )[address] == target[address] by {
        if address == slot.address@ {
            lemma_records_lookup(grown, slots.len() as int);
        } else {
            let i = choose|i: int| slot_at(slots, i, address);
            assert(slot_at(slots, i, address));
            lemma_records_lookup(slots, i);
            lemma_records_lookup(grown, i);
        }
    }
    assert(records_of(grown) =~= target);
}

proof fn lemma_records_update(slots: Seq<Stored>, i: int, slot: Stored)
    requires
        distinct(slots),
        0 <= i < slots.len(),
        slot.address@ == slots[i].address@,
    ensures
        distinct(slots.update(i, slot)),
        records_of(slots.update(i, slot)) == records_of(slots).insert(slot.address@, slot@),
{
    let changed = slots.update(i, slot);
    assert forall|a: int, b: int|
        0 <= a < changed.len() && 0 <= b < changed.len() && #[trigger] changed[a].address@
            == #[trigger] changed[b].address@ implies a == b by {
        assert(changed[a].address@ == slots[a].address@);
        assert(changed[b].address@ == slots[b].address@);
    }
    let target = records_of(slots).insert(slot.address@, slot@);
    assert forall|address: Seq<u8>| records_of(changed).contains_key(address) implies #[trigger]
        target.contains_key(address) by {
        let k = choose|k: int| slot_at(changed, k, address);
        assert(changed[k].address@ == slots[k].address@);
        assert(slot_at(slots, k, address));
    }
    assert forall|address: Seq<u8>| #[trigger] target.contains_key(address) implies records_of(
        changed,
    ).contains_key(address) by {
        if address == slot.address@ {
            assert(slot_at(changed, i, address));
        } else {
            let k = choose|k: int| slot_at(slots, k, address);
            assert(changed[k].address@ == slots[k].address@);
            assert(slot_at(changed, k, address));
        }
    }
    assert forall|address: Seq<u8>| #[trigger] target.contains_key(address) implies records_of(
        changed,
    )[address] == target[address] by {
        if address == slot.address@ {
            lemma_records_lookup(changed, i);
        } else {
            let k = choose|k: int| slot_at(slots, k, address);
            assert(slot_at(slots, k, address));
            lemma_records_lookup(slots, k);
            assert(changed[k].address@ == slots[k].address@);
            lemma_records_lookup(changed, k);
        }
    }
    assert(records_of(changed) =~= target);
}

/// The records of one program, each at its own address.
pub struct RecordStore {
    program_id: Identity,
    slots: Vec<Stored>,
}

impl View for RecordStore {
    type V = StoreView;

    closed spec fn view(&self) -> StoreView {
        StoreView { program_id: self.program_id, records: records_of(self.slots@) }
    }
}

impl RecordStore {
    /// The store is sound: one record per address, each at the address
    /// derived from its own key, in storage that holds it.
    pub closed spec fn wf(&self) -> bool {
        distinct(self.slots@) && self@.wf()
    }

    /// A sound store keeps every record at its derived address, within its storage.
    pub proof fn lemma_wf_view(&self)
        requires
            self.wf(),
        ensures
            self@.wf(),
    {
    }

    /// The store of `program_id`, holding nothing yet.
    pub fn new(program_id: Identity) -> (store: RecordStore)
        ensures
            store.wf(),
            store@ == StoreView::empty(program_id),
    {
        let store = RecordStore { program_id, slots: Vec::new() };
        assert(store@.records =~= Map::<Seq<u8>, StoredView>::empty());
        store
    }

    /// The program that owns the records.
    pub fn program_id(&self) -> (program_id: Identity)
        ensures
            program_id == self@.program_id,
    {
        self.program_id
    }

    /// How many records the store holds.
    pub fn len(&self) -> (count: usize)
        requires
            self.wf(),
        ensures
            count == self@.records.len(),
            self@.records.dom().finite(),
    {
        proof {
            lemma_records_count(self.slots@);
        }
        self.slots.len()
    }

    /// The slot at `address`, if a record lives there.
    fn find(&self, address: &Address) -> (found: Option<usize>)
        ensures
            match found {
                Some(i) => i < self.slots@.len() && self.slots@[i as int].address@ == address@,
                None => !self@.records.contains_key(address@),
            },
    {
        let mut i: usize = 0;
        while i < self.slots.len()
            invariant
                i <= self.slots@.len(),
                forall|k: int| 0 <= k < i ==> self.slots@[k].address@ != address@,
            decreases self.slots@.len() - i,
        {
            if self.slots[i].address.same_as(address) {
                return Some(i);
            }
            i += 1;
        }
        assert forall|k: int| !slot_at(self.slots@, k, address@) by {}
        None
    }

    /// Looks up the record at `address`.
    pub fn load_at(&self, address: &Address) -> (found: Option<&Stored>)
        requires
            self.wf(),
        ensures
            match found {
                Some(stored) => self@.records.contains_key(address@) && self@.records[address@]
                    == stored@ && stored.address@ == address@,
                None => !self@.records.contains_key(address@),
            },
    {
        match self.find(address) {
            Some(i) => {
                proof {
                    lemma_records_lookup(self.slots@, i as int);
                }
                Some(&self.slots[i])
            },
            None => None,
        }
    }

    /// Looks up the record with key `key`, at the address derived from it.
    ///
    /// Fails with `NotFound` if no address can be derived or none lives there.
    pub fn load(&self, key: &RecordKey) -> (found: Result<&Stored, ShopError>)
        requires
            self.wf(),
        ensures
            match found {
                Ok(stored) => self@.record_of(*key) == Some(stored@),
                Err(error) => error == ShopError::NotFound && self@.record_of(*key) is None,
            },
    {
        let address = match derive_address(&self.program_id, key) {
            Some(address) => address,
            None => {
                return Err(ShopError::NotFound);
            },
        };
        match self.load_at(&address) {
            Some(stored) => Ok(stored),
            None => Err(ShopError::NotFound),
        }
    }

    /// Creates `record` at the address derived from its key, in `space` bytes.
    ///
    /// Fails, changing nothing, with `AddressUnavailable` if no address can be
    /// derived; else with `AlreadyExists` if the address is occupied; else
    /// with `CapacityExceeded` if `space` bytes do not hold the record.
    pub fn create(&mut self, record: Record, space: usize) -> (result: Result<Address, ShopError>)
        requires
            old(self).wf(),
        ensures
            final(self).wf(),
            match result {
                Ok(address) => old(self)@.create_outcome(record@, space as nat) == Ok::<
                    Seq<u8>,
                    ShopError,
                >(address@) && final(self)@ == old(self)@.with_record(
                    address@,
                    space as nat,
                    record@,
                ),
                Err(error) => old(self)@.create_outcome(record@, space as nat) == Err::<
                    Seq<u8>,
                    ShopError,
                >(error) && final(self)@ == old(self)@,
            },
    {
        let key = record.key();
        let address = match derive_address(&self.program_id, &key) {
            Some(address) => address,
            None => {
                return Err(ShopError::AddressUnavailable);
            },
        };
        if let Some(i) = self.find(&address) {
            proof {
                lemma_records_lookup(self.slots@, i as int);
            }
            return Err(ShopError::AlreadyExists);
        }
        if !record.fits_in(space) {
            return Err(ShopError::CapacityExceeded);
        }
        self.insert(Stored { address, space, record });
        Ok(address)
    }

    /// Adds a slot at a free address.
    pub(crate) fn insert(&mut self, slot: Stored)
        requires
            old(self).wf(),
            !old(self)@.records.contains_key(slot.address@),
            address_of(old(self)@.program_id, slot@.record.key()) == Some(slot.address@),
            slot@.record.fits(slot@.space),
        ensures
            final(self).wf(),
            final(self)@ == old(self)@.with_record(slot.address@, slot@.space, slot@.record),
    {
        proof {
            lemma_records_push(self.slots@, slot);
        }
        self.slots.push(slot);
    }

    /// Puts `record` in place of the record at `address`, in the same storage.
    pub(crate) fn replace(&mut self, address: &Address, record: Record)
        requires
            old(self).wf(),
            old(self)@.records.contains_key(address@),
            address_of(old(self)@.program_id, record@.key()) == Some(address@),
            record@.fits(old(self)@.records[address@].space),
        ensures
            final(self).wf(),
            final(self)@ == old(self)@.with_record(
                address@,
                old(self)@.records[address@].space,
                record@,
            ),
    {
        let found = self.find(address);
        let i = found.unwrap();
        let space = self.slots[i].space;
        let slot = Stored { address: *address, space, record };
        proof {
            lemma_records_lookup(self.slots@, i as int);
            lemma_records_update(self.slots@, i as int, slot);
        }
        self.slots[i] = slot;
    }
}

proof fn lemma_records_count(slots: Seq<Stored>)
    requires
        distinct(slots),
    ensures
        records_of(slots).dom().finite(),
        records_of(slots).len() == slots.len(),
    decreases slots.len(),
{
    if slots.len() == 0 {
        assert(records_of(slots) =~= Map::<Seq<u8>, StoredView>::empty());
    } else {
        let last = slots.last();
        let rest = slots.drop_last();
        assert forall|i: int, j: int|
            0 <= i < rest.len() && 0 <= j < rest.len() && #[trigger] rest[i].address@
                == #[trigger] rest[j].address@ implies i == j by {
            assert(slots[i].address@ == slots[j].address@);
        }
        lemma_records_count(rest);
        assert(!records_of(rest).contains_key(last.address@)) by {
            if records_of(rest).contains_key(last.address@) {
                let k = choose|k: int| slot_at(rest, k, last.address@);
                assert(slots[k].address@ == slots[slots.len() - 1].address@);
            }
        }
        lemma_records_push(rest, last);
        assert(rest.push(last) =~= slots);
    }
}

} // verus!
