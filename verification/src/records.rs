//! The three persisted record kinds and the byte layout that bounds them.
//!
//! Every record lives in storage of a fixed size chosen when it is created.
//! A layout reserves eight bytes for a kind tag, then the record's fixed
//! fields; an item adds a length-prefixed string and a history adds a
//! length-prefixed list with one fixed-size slot per purchase.

use vstd::prelude::*;
use vstd::utf8::encode_utf8;
use crate::error::ShopError;
use crate::identity::Identity;

verus! {

/// Bytes reserved for a shop: kind tag, admin key, item counter.
pub const SHOP_SPACE: usize = 8 + 32 + 8;

/// Bytes of an item before its metadata string: kind tag, id, price, string length.
pub const ITEM_HEADER_BYTES: usize = 8 + 8 + 8 + 4;

/// Longest metadata URI, in bytes, for which an item reserves room.
pub const MAX_METADATA_URI_BYTES: usize = 200;

/// Bytes reserved for an item.
pub const ITEM_SPACE: usize = 8 + 8 + 8 + 4 + 200;

/// Bytes of a history before its purchases: kind tag, owner key, list length.
pub const HISTORY_HEADER_BYTES: usize = 8 + 32 + 4;

/// Bytes reserved for each purchase a history can hold.
pub const PURCHASE_SLOT_BYTES: usize = 32;

/// Purchases for which a buyer's history reserves room when it is created.
pub const MAX_PURCHASES: usize = 10;

/// Bytes reserved for a history of `MAX_PURCHASES` purchases.
pub const HISTORY_SPACE: usize = 8 + 32 + 4 + 32 * 10;

/// One purchase: which item, and when the trusted clock said it happened.
#[derive(Clone, Copy, Debug, PartialEq, Eq, Structural)]
pub struct PurchaseRecord {
    pub item_id: u64,
    /// Seconds since the epoch.
    pub timestamp: i64,
}

/// The shop singleton.
#[derive(Clone, Copy, Debug, PartialEq, Eq)]
pub struct Shop {
    /// The only identity allowed to add items; it also receives every payment.
    pub admin: Identity,
    /// How many items were added. Bookkeeping only: ids are not drawn from it.
    pub item_count: u64,
}

/// A priced catalog entry. Never changed once created.
#[derive(Debug, PartialEq, Eq)]
pub struct Item {
    pub id: u64,
    /// Price in the smallest unit of the asset.
    pub price: u64,
    /// Where the item's metadata is kept. Opaque to the shop.
    pub metadata_uri: String,
}

/// What an item holds, as mathematical values.
pub struct ItemView {
    pub id: u64,
    pub price: u64,
    pub metadata_uri: Seq<char>,
}

/// A buyer's purchases, oldest first, in storage with room for `capacity` of them.
#[derive(Debug, PartialEq, Eq)]
pub struct PurchaseHistory {
    /// The buyer this history belongs to.
    pub user: Identity,
    pub purchases: Vec<PurchaseRecord>,
    /// How many purchases the storage of this history has room for.
    pub capacity: usize,
}

/// What a history holds, as mathematical values.
pub struct HistoryView {
    pub user: Identity,
    pub purchases: Seq<PurchaseRecord>,
    pub capacity: nat,
}

/// Bytes that a history with room for `capacity` purchases occupies.
pub open spec fn history_space_for(capacity: nat) -> nat {
    HISTORY_HEADER_BYTES as nat + PURCHASE_SLOT_BYTES as nat * capacity
}

/// How many purchases fit in a history stored in `space` bytes.
pub open spec fn history_capacity_in(space: nat) -> nat {
    if space < HISTORY_HEADER_BYTES as nat {
        0
    } else {
        ((space - HISTORY_HEADER_BYTES as nat) / PURCHASE_SLOT_BYTES as int) as nat
    }
}

impl Shop {
    /// A shop that `admin` has just opened: nothing added yet.
    pub open spec fn opened_by(admin: Identity) -> Shop {
        Shop { admin, item_count: 0 }
    }

    /// The shop after one more item was added.
    pub open spec fn with_item_added(self) -> Shop {
        Shop { admin: self.admin, item_count: (self.item_count + 1) as u64 }
    }
}

/// The length of `text` in UTF-8 bytes, as a string reports it.
pub open spec fn utf8_len(text: Seq<char>) -> usize {
    encode_utf8(text).len() as usize
}

impl ItemView {
    /// Bytes this item occupies: its header and the UTF-8 bytes of its URI.
    pub open spec fn space_needed(self) -> nat {
        ITEM_HEADER_BYTES as nat + utf8_len(self.metadata_uri) as nat
    }
}

impl View for Item {
    type V = ItemView;

    open spec fn view(&self) -> ItemView {
        ItemView { id: self.id, price: self.price, metadata_uri: self.metadata_uri@ }
    }
}

impl Clone for Item {
    fn clone(&self) -> (copy: Item)
        ensures
            copy == *self,
    {
        Item { id: self.id, price: self.price, metadata_uri: self.metadata_uri.clone() }
    }
}

impl Item {
    /// Whether the item fits in `space` bytes of storage.
    pub fn fits_in(&self, space: usize) -> (fits: bool)
        ensures
            fits == (self@.space_needed() <= space),
    {
        let uri_bytes: usize = self.metadata_uri.as_str().len();
        space >= ITEM_HEADER_BYTES && uri_bytes <= space - ITEM_HEADER_BYTES
    }
}

impl HistoryView {
    /// A history never holds more purchases than it has room for.
    pub open spec fn wf(self) -> bool {
        self.purchases.len() <= self.capacity
    }

    /// No room is left for another purchase.
    pub open spec fn is_full(self) -> bool {
        self.purchases.len() >= self.capacity
    }

    /// The history with `record` added after all earlier purchases.
    pub open spec fn appended(self, record: PurchaseRecord) -> HistoryView {
        HistoryView {
            user: self.user,
            purchases: self.purchases.push(record),
            capacity: self.capacity,
        }
    }

    /// The history that `user` starts with: no purchases, room for `capacity`.
    pub open spec fn opened_by(user: Identity, capacity: nat) -> HistoryView {
        HistoryView { user, purchases: Seq::empty(), capacity }
    }

    /// Bytes this history occupies: its header and one slot per purchase it has room for.
    pub open spec fn space_needed(self) -> nat {
        history_space_for(self.capacity)
    }
}

impl View for PurchaseHistory {
    type V = HistoryView;

    open spec fn view(&self) -> HistoryView {
        HistoryView {
            user: self.user,
            purchases: self.purchases@,
            capacity: self.capacity as nat,
        }
    }
}

impl Clone for PurchaseHistory {
    fn clone(&self) -> (copy: PurchaseHistory)
        ensures
            copy@ == self@,
    {
        let mut purchases: Vec<PurchaseRecord> = Vec::new();
        let mut i: usize = 0;
        while i < self.purchases.len()
            invariant
                i <= self.purchases.len(),
                purchases@ == self.purchases@.take(i as int),
            decreases self.purchases.len() - i,
        {
            purchases.push(self.purchases[i]);
            assert(self.purchases@.take(i + 1) == self.purchases@.take(i as int).push(
                self.purchases@[i as int],
            ));
            i += 1;
        }
        assert(self.purchases@.take(i as int) == self.purchases@);
        PurchaseHistory { user: self.user, purchases, capacity: self.capacity }
    }
}

impl PurchaseHistory {
    /// An empty history for `user` with room for `capacity` purchases.
    pub fn new(user: Identity, capacity: usize) -> (history: PurchaseHistory)
        ensures
            history@ == HistoryView::opened_by(user, capacity as nat),
            history@.wf(),
    {
        PurchaseHistory { user, purchases: Vec::new(), capacity }
    }

    /// How many purchases are recorded.
    pub fn len(&self) -> (n: usize)
        ensures
            n == self@.purchases.len(),
    {
        self.purchases.len()
    }

    /// Whether no room is left for another purchase.
    pub fn is_full(&self) -> (full: bool)
        ensures
            full == self@.is_full(),
    {
        self.purchases.len() >= self.capacity
    }

    /// Records one more purchase after all earlier ones, if there is room.
    ///
    /// A full history is left exactly as it was.
    pub fn append(&mut self, record: PurchaseRecord) -> (result: Result<(), ShopError>)
        ensures
            old(self)@.is_full() ==> result == Err::<(), ShopError>(ShopError::CapacityExceeded)
                && final(self)@ == old(self)@,
            !old(self)@.is_full() ==> result == Ok::<(), ShopError>(()) && final(self)@ == old(
                self,
            )@.appended(record),
            old(self)@.wf() ==> final(self)@.wf(),
    {
        if self.purchases.len() >= self.capacity {
            return Err(ShopError::CapacityExceeded);
        }
        self.purchases.push(record);
        Ok(())
    }

    /// Whether the history fits in `space` bytes of storage.
    pub fn fits_in(&self, space: usize) -> (fits: bool)
        ensures
            fits == (self@.space_needed() <= space),
    {
        self.capacity <= history_capacity(space) && space >= HISTORY_HEADER_BYTES
    }
}

/// Bytes that a history with room for `capacity` purchases occupies,
/// or `None` where that number does not fit in `usize`.
pub fn history_space(capacity: usize) -> (space: Option<usize>)
    ensures
        space == (if history_space_for(capacity as nat) <= usize::MAX {
            Some(history_space_for(capacity as nat) as usize)
        } else {
            None
        }),
{
    match capacity.checked_mul(PURCHASE_SLOT_BYTES) {
        Some(slots) => slots.checked_add(HISTORY_HEADER_BYTES),
        None => None,
    }
}

/// How many purchases fit in a history stored in `space` bytes.
pub fn history_capacity(space: usize) -> (capacity: usize)
    ensures
        capacity == history_capacity_in(space as nat),
{
    if space < HISTORY_HEADER_BYTES {
        0
    } else {
        (space - HISTORY_HEADER_BYTES) / PURCHASE_SLOT_BYTES
    }
}

/// Storage sized for `capacity` purchases holds exactly `capacity` of them.
pub proof fn lemma_capacity_of_space(capacity: nat)
    ensures
        history_capacity_in(history_space_for(capacity)) == capacity,
{
    assert((32 * capacity) / 32 == capacity) by (nonlinear_arith);
}

/// The default history allocation has room for exactly `MAX_PURCHASES` purchases.
pub proof fn lemma_default_history_capacity()
    ensures
        history_space_for(MAX_PURCHASES as nat) == HISTORY_SPACE,
        history_capacity_in(HISTORY_SPACE as nat) == MAX_PURCHASES,
{
}

} // verus!
