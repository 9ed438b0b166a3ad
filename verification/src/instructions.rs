//! The four operations of the shop, each on the records it was handed.
//!
//! An operation takes its records already looked up: a record that must exist
//! is a plain value, one that the operation creates is `None` before and
//! `Some` after. Finding records by address is the record store's part.
//!
//! A purchase needs a payment, which only the ledger can make.
//! So a purchase comes in two steps: `payment` checks everything the shop can
//! check and says which transfer to make; the purchase itself is then told how
//! the transfer ended and what time it is, and records the purchase. It checks
//! everything again, so calling it without `payment` is safe.

use vstd::prelude::*;
use crate::error::ShopError;
use crate::guard::{is_admin, owns_history};
use crate::identity::Identity;
use crate::payment::{
    build_system_transfer, system_transfer, InstructionView, TransferInstruction, TransferOutcome,
};
use crate::records::{
    utf8_len, HistoryView, Item, ItemView, PurchaseHistory, PurchaseRecord, Shop,
    MAX_METADATA_URI_BYTES, MAX_PURCHASES,
};

verus! {

/// What opening the shop works on.
#[derive(Clone, Copy, Debug, PartialEq, Eq)]
pub struct InitializeShop {
    /// The caller, who becomes the admin.
    pub admin: Identity,
    /// The shop singleton: `None` while it does not exist.
    pub shop: Option<Shop>,
}

/// What adding an item works on.
#[derive(Debug, PartialEq, Eq)]
pub struct AddItem {
    /// The caller.
    pub admin: Identity,
    pub shop: Shop,
    /// The record at the item's address: `None` while the id is unused.
    pub item: Option<Item>,
}

/// What a buyer's first purchase works on.
#[derive(Debug, PartialEq, Eq)]
pub struct FirstPurchase {
    pub buyer: Identity,
    pub shop: Shop,
    pub item: Item,
    /// The record at the buyer's history address: `None` while the buyer has none.
    pub history: Option<PurchaseHistory>,
}

/// What a later purchase works on.
#[derive(Debug, PartialEq, Eq)]
pub struct SubsequentPurchase {
    pub buyer: Identity,
    pub shop: Shop,
    pub item: Item,
    /// The history record that the caller named as the buyer's.
    pub history: PurchaseHistory,
}

/// What `AddItem` holds, as mathematical values.
pub struct AddItemView {
    pub admin: Identity,
    pub shop: Shop,
    pub item: Option<ItemView>,
}

/// What `FirstPurchase` holds, as mathematical values.
pub struct FirstPurchaseView {
    pub buyer: Identity,
    pub shop: Shop,
    pub item: ItemView,
    pub history: Option<HistoryView>,
}

/// What `SubsequentPurchase` holds, as mathematical values.
pub struct SubsequentPurchaseView {
    pub buyer: Identity,
    pub shop: Shop,
    pub item: ItemView,
    pub history: HistoryView,
}

impl View for AddItem {
    type V = AddItemView;

    open spec fn view(&self) -> AddItemView {
        AddItemView {
            admin: self.admin,
            shop: self.shop,
            item: match self.item {
                Some(item) => Some(item@),
                None => None,
            },
        }
    }
}

impl View for FirstPurchase {
    type V = FirstPurchaseView;

    open spec fn view(&self) -> FirstPurchaseView {
        FirstPurchaseView {
            buyer: self.buyer,
            shop: self.shop,
            item: self.item@,
            history: match self.history {
                Some(history) => Some(history@),
                None => None,
            },
        }
    }
}

impl View for SubsequentPurchase {
    type V = SubsequentPurchaseView;

    open spec fn view(&self) -> SubsequentPurchaseView {
        SubsequentPurchaseView {
            buyer: self.buyer,
            shop: self.shop,
            item: self.item@,
            history: self.history@,
        }
    }
}

/// The record of a purchase of `item` at time `now`.
pub open spec fn purchase_of(item: ItemView, now: i64) -> PurchaseRecord {
    PurchaseRecord { item_id: item.id, timestamp: now }
}

/// A purchase goes through only if its checks pass and the transfer completed.
pub open spec fn settle(checks: Result<(), ShopError>, transfer: TransferOutcome) -> Result<
    (),
    ShopError,
> {
    match checks {
        Err(error) => Err(error),
        Ok(()) => match transfer {
            TransferOutcome::Completed => Ok(()),
            TransferOutcome::Declined => Err(ShopError::TransferFailed),
        },
    }
}

impl InitializeShop {
    /// The shop can be opened once: a second time it already exists.
    pub open spec fn outcome(self) -> Result<(), ShopError> {
        if self.shop is Some {
            Err(ShopError::AlreadyExists)
        } else {
            Ok(())
        }
    }

    /// The records after the shop was opened: the caller is its admin, nothing added yet.
    pub open spec fn applied(self) -> InitializeShop {
        InitializeShop { admin: self.admin, shop: Some(Shop::opened_by(self.admin)) }
    }
}

impl AddItemView {
    /// Only the admin adds items; an id is used once; the URI and the counter must fit.
    pub open spec fn outcome(self, metadata_uri: Seq<char>) -> Result<(), ShopError> {
        if self.admin != self.shop.admin {
            Err(ShopError::Unauthorized)
        } else if self.item is Some {
            Err(ShopError::AlreadyExists)
        } else if utf8_len(metadata_uri) > MAX_METADATA_URI_BYTES || self.shop.item_count
            == u64::MAX {
            Err(ShopError::CapacityExceeded)
        } else {
            Ok(())
        }
    }

    /// The records after the item was added: the item exists as given and the shop counted it.
    pub open spec fn applied(self, id: u64, price: u64, metadata_uri: Seq<char>) -> AddItemView {
        AddItemView {
            admin: self.admin,
            shop: self.shop.with_item_added(),
            item: Some(ItemView { id, price, metadata_uri }),
        }
    }
}

impl FirstPurchaseView {
    /// A first purchase needs a buyer without a history.
    pub open spec fn checks(self) -> Result<(), ShopError> {
        if self.history is Some {
            Err(ShopError::AlreadyExists)
        } else {
            Ok(())
        }
    }

    /// The transfer a first purchase asks for: the item's price, from the buyer to the admin.
    pub open spec fn payment(self) -> InstructionView {
        system_transfer(self.buyer, self.shop.admin, self.item.price)
    }

    /// The records after the purchase: the buyer's history exists and holds this one purchase.
    pub open spec fn applied(self, now: i64) -> FirstPurchaseView {
        FirstPurchaseView {
            buyer: self.buyer,
            shop: self.shop,
            item: self.item,
            history: Some(
                HistoryView::opened_by(self.buyer, MAX_PURCHASES as nat).appended(
                    purchase_of(self.item, now),
                ),
            ),
        }
    }
}

impl SubsequentPurchaseView {
    /// A later purchase needs the buyer's own history, with room in it.
    pub open spec fn checks(self) -> Result<(), ShopError> {
        if self.history.user != self.buyer {
            Err(ShopError::InvalidHistoryOwner)
        } else if self.history.is_full() {
            Err(ShopError::CapacityExceeded)
        } else {
            Ok(())
        }
    }

    /// The transfer a later purchase asks for: the item's price, from the buyer to the admin.
    pub open spec fn payment(self) -> InstructionView {
        system_transfer(self.buyer, self.shop.admin, self.item.price)
    }

    /// The records after the purchase: the history holds it after all earlier purchases.
    pub open spec fn applied(self, now: i64) -> SubsequentPurchaseView {
        SubsequentPurchaseView {
            buyer: self.buyer,
            shop: self.shop,
            item: self.item,
            history: self.history.appended(purchase_of(self.item, now)),
        }
    }
}

/// Opens the shop with the caller as its admin and no items.
///
/// Fails with `AlreadyExists`, changing nothing, if the shop exists.
pub fn initialize_shop(ctx: &mut InitializeShop) -> (result: Result<(), ShopError>)
    ensures
        result == old(ctx).outcome(),
        result is Ok ==> *final(ctx) == old(ctx).applied(),
        result is Err ==> *final(ctx) == *old(ctx),
{
    if ctx.shop.is_some() {
        return Err(ShopError::AlreadyExists);
    }
    ctx.shop = Some(Shop { admin: ctx.admin, item_count: 0 });
    Ok(())
}

/// Adds an item to the catalog and counts it in the shop.
///
/// Fails, changing nothing, with `Unauthorized` if the caller is not the
/// shop's admin; else with `AlreadyExists` if the id is in use; else with
/// `CapacityExceeded` if the URI is longer than `MAX_METADATA_URI_BYTES` bytes
/// or the item counter cannot count further.
pub fn add_item(ctx: &mut AddItem, id: u64, price: u64, metadata_uri: String) -> (result: Result<
    (),
    ShopError,
>)
    ensures
        result == old(ctx)@.outcome(metadata_uri@),
        result is Ok ==> final(ctx)@ == old(ctx)@.applied(id, price, metadata_uri@),
        result is Err ==> final(ctx)@ == old(ctx)@,
{
    if !is_admin(&ctx.shop, &ctx.admin) {
        return Err(ShopError::Unauthorized);
    }
    if ctx.item.is_some() {
        return Err(ShopError::AlreadyExists);
    }
    if metadata_uri.as_str().len() > MAX_METADATA_URI_BYTES || ctx.shop.item_count == u64::MAX {
        return Err(ShopError::CapacityExceeded);
    }
    ctx.item = Some(Item { id, price, metadata_uri });
    ctx.shop.item_count = ctx.shop.item_count + 1;
    Ok(())
}

/// Records a buyer's first purchase: creates the buyer's history, with room
/// for `MAX_PURCHASES` purchases, holding this purchase at time `now`.
///
/// Fails, changing nothing, with `AlreadyExists` if the buyer has a history;
/// else with `TransferFailed` if the transfer was declined.
pub fn first_purchase(ctx: &mut FirstPurchase, transfer: TransferOutcome, now: i64) -> (result:
    Result<(), ShopError>)
    ensures
        result == settle(old(ctx)@.checks(), transfer),
        result is Ok ==> final(ctx)@ == old(ctx)@.applied(now),
        result is Err ==> final(ctx)@ == old(ctx)@,
{
    if ctx.history.is_some() {
        return Err(ShopError::AlreadyExists);
    }
    match transfer {
        TransferOutcome::Declined => {
            return Err(ShopError::TransferFailed);
        },
        TransferOutcome::Completed => {},
    }
    let mut history = PurchaseHistory::new(ctx.buyer, MAX_PURCHASES);
    let appended = history.append(PurchaseRecord { item_id: ctx.item.id, timestamp: now });
    assert(appended is Ok);
    ctx.history = Some(history);
    Ok(())
}

/// Records a later purchase at time `now`, after all earlier ones.
///
/// Fails, changing nothing, with `InvalidHistoryOwner` if the history is not
/// the buyer's; else with `CapacityExceeded` if the history is full; else with
/// `TransferFailed` if the transfer was declined.
pub fn subsequent_purchase(ctx: &mut SubsequentPurchase, transfer: TransferOutcome, now: i64) -> (result:
    Result<(), ShopError>)
    ensures
        result == settle(old(ctx)@.checks(), transfer),
        result is Ok ==> final(ctx)@ == old(ctx)@.applied(now),
        result is Err ==> final(ctx)@ == old(ctx)@,
{
    if !owns_history(&ctx.history, &ctx.buyer) {
        return Err(ShopError::InvalidHistoryOwner);
    }
    if ctx.history.is_full() {
        return Err(ShopError::CapacityExceeded);
    }
    match transfer {
        TransferOutcome::Declined => {
            return Err(ShopError::TransferFailed);
        },
        TransferOutcome::Completed => {},
    }
    let appended = ctx.history.append(PurchaseRecord { item_id: ctx.item.id, timestamp: now });
    assert(appended is Ok);
    Ok(())
}

impl FirstPurchase {
    /// The transfer to make before the purchase is recorded, if the purchase can go ahead.
    pub fn payment(&self) -> (request: Result<TransferInstruction, ShopError>)
        ensures
            match request {
                Ok(instruction) => self@.checks() is Ok && instruction@ == self@.payment(),
                Err(error) => self@.checks() == Err::<(), ShopError>(error),
            },
    {
        if self.history.is_some() {
            return Err(ShopError::AlreadyExists);
        }
        Ok(build_system_transfer(&self.buyer, &self.shop.admin, self.item.price))
    }
}

impl SubsequentPurchase {
    /// The transfer to make before the purchase is recorded, if the purchase can go ahead.
    pub fn payment(&self) -> (request: Result<TransferInstruction, ShopError>)
        ensures
            match request {
                Ok(instruction) => self@.checks() is Ok && instruction@ == self@.payment(),
                Err(error) => self@.checks() == Err::<(), ShopError>(error),
            },
    {
        if !owns_history(&self.history, &self.buyer) {
            return Err(ShopError::InvalidHistoryOwner);
        }
        if self.history.is_full() {
            return Err(ShopError::CapacityExceeded);
        }
        Ok(build_system_transfer(&self.buyer, &self.shop.admin, self.item.price))
    }
}

} // verus!
