//! The purchase engine: paying for an item and recording it, on the record store.
//!
//! A buyer's first purchase creates the buyer's history; every later one
//! appends to it. Either way the price moves from the buyer to the shop's
//! admin, and the purchase is recorded only if it did.

use vstd::prelude::*;
use crate::address::{address_of, derive_address, RecordKey};
use crate::error::ShopError;
use crate::identity::{Address, Identity};
use crate::instructions::{
    first_purchase, purchase_of, settle, subsequent_purchase, FirstPurchase, SubsequentPurchase,
};
use crate::payment::{system_transfer, InstructionView, TransferInstruction, TransferOutcome};
use crate::records::{HistoryView, PurchaseHistory, HISTORY_SPACE, MAX_PURCHASES};
use crate::store::{Record, RecordStore, RecordView, Stored, StoreView};

verus! {

impl StoreView {
    /// The history of `buyer`, if the buyer has one.
    pub open spec fn history_of(self, buyer: Identity) -> Option<HistoryView> {
        match address_of(self.program_id, RecordKey::History { owner: buyer }) {
            Some(address) => self.history_at(address),
            None => None,
        }
    }

    /// A first purchase needs the shop, the item, and a free address for the
    /// buyer's history: in that order.
    pub open spec fn first_purchase_checks(self, buyer: Identity, item: Seq<u8>) -> Result<
        (),
        ShopError,
    > {
        if self.shop() is None || self.item_at(item) is None {
            Err(ShopError::NotFound)
        } else {
            match address_of(self.program_id, RecordKey::History { owner: buyer }) {
                None => Err(ShopError::AddressUnavailable),
                Some(address) => if self.records.contains_key(address) {
                    Err(ShopError::AlreadyExists)
                } else {
                    Ok(())
                },
            }
        }
    }

    /// A later purchase needs the shop, the item, a history at the address
    /// given, owned by the buyer, with room in it: in that order.
    pub open spec fn subsequent_purchase_checks(
        self,
        buyer: Identity,
        item: Seq<u8>,
        history: Seq<u8>,
    ) -> Result<(), ShopError> {
        if self.shop() is None || self.item_at(item) is None || self.history_at(history) is None {
            Err(ShopError::NotFound)
        } else if self.history_at(history).unwrap().user != buyer {
            Err(ShopError::InvalidHistoryOwner)
        } else if self.history_at(history).unwrap().is_full() {
            Err(ShopError::CapacityExceeded)
        } else {
            Ok(())
        }
    }

    /// The transfer that buying the item at `item` asks of `buyer`: the
    /// item's price, to the shop's admin.
    pub open spec fn payment_for(self, buyer: Identity, item: Seq<u8>) -> InstructionView {
        system_transfer(buyer, self.shop().unwrap().admin, self.item_at(item).unwrap().price)
    }

    /// The store after the buyer's first purchase: the buyer's history lives
    /// at the address of the buyer, with room for `MAX_PURCHASES` purchases,
    /// and holds this one.
    pub open spec fn first_purchased(self, buyer: Identity, item: Seq<u8>, now: i64) -> StoreView {
        self.with_record(
            address_of(self.program_id, RecordKey::History { owner: buyer }).unwrap(),
            HISTORY_SPACE as nat,
            RecordView::History(
                HistoryView::opened_by(buyer, MAX_PURCHASES as nat).appended(
                    purchase_of(self.item_at(item).unwrap(), now),
                ),
            ),
        )
    }

    /// The store after a later purchase: the history holds the purchase
    /// after all earlier ones, in the storage it always had.
    pub open spec fn subsequently_purchased(self, item: Seq<u8>, history: Seq<u8>, now: i64) -> StoreView {
        self.with_record(
            history,
            self.records[history].space,
            RecordView::History(
                self.history_at(history).unwrap().appended(
                    purchase_of(self.item_at(item).unwrap(), now),
                ),
            ),
        )
    }
}

impl StoreView {
    /// The store once a first purchase was asked for: recorded if the checks
    /// passed and the transfer completed, untouched if not.
    pub open spec fn after_first_purchase(
        self,
        buyer: Identity,
        item: Seq<u8>,
        transfer: TransferOutcome,
        now: i64,
    ) -> StoreView {
        if settle(self.first_purchase_checks(buyer, item), transfer) is Ok {
            self.first_purchased(buyer, item, now)
        } else {
            self
        }
    }

    /// The store once a later purchase was asked for: recorded if the checks
    /// passed and the transfer completed, untouched if not.
    pub open spec fn after_subsequent_purchase(
        self,
        buyer: Identity,
        item: Seq<u8>,
        history: Seq<u8>,
        transfer: TransferOutcome,
        now: i64,
    ) -> StoreView {
        if settle(self.subsequent_purchase_checks(buyer, item, history), transfer) is Ok {
            self.subsequently_purchased(item, history, now)
        } else {
            self
        }
    }
}

impl RecordStore {
    /// The history at `address`, if a history lives there.
    pub fn history_at(&self, address: &Address) -> (found: Option<&PurchaseHistory>)
        requires
            self.wf(),
        ensures
            match found {
                Some(history) => self@.history_at(address@) == Some(history@),
                None => self@.history_at(address@) is None,
            },
    {
        match self.load_at(address) {
            Some(stored) => match &stored.record {
                Record::History(history) => Some(history),
                _ => None,
            },
            None => None,
        }
    }

    /// The history of `buyer`, if the buyer has one.
    pub fn history_of(&self, buyer: &Identity) -> (found: Option<&PurchaseHistory>)
        requires
            self.wf(),
        ensures
            match found {
                Some(history) => self@.history_of(*buyer) == Some(history@),
                None => self@.history_of(*buyer) is None,
            },
    {
        let address = derive_address(&self.program_id(), &RecordKey::History { owner: *buyer })?;
        self.history_at(&address)
    }

    /// Looks up what a first purchase works on, and where the history will live.
    fn resolve_first_purchase(&self, buyer: Identity, item: &Address) -> (resolved: Result<
        (FirstPurchase, Address),
        ShopError,
    >)
        requires
            self.wf(),
        ensures
            match resolved {
                Ok((ctx, address)) => {
                    &&& self@.first_purchase_checks(buyer, item@) is Ok
                    &&& address_of(self@.program_id, RecordKey::History { owner: buyer }) == Some(
                        address@,
                    )
                    &&& ctx@.buyer == buyer
                    &&& Some(ctx@.shop) == self@.shop()
                    &&& Some(ctx@.item) == self@.item_at(item@)
                    &&& ctx@.history is None
                },
                Err(error) => self@.first_purchase_checks(buyer, item@) == Err::<(), ShopError>(
                    error,
                ),
            },
    {
        let shop = match self.shop_record() {
            Some((_, shop)) => shop,
            None => {
                return Err(ShopError::NotFound);
            },
        };
        let item = match self.item_at(item) {
            Some(item) => item.clone(),
            None => {
                return Err(ShopError::NotFound);
            },
        };
        let address = match derive_address(
            &self.program_id(),
            &RecordKey::History { owner: buyer },
        ) {
            Some(address) => address,
            None => {
                return Err(ShopError::AddressUnavailable);
            },
        };
        if self.load_at(&address).is_some() {
            return Err(ShopError::AlreadyExists);
        }
        Ok((FirstPurchase { buyer, shop, item, history: None }, address))
    }

    /// Looks up what a later purchase works on.
    fn resolve_subsequent_purchase(&self, buyer: Identity, item: &Address, history: &Address) -> (resolved:
        Result<SubsequentPurchase, ShopError>)
        requires
            self.wf(),
        ensures
            match resolved {
                Ok(ctx) => {
                    &&& ctx@.buyer == buyer
                    &&& Some(ctx@.shop) == self@.shop()
                    &&& Some(ctx@.item) == self@.item_at(item@)
                    &&& Some(ctx@.history) == self@.history_at(history@)
                },
                Err(error) => error == ShopError::NotFound && (self@.shop() is None
                    || self@.item_at(item@) is None || self@.history_at(history@) is None),
            },
    {
        let shop = match self.shop_record() {
            Some((_, shop)) => shop,
            None => {
                return Err(ShopError::NotFound);
            },
        };
        let item = match self.item_at(item) {
            Some(item) => item.clone(),
            None => {
                return Err(ShopError::NotFound);
            },
        };
        let history = match self.history_at(history) {
            Some(history) => history.clone(),
            None => {
                return Err(ShopError::NotFound);
            },
        };
        Ok(SubsequentPurchase { buyer, shop, item, history })
    }

    /// The transfer to make before `buyer`'s first purchase of the item at
    /// `item` is recorded, if the purchase can go ahead.
    ///
    /// Fails with `NotFound` if the shop or the item is missing; else with
    /// `AddressUnavailable` if the buyer's history has no address; else with
    /// `AlreadyExists` if that address is occupied.
    pub fn first_purchase_payment(&self, buyer: Identity, item: &Address) -> (request: Result<
        TransferInstruction,
        ShopError,
    >)
        requires
            self.wf(),
        ensures
            match request {
                Ok(instruction) => self@.first_purchase_checks(buyer, item@) is Ok
                    && instruction@ == self@.payment_for(buyer, item@),
                Err(error) => self@.first_purchase_checks(buyer, item@) == Err::<(), ShopError>(
                    error,
                ),
            },
    {
        let (ctx, _) = self.resolve_first_purchase(buyer, item)?;
        ctx.payment()
    }

    /// Records `buyer`'s first purchase, of the item at `item`, at time `now`.
    ///
    /// Fails, changing nothing, for the reasons of `first_purchase_payment`;
    /// else with `TransferFailed` if the transfer was declined.
    pub fn first_purchase(
        &mut self,
        buyer: Identity,
        item: &Address,
        transfer: TransferOutcome,
        now: i64,
    ) -> (result: Result<(), ShopError>)
        requires
            old(self).wf(),
        ensures
            final(self).wf(),
            result == settle(old(self)@.first_purchase_checks(buyer, item@), transfer),
            final(self)@ == old(self)@.after_first_purchase(buyer, item@, transfer, now),
    {
        let (mut ctx, address) = self.resolve_first_purchase(buyer, item)?;
        first_purchase(&mut ctx, transfer, now)?;
        let history = ctx.history.unwrap();
        self.insert(Stored { address, space: HISTORY_SPACE, record: Record::History(history) });
        Ok(())
    }

    /// The transfer to make before a later purchase by `buyer`, of the item
    /// at `item`, is recorded in the history at `history`, if the purchase
    /// can go ahead.
    ///
    /// Fails with `NotFound` if the shop, the item or the history is missing;
    /// else with `InvalidHistoryOwner` if the history is not the buyer's;
    /// else with `CapacityExceeded` if the history is full.
    pub fn subsequent_purchase_payment(&self, buyer: Identity, item: &Address, history: &Address) -> (request:
        Result<TransferInstruction, ShopError>)
        requires
            self.wf(),
        ensures
            match request {
                Ok(instruction) => self@.subsequent_purchase_checks(buyer, item@, history@) is Ok
                    && instruction@ == self@.payment_for(buyer, item@),
                Err(error) => self@.subsequent_purchase_checks(buyer, item@, history@) == Err::<
                    (),
                    ShopError,
                >(error),
            },
    {
        let ctx = self.resolve_subsequent_purchase(buyer, item, history)?;
        ctx.payment()
    }

    /// Records a later purchase by `buyer`, of the item at `item`, at time
    /// `now`, in the history at `history`.
    ///
    /// Fails, changing nothing, for the reasons of
    /// `subsequent_purchase_payment`; else with `TransferFailed` if the
    /// transfer was declined.
    pub fn subsequent_purchase(
        &mut self,
        buyer: Identity,
        item: &Address,
        history: &Address,
        transfer: TransferOutcome,
        now: i64,
    ) -> (result: Result<(), ShopError>)
        requires
            old(self).wf(),
        ensures
            final(self).wf(),
            result == settle(
                old(self)@.subsequent_purchase_checks(buyer, item@, history@),
                transfer,
            ),
            final(self)@ == old(self)@.after_subsequent_purchase(
                buyer,
                item@,
                history@,
                transfer,
                now,
            ),
    {
        let mut ctx = self.resolve_subsequent_purchase(buyer, item, history)?;
        subsequent_purchase(&mut ctx, transfer, now)?;
        proof {
            self.lemma_wf_view();
        }
        self.replace(history, Record::History(ctx.history));
        Ok(())
    }
}

} // verus!
