//! The catalog: opening the shop and adding items to it, on the record store.

use vstd::prelude::*;
use crate::address::{address_of, derive_address, RecordKey};
use crate::error::ShopError;
use crate::guard::is_admin;
use crate::identity::{Address, Identity};
use crate::instructions::{add_item, initialize_shop, AddItem, InitializeShop};
use crate::records::{
    utf8_len, Item, ItemView, Shop, ITEM_SPACE, MAX_METADATA_URI_BYTES, SHOP_SPACE,
};
use crate::store::{Record, RecordStore, RecordView, Stored, StoreView};

verus! {

impl StoreView {
    /// Opening the shop creates the singleton, so it works once.
    pub open spec fn initialize_shop_outcome(self) -> Result<(), ShopError> {
        match address_of(self.program_id, RecordKey::Shop) {
            None => Err(ShopError::AddressUnavailable),
            Some(address) => if self.records.contains_key(address) {
                Err(ShopError::AlreadyExists)
            } else {
                Ok(())
            },
        }
    }

    /// The store after `caller` opened the shop.
    pub open spec fn shop_initialized(self, caller: Identity) -> StoreView {
        self.with_record(
            address_of(self.program_id, RecordKey::Shop).unwrap(),
            SHOP_SPACE as nat,
            RecordView::Shop(Shop::opened_by(caller)),
        )
    }

    /// The store once `caller` has asked to open the shop: opened if that
    /// was allowed, untouched if not.
    pub open spec fn after_initialize_shop(self, caller: Identity) -> StoreView {
        if self.initialize_shop_outcome() is Ok {
            self.shop_initialized(caller)
        } else {
            self
        }
    }

    /// Adding an item needs the shop, its admin as caller, a free address for
    /// the id, a URI that fits and a counter that can count on: in that order.
    pub open spec fn add_item_outcome(self, caller: Identity, id: u64, metadata_uri: Seq<char>) -> Result<
        (),
        ShopError,
    > {
        match self.shop() {
            None => Err(ShopError::NotFound),
            Some(shop) => if caller != shop.admin {
                Err(ShopError::Unauthorized)
            } else {
                match address_of(self.program_id, RecordKey::Item { id }) {
                    None => Err(ShopError::AddressUnavailable),
                    Some(address) => if self.records.contains_key(address) {
                        Err(ShopError::AlreadyExists)
                    } else if utf8_len(metadata_uri) > MAX_METADATA_URI_BYTES || shop.item_count
                        == u64::MAX {
                        Err(ShopError::CapacityExceeded)
                    } else {
                        Ok(())
                    },
                }
            },
        }
    }

    /// The store after the item was added: the item lives at the address of
    /// its id, and the shop has counted it.
    pub open spec fn item_added(self, id: u64, price: u64, metadata_uri: Seq<char>) -> StoreView {
        let shop_address = address_of(self.program_id, RecordKey::Shop).unwrap();
        self.with_record(
            shop_address,
            self.records[shop_address].space,
            RecordView::Shop(self.shop().unwrap().with_item_added()),
        ).with_record(
            address_of(self.program_id, RecordKey::Item { id }).unwrap(),
            ITEM_SPACE as nat,
            RecordView::Item(ItemView { id, price, metadata_uri }),
        )
    }

    /// The store once `caller` has asked to add an item: added and counted
    /// if that was allowed, untouched if not.
    pub open spec fn after_add_item(
        self,
        caller: Identity,
        id: u64,
        price: u64,
        metadata_uri: Seq<char>,
    ) -> StoreView {
        if self.add_item_outcome(caller, id, metadata_uri) is Ok {
            self.item_added(id, price, metadata_uri)
        } else {
            self
        }
    }

    /// The item with this id, if it exists.
    pub open spec fn item(self, id: u64) -> Option<ItemView> {
        match address_of(self.program_id, RecordKey::Item { id }) {
            Some(address) => self.item_at(address),
            None => None,
        }
    }
}

impl RecordStore {
    /// The shop, if it exists.
    pub fn shop(&self) -> (found: Option<Shop>)
        requires
            self.wf(),
        ensures
            found == self@.shop(),
    {
        match self.shop_record() {
            Some((_, shop)) => Some(shop),
            None => None,
        }
    }

    /// The item with this id, if it exists.
    pub fn item(&self, id: u64) -> (found: Option<&Item>)
        requires
            self.wf(),
        ensures
            match found {
                Some(item) => self@.item(id) == Some(item@),
                None => self@.item(id) is None,
            },
    {
        let address = derive_address(&self.program_id(), &RecordKey::Item { id })?;
        self.item_at(&address)
    }

    /// Where the shop lives and what it holds, if it exists.
    pub(crate) fn shop_record(&self) -> (found: Option<(Address, Shop)>)
        requires
            self.wf(),
        ensures
            match found {
                Some((address, shop)) => {
                    &&& address_of(self@.program_id, RecordKey::Shop) == Some(address@)
                    &&& self@.records.contains_key(address@)
                    &&& self@.shop() == Some(shop)
                },
                None => self@.shop() is None,
            },
    {
        let address = derive_address(&self.program_id(), &RecordKey::Shop)?;
        match self.load_at(&address) {
            Some(stored) => match &stored.record {
                Record::Shop(shop) => Some((address, *shop)),
                _ => None,
            },
            None => None,
        }
    }

    /// The item at `address`, if an item lives there.
    pub fn item_at(&self, address: &Address) -> (found: Option<&Item>)
        requires
            self.wf(),
        ensures
            match found {
                Some(item) => self@.item_at(address@) == Some(item@),
                None => self@.item_at(address@) is None,
            },
    {
        match self.load_at(address) {
            Some(stored) => match &stored.record {
                Record::Item(item) => Some(item),
                _ => None,
            },
            None => None,
        }
    }

    /// Opens the shop: creates the singleton with `caller` as admin and no items.
    ///
    /// Fails, changing nothing, with `AddressUnavailable` if the shop has no
    /// address; else with `AlreadyExists` if the shop was opened before.
    pub fn initialize_shop(&mut self, caller: Identity) -> (result: Result<(), ShopError>)
        requires
            old(self).wf(),
        ensures
            final(self).wf(),
            result == old(self)@.initialize_shop_outcome(),
            final(self)@ == old(self)@.after_initialize_shop(caller),
    {
        let address = match derive_address(&self.program_id(), &RecordKey::Shop) {
            Some(address) => address,
            None => {
                return Err(ShopError::AddressUnavailable);
            },
        };
        if self.load_at(&address).is_some() {
            return Err(ShopError::AlreadyExists);
        }
        let mut ctx = InitializeShop { admin: caller, shop: None };
        initialize_shop(&mut ctx)?;
        let shop = ctx.shop.unwrap();
        self.insert(Stored { address, space: SHOP_SPACE, record: Record::Shop(shop) });
        Ok(())
    }

    /// Adds the item `id` to the catalog and counts it in the shop.
    ///
    /// Fails, changing nothing, with `NotFound` if there is no shop; else with
    /// `Unauthorized` if `caller` is not its admin; else with
    /// `AddressUnavailable` if the id has no address; else with
    /// `AlreadyExists` if that address is occupied; else with
    /// `CapacityExceeded` if the URI is longer than `MAX_METADATA_URI_BYTES`
    /// bytes or the item counter cannot count further.
    pub fn add_item(
        &mut self,
        caller: Identity,
        id: u64,
        price: u64,
        metadata_uri: String,
    ) -> (result: Result<(), ShopError>)
        requires
            old(self).wf(),
        ensures
            final(self).wf(),
            result == old(self)@.add_item_outcome(caller, id, metadata_uri@),
            final(self)@ == old(self)@.after_add_item(caller, id, price, metadata_uri@),
    {
        let (shop_address, shop) = match self.shop_record() {
            Some(found) => found,
            None => {
                return Err(ShopError::NotFound);
            },
        };
        if !is_admin(&shop, &caller) {
            return Err(ShopError::Unauthorized);
        }
        let address = match derive_address(&self.program_id(), &RecordKey::Item { id }) {
            Some(address) => address,
            None => {
                return Err(ShopError::AddressUnavailable);
            },
        };
        if self.load_at(&address).is_some() {
            return Err(ShopError::AlreadyExists);
        }
        let mut ctx = AddItem { admin: caller, shop, item: None };
        add_item(&mut ctx, id, price, metadata_uri)?;
        let item = ctx.item.unwrap();
        proof {
            self.lemma_wf_view();
        }
        self.replace(&shop_address, Record::Shop(ctx.shop));
        self.insert(Stored { address, space: ITEM_SPACE, record: Record::Item(item) });
        Ok(())
    }
}

} // verus!
