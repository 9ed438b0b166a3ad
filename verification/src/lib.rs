//! A catalog-and-purchase engine over separately addressed, fixed-size records.
//!
//! An admin opens a shop and publishes priced items; buyers pay for items and
//! each buyer accumulates a history of purchases. Every record lives at an
//! address derived from its key, in storage whose size is fixed when the
//! record is created.
//!
//! The operations come in two forms. In `instructions` each works on records
//! that were already looked up, as a program on a ledger receives them. In
//! `catalog` and `purchase` each works on a `RecordStore`, which finds the
//! records by address and keeps them. `laws` states what holds across calls.

pub mod address;
pub mod catalog;
pub mod error;
pub mod guard;
pub mod identity;
pub mod instructions;
pub mod laws;
pub mod payment;
pub mod purchase;
pub mod records;
pub mod store;

pub use crate::address::{derive_address, RecordKey};
pub use crate::error::ShopError;
pub use crate::identity::{Address, Identity};
pub use crate::instructions::{
    add_item, first_purchase, initialize_shop, subsequent_purchase, AddItem, FirstPurchase,
    InitializeShop, SubsequentPurchase,
};
pub use crate::payment::{AccountRef, TransferInstruction, TransferOutcome};
pub use crate::records::{Item, PurchaseHistory, PurchaseRecord, Shop};
pub use crate::store::{Record, RecordStore, Stored};
