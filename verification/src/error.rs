//! The ways a shop operation can fail.

use vstd::prelude::*;

verus! {

/// Why an operation was refused. Every refusal leaves all records as they were.
#[derive(Clone, Copy, Debug, PartialEq, Eq, Structural)]
pub enum ShopError {
    /// The caller is not the admin stored in the shop.
    Unauthorized,
    /// The history record does not belong to the buyer.
    InvalidHistoryOwner,
    /// A record already occupies the address where one was to be created.
    AlreadyExists,
    /// No record of the expected kind lives at the referenced address.
    NotFound,
    /// The record's fixed allocation has no room for what was to be stored.
    CapacityExceeded,
    /// The asset transfer was declined.
    TransferFailed,
    /// No address can be derived for the record that was to be created.
    AddressUnavailable,
}

impl ShopError {
    /// The text shown to a user for each kind of failure.
    pub open spec fn message_text(self) -> Seq<char> {
        match self {
            ShopError::Unauthorized => "You are not authorized to perform this action"@,
            ShopError::InvalidHistoryOwner => "History account does not belong to the buyer"@,
            ShopError::AlreadyExists => "A record already exists at this address"@,
            ShopError::NotFound => "The referenced record does not exist"@,
            ShopError::CapacityExceeded => "The record has no room left"@,
            ShopError::TransferFailed => "The payment was declined"@,
            ShopError::AddressUnavailable => "No address can be derived for this record"@,
        }
    }

    /// The user-visible message of this error.
    pub fn message(&self) -> (text: &'static str)
        ensures
            text@ == self.message_text(),
    {
        match self {
            ShopError::Unauthorized => "You are not authorized to perform this action",
            ShopError::InvalidHistoryOwner => "History account does not belong to the buyer",
            ShopError::AlreadyExists => "A record already exists at this address",
            ShopError::NotFound => "The referenced record does not exist",
            ShopError::CapacityExceeded => "The record has no room left",
            ShopError::TransferFailed => "The payment was declined",
            ShopError::AddressUnavailable => "No address can be derived for this record",
        }
    }
}

} // verus!
