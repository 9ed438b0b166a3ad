//! The two authorization checks that the operations apply before they act.

use vstd::prelude::*;
use crate::identity::Identity;
use crate::records::{PurchaseHistory, Shop};

verus! {

/// Whether `caller` is the admin stored in `shop`.
pub fn is_admin(shop: &Shop, caller: &Identity) -> (allowed: bool)
    ensures
        allowed == (*caller == shop.admin),
{
    *caller == shop.admin
}

/// Whether `history` belongs to `buyer`.
pub fn owns_history(history: &PurchaseHistory, buyer: &Identity) -> (owns: bool)
    ensures
        owns == (history@.user == *buyer),
{
    history.user == *buyer
}

} // verus!
