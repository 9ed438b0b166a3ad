//! What holds of the shop whatever is asked of it, in whatever order.

use vstd::prelude::*;
use crate::address::{address_of, RecordKey};
use crate::error::ShopError;
use crate::identity::Identity;
use crate::instructions::{purchase_of, settle};
use crate::payment::TransferOutcome;
use crate::records::MAX_PURCHASES;
use crate::store::{RecordView, StoredView, StoreView};

verus! {

/// How a record may change over its life: its storage never changes size; a
/// shop keeps its admin and only counts upwards; an item never changes; a
/// history keeps its owner and its room, and only gains purchases at the end.
pub open spec fn record_extends(before: StoredView, after: StoredView) -> bool {
    before.space == after.space && match (before.record, after.record) {
        (RecordView::Shop(old), RecordView::Shop(new)) => old.admin == new.admin && old.item_count
            <= new.item_count,
        (RecordView::Item(old), RecordView::Item(new)) => old == new,
        (RecordView::History(old), RecordView::History(new)) => old.user == new.user
            && old.capacity == new.capacity && old.purchases.is_prefix_of(new.purchases),
        _ => false,
    }
}

/// How a store may change: no record leaves, moves or changes kind, and each
/// changes only as `record_extends` allows.
pub open spec fn store_extends(before: StoreView, after: StoreView) -> bool {
    before.program_id == after.program_id && forall|address: Seq<u8>| #[trigger]
        before.records.contains_key(address) ==> after.records.contains_key(address)
            && record_extends(before.records[address], after.records[address])
}

/// A key names at most one record: there is one shop, one item per id and
/// one history per buyer, because each sits at the address of its key.
pub proof fn law_one_record_per_key(store: StoreView, first: Seq<u8>, second: Seq<u8>)
    requires
        store.wf(),
        store.records.contains_key(first),
        store.records.contains_key(second),
        store.records[first].record.key() == store.records[second].record.key(),
    ensures
        first == second,
{
}

/// Opening the shop keeps the store sound and touches no other record.
pub proof fn law_initialize_shop_keeps_store_sound(store: StoreView, caller: Identity)
    requires
        store.wf(),
    ensures
        store.after_initialize_shop(caller).wf(),
        store_extends(store, store.after_initialize_shop(caller)),
{
}

/// Adding an item keeps the store sound; the shop keeps its admin and every
/// other record stays as it was.
pub proof fn law_add_item_keeps_store_sound(
    store: StoreView,
    caller: Identity,
    id: u64,
    price: u64,
    metadata_uri: Seq<char>,
)
    requires
        store.wf(),
    ensures
        store.after_add_item(caller, id, price, metadata_uri).wf(),
        store_extends(store, store.after_add_item(caller, id, price, metadata_uri)),
{
}

/// A first purchase keeps the store sound and touches no existing record.
pub proof fn law_first_purchase_keeps_store_sound(
    store: StoreView,
    buyer: Identity,
    item: Seq<u8>,
    transfer: TransferOutcome,
    now: i64,
)
    requires
        store.wf(),
    ensures
        store.after_first_purchase(buyer, item, transfer, now).wf(),
        store_extends(store, store.after_first_purchase(buyer, item, transfer, now)),
{
}

/// A later purchase keeps the store sound; the history it appends to keeps
/// every earlier purchase in place, and every other record stays as it was.
pub proof fn law_subsequent_purchase_keeps_store_sound(
    store: StoreView,
    buyer: Identity,
    item: Seq<u8>,
    history: Seq<u8>,
    transfer: TransferOutcome,
    now: i64,
)
    requires
        store.wf(),
    ensures
        store.after_subsequent_purchase(buyer, item, history, transfer, now).wf(),
        store_extends(store, store.after_subsequent_purchase(buyer, item, history, transfer, now)),
{
}

/// The shop is opened once: after it was opened, opening it again is refused
/// with `AlreadyExists`, whoever asks.
pub proof fn law_shop_opens_once(store: StoreView, first: Identity, second: Identity)
    requires
        store.initialize_shop_outcome() is Ok,
    ensures
        store.after_initialize_shop(first).initialize_shop_outcome() == Err::<(), ShopError>(
            ShopError::AlreadyExists,
        ),
        store.after_initialize_shop(first).after_initialize_shop(second)
            == store.after_initialize_shop(first),
        store.after_initialize_shop(first).shop() matches Some(shop) && shop.admin == first
            && shop.item_count == 0,
{
}

/// An id is used once: after the admin added an item, adding one with the
/// same id is refused with `AlreadyExists`, and the first item stays.
pub proof fn law_item_id_used_once(
    store: StoreView,
    admin: Identity,
    id: u64,
    price: u64,
    metadata_uri: Seq<char>,
    other_price: u64,
    other_uri: Seq<char>,
)
    requires
        store.add_item_outcome(admin, id, metadata_uri) is Ok,
    ensures
        ({
            let added = store.after_add_item(admin, id, price, metadata_uri);
            &&& added.item(id) matches Some(item) && item.id == id && item.price == price
                && item.metadata_uri == metadata_uri
            &&& added.shop() matches Some(shop) && shop.admin == admin && shop.item_count
                == store.shop().unwrap().item_count + 1
            &&& added.add_item_outcome(admin, id, other_uri) == Err::<(), ShopError>(
                ShopError::AlreadyExists,
            )
            &&& added.after_add_item(admin, id, other_price, other_uri) == added
        }),
{
}

/// Only the admin adds items: anyone else is refused with `Unauthorized`,
/// and no record is created or changed.
pub proof fn law_only_admin_adds_items(
    store: StoreView,
    caller: Identity,
    id: u64,
    price: u64,
    metadata_uri: Seq<char>,
)
    requires
        store.shop() matches Some(shop) && shop.admin != caller,
    ensures
        store.add_item_outcome(caller, id, metadata_uri) == Err::<(), ShopError>(
            ShopError::Unauthorized,
        ),
        store.after_add_item(caller, id, price, metadata_uri) == store,
{
}

/// A buyer who never purchased makes a first purchase and then a later one:
/// the second is owed success, and the buyer's history then holds exactly
/// the two purchases, in the order they were made.
pub proof fn law_first_then_subsequent_purchase(
    store: StoreView,
    buyer: Identity,
    item: Seq<u8>,
    first_time: i64,
    second_time: i64,
)
    requires
        store.first_purchase_checks(buyer, item) is Ok,
    ensures
        ({
            let history = address_of(store.program_id, RecordKey::History { owner: buyer }).unwrap();
            let bought = store.item_at(item).unwrap();
            let once = store.after_first_purchase(
                buyer,
                item,
                TransferOutcome::Completed,
                first_time,
            );
            let twice = once.after_subsequent_purchase(
                buyer,
                item,
                history,
                TransferOutcome::Completed,
                second_time,
            );
            &&& once.history_of(buyer) matches Some(found) && found.user == buyer
                && found.purchases == seq![purchase_of(bought, first_time)]
            &&& once.subsequent_purchase_checks(buyer, item, history) is Ok
            &&& twice.history_of(buyer) matches Some(found) && found.user == buyer
                && found.purchases == seq![
                purchase_of(bought, first_time),
                purchase_of(bought, second_time),
            ]
        }),
{
    let history = address_of(store.program_id, RecordKey::History { owner: buyer }).unwrap();
    let bought = store.item_at(item).unwrap();
    let once = store.after_first_purchase(buyer, item, TransferOutcome::Completed, first_time);
    let twice = once.after_subsequent_purchase(
        buyer,
        item,
        history,
        TransferOutcome::Completed,
        second_time,
    );
    assert(once.item_at(item) == store.item_at(item));
    assert(once.shop() == store.shop());
    let first = once.history_at(history).unwrap();
    assert(first.purchases =~= seq![purchase_of(bought, first_time)]);
    let second = twice.history_at(history).unwrap();
    assert(second.purchases =~= seq![
        purchase_of(bought, first_time),
        purchase_of(bought, second_time),
    ]);
}

/// A history is created once: after a buyer's first purchase, another first
/// purchase by that buyer is refused with `AlreadyExists`, however its
/// transfer ended, and the history stays as it was.
pub proof fn law_second_first_purchase_refused(
    store: StoreView,
    buyer: Identity,
    item: Seq<u8>,
    first_time: i64,
    transfer: TransferOutcome,
    second_time: i64,
)
    requires
        store.first_purchase_checks(buyer, item) is Ok,
    ensures
        ({
            let once = store.after_first_purchase(
                buyer,
                item,
                TransferOutcome::Completed,
                first_time,
            );
            &&& settle(once.first_purchase_checks(buyer, item), transfer) == Err::<
                (),
                ShopError,
            >(ShopError::AlreadyExists)
            &&& once.after_first_purchase(buyer, item, transfer, second_time) == once
        }),
{
    let once = store.after_first_purchase(buyer, item, TransferOutcome::Completed, first_time);
    assert(once.item_at(item) == store.item_at(item));
    assert(once.shop() == store.shop());
}

/// A purchase is recorded exactly when its checks passed and it was paid:
/// nobody is recorded without paying, and a purchase that would be refused
/// is refused for the same reason however the transfer ended.
pub proof fn law_recorded_exactly_when_paid(
    checks: Result<(), ShopError>,
    transfer: TransferOutcome,
)
    ensures
        settle(checks, transfer) is Ok <==> checks is Ok && transfer == TransferOutcome::Completed,
        checks is Err ==> settle(checks, transfer) == checks,
{
}

/// A declined transfer fails the purchase, first or later, and leaves every
/// record as it was: the shop, its counter, and every history.
pub proof fn law_declined_transfer_changes_nothing(
    store: StoreView,
    buyer: Identity,
    item: Seq<u8>,
    history: Seq<u8>,
    now: i64,
)
    ensures
        settle(store.first_purchase_checks(buyer, item), TransferOutcome::Declined) is Err,
        store.first_purchase_checks(buyer, item) is Ok ==> settle(
            store.first_purchase_checks(buyer, item),
            TransferOutcome::Declined,
        ) == Err::<(), ShopError>(ShopError::TransferFailed),
        store.after_first_purchase(buyer, item, TransferOutcome::Declined, now) == store,
        settle(
            store.subsequent_purchase_checks(buyer, item, history),
            TransferOutcome::Declined,
        ) is Err,
        store.subsequent_purchase_checks(buyer, item, history) is Ok ==> settle(
            store.subsequent_purchase_checks(buyer, item, history),
            TransferOutcome::Declined,
        ) == Err::<(), ShopError>(ShopError::TransferFailed),
        store.after_subsequent_purchase(buyer, item, history, TransferOutcome::Declined, now)
            == store,
{
}

/// A refused operation leaves every record as it was, whatever the reason.
pub proof fn law_refusal_changes_nothing(
    store: StoreView,
    who: Identity,
    id: u64,
    price: u64,
    metadata_uri: Seq<char>,
    item: Seq<u8>,
    history: Seq<u8>,
    transfer: TransferOutcome,
    now: i64,
)
    ensures
        store.initialize_shop_outcome() is Err ==> store.after_initialize_shop(who) == store,
        store.add_item_outcome(who, id, metadata_uri) is Err ==> store.after_add_item(
            who,
            id,
            price,
            metadata_uri,
        ) == store,
        settle(store.first_purchase_checks(who, item), transfer) is Err
            ==> store.after_first_purchase(who, item, transfer, now) == store,
        settle(store.subsequent_purchase_checks(who, item, history), transfer) is Err
            ==> store.after_subsequent_purchase(who, item, history, transfer, now) == store,
{
}

/// A full history refuses the next purchase with `CapacityExceeded`, however
/// the transfer ended, and keeps every purchase it holds.
pub proof fn law_full_history_refuses_purchase(
    store: StoreView,
    buyer: Identity,
    item: Seq<u8>,
    history: Seq<u8>,
    transfer: TransferOutcome,
    now: i64,
)
    requires
        store.shop() is Some,
        store.item_at(item) is Some,
        store.history_at(history) matches Some(found) && found.user == buyer
            && found.purchases.len() == found.capacity,
    ensures
        settle(store.subsequent_purchase_checks(buyer, item, history), transfer) == Err::<
            (),
            ShopError,
        >(ShopError::CapacityExceeded),
        store.after_subsequent_purchase(buyer, item, history, transfer, now) == store,
{
}

/// A history with room left takes the next paid purchase: it then holds one
/// purchase more, the new one last, and never more than it has room for.
pub proof fn law_history_with_room_takes_purchase(
    store: StoreView,
    buyer: Identity,
    item: Seq<u8>,
    history: Seq<u8>,
    now: i64,
)
    requires
        store.shop() is Some,
        store.item_at(item) is Some,
        store.history_at(history) matches Some(found) && found.user == buyer
            && found.purchases.len() < found.capacity,
    ensures
        store.subsequent_purchase_checks(buyer, item, history) is Ok,
        ({
            let before = store.history_at(history).unwrap();
            let after = store.after_subsequent_purchase(
                buyer,
                item,
                history,
                TransferOutcome::Completed,
                now,
            ).history_at(history);
            after matches Some(found) && found.purchases == before.purchases.push(
                purchase_of(store.item_at(item).unwrap(), now),
            ) && found.purchases.len() <= found.capacity
        }),
{
}

/// The history that a first purchase creates has room for exactly
/// `MAX_PURCHASES` purchases.
pub proof fn law_first_purchase_reserves_room(
    store: StoreView,
    buyer: Identity,
    item: Seq<u8>,
    now: i64,
)
    requires
        store.first_purchase_checks(buyer, item) is Ok,
    ensures
        store.after_first_purchase(buyer, item, TransferOutcome::Completed, now).history_of(
            buyer,
        ) matches Some(found) && found.capacity == MAX_PURCHASES && found.purchases.len() == 1,
{
}

/// A history is appended to only by its owner: a purchase that names a
/// history of another buyer is refused with `InvalidHistoryOwner`, however
/// the transfer ended, and changes nothing.
pub proof fn law_foreign_history_refused(
    store: StoreView,
    buyer: Identity,
    item: Seq<u8>,
    history: Seq<u8>,
    transfer: TransferOutcome,
    now: i64,
)
    requires
        store.shop() is Some,
        store.item_at(item) is Some,
        store.history_at(history) matches Some(found) && found.user != buyer,
    ensures
        settle(store.subsequent_purchase_checks(buyer, item, history), transfer) == Err::<
            (),
            ShopError,
        >(ShopError::InvalidHistoryOwner),
        store.after_subsequent_purchase(buyer, item, history, transfer, now) == store,
{
}

} // verus!
