use shop::error::ShopError;
use shop::identity::Identity;
use shop::records::{
    history_capacity, history_space, Item, PurchaseHistory, PurchaseRecord, HISTORY_HEADER_BYTES,
    HISTORY_SPACE, ITEM_HEADER_BYTES, ITEM_SPACE, MAX_METADATA_URI_BYTES, MAX_PURCHASES,
    PURCHASE_SLOT_BYTES, SHOP_SPACE,
};

fn key(byte: u8) -> Identity {
    Identity::new([byte; 32])
}

#[test]
fn layout_sizes_have_their_exact_values() {
    assert_eq!(SHOP_SPACE, 48);
    assert_eq!(ITEM_HEADER_BYTES, 28);
    assert_eq!(MAX_METADATA_URI_BYTES, 200);
    assert_eq!(ITEM_SPACE, 228);
    assert_eq!(HISTORY_HEADER_BYTES, 44);
    assert_eq!(PURCHASE_SLOT_BYTES, 32);
    assert_eq!(MAX_PURCHASES, 10);
    assert_eq!(HISTORY_SPACE, 364);
}

#[test]
fn history_space_reserves_one_slot_per_purchase() {
    assert_eq!(history_space(0), Some(44));
    assert_eq!(history_space(1), Some(76));
    assert_eq!(history_space(10), Some(364));
    assert_eq!(history_space(MAX_PURCHASES), Some(HISTORY_SPACE));
}

#[test]
fn history_space_reports_overflow() {
    assert_eq!(history_space(usize::MAX), None);
    assert_eq!(history_space(usize::MAX / 32), None);
    assert_eq!(history_space((usize::MAX - 44) / 32), Some(44 + 32 * ((usize::MAX - 44) / 32)));
}

#[test]
fn history_capacity_counts_whole_slots() {
    assert_eq!(history_capacity(0), 0);
    assert_eq!(history_capacity(43), 0);
    assert_eq!(history_capacity(44), 0);
    assert_eq!(history_capacity(75), 0);
    assert_eq!(history_capacity(76), 1);
    assert_eq!(history_capacity(363), 9);
    assert_eq!(history_capacity(HISTORY_SPACE), 10);
    assert_eq!(history_capacity(395), 10);
    assert_eq!(history_capacity(396), 11);
}

#[test]
fn capacity_of_space_for_n_is_n() {
    for n in 0..200usize {
        assert_eq!(history_capacity(history_space(n).unwrap()), n);
    }
}

#[test]
fn new_history_is_empty() {
    let history = PurchaseHistory::new(key(7), 3);
    assert_eq!(history.user, key(7));
    assert_eq!(history.purchases, vec![]);
    assert_eq!(history.capacity, 3);
    assert_eq!(history.len(), 0);
    assert!(!history.is_full());
}

#[test]
fn append_keeps_insertion_order() {
    let mut history = PurchaseHistory::new(key(7), 3);
    assert_eq!(history.append(PurchaseRecord { item_id: 5, timestamp: 30 }), Ok(()));
    assert_eq!(history.append(PurchaseRecord { item_id: 4, timestamp: 20 }), Ok(()));
    assert_eq!(history.append(PurchaseRecord { item_id: 5, timestamp: -1 }), Ok(()));
    assert_eq!(
        history.purchases,
        vec![
            PurchaseRecord { item_id: 5, timestamp: 30 },
            PurchaseRecord { item_id: 4, timestamp: 20 },
            PurchaseRecord { item_id: 5, timestamp: -1 },
        ]
    );
    assert!(history.is_full());
}

#[test]
fn append_stops_at_capacity() {
    let mut history = PurchaseHistory::new(key(7), 2);
    assert_eq!(history.append(PurchaseRecord { item_id: 1, timestamp: 10 }), Ok(()));
    assert_eq!(history.append(PurchaseRecord { item_id: 2, timestamp: 11 }), Ok(()));
    assert_eq!(
        history.append(PurchaseRecord { item_id: 3, timestamp: 12 }),
        Err(ShopError::CapacityExceeded)
    );
    assert_eq!(history.len(), 2);
    assert_eq!(
        history.purchases,
        vec![
            PurchaseRecord { item_id: 1, timestamp: 10 },
            PurchaseRecord { item_id: 2, timestamp: 11 },
        ]
    );
}

#[test]
fn history_without_room_takes_nothing() {
    let mut history = PurchaseHistory::new(key(1), 0);
    assert!(history.is_full());
    assert_eq!(
        history.append(PurchaseRecord { item_id: 1, timestamp: 1 }),
        Err(ShopError::CapacityExceeded)
    );
    assert_eq!(history.purchases, vec![]);
}

#[test]
fn history_fits_where_all_its_slots_fit() {
    let history = PurchaseHistory::new(key(1), 10);
    assert!(history.fits_in(364));
    assert!(history.fits_in(1000));
    assert!(!history.fits_in(363));
    assert!(!history.fits_in(0));
    let none = PurchaseHistory::new(key(1), 0);
    assert!(none.fits_in(44));
    assert!(!none.fits_in(43));
    let huge = PurchaseHistory::new(key(1), usize::MAX);
    assert!(!huge.fits_in(usize::MAX));
}

#[test]
fn item_fits_by_the_bytes_of_its_uri() {
    let item = Item { id: 1, price: 2, metadata_uri: "a".repeat(200) };
    assert!(item.fits_in(ITEM_SPACE));
    assert!(!item.fits_in(ITEM_SPACE - 1));
    let longer = Item { id: 1, price: 2, metadata_uri: "a".repeat(201) };
    assert!(!longer.fits_in(ITEM_SPACE));
    assert!(longer.fits_in(ITEM_SPACE + 1));
    let empty = Item { id: 1, price: 2, metadata_uri: String::new() };
    assert!(empty.fits_in(28));
    assert!(!empty.fits_in(27));
    // Two bytes per character: 100 characters fill the 200 bytes.
    let wide = Item { id: 1, price: 2, metadata_uri: "é".repeat(100) };
    assert!(wide.fits_in(ITEM_SPACE));
    let too_wide = Item { id: 1, price: 2, metadata_uri: "é".repeat(101) };
    assert!(!too_wide.fits_in(ITEM_SPACE));
}

#[test]
fn clones_hold_the_same_values() {
    let item = Item { id: 3, price: 9, metadata_uri: "ipfs://cid".to_string() };
    assert_eq!(item.clone(), item);
    let mut history = PurchaseHistory::new(key(4), 5);
    history.append(PurchaseRecord { item_id: 3, timestamp: 77 }).unwrap();
    history.append(PurchaseRecord { item_id: 8, timestamp: 78 }).unwrap();
    assert_eq!(history.clone(), history);
}

#[test]
fn error_messages() {
    assert_eq!(ShopError::Unauthorized.message(), "You are not authorized to perform this action");
    assert_eq!(
        ShopError::InvalidHistoryOwner.message(),
        "History account does not belong to the buyer"
    );
    assert_eq!(ShopError::AlreadyExists.message(), "A record already exists at this address");
    assert_eq!(ShopError::NotFound.message(), "The referenced record does not exist");
    assert_eq!(ShopError::CapacityExceeded.message(), "The record has no room left");
    assert_eq!(ShopError::TransferFailed.message(), "The payment was declined");
    assert_eq!(
        ShopError::AddressUnavailable.message(),
        "No address can be derived for this record"
    );
}

#[test]
fn identities_compare_by_bytes() {
    let mut bytes = [0u8; 32];
    bytes[31] = 1;
    assert_eq!(Identity::new(bytes), Identity::new(bytes));
    assert!(Identity::new(bytes).same_as(&Identity::new(bytes)));
    assert_ne!(Identity::new(bytes), Identity::new([0u8; 32]));
    assert!(!Identity::new(bytes).same_as(&Identity::new([0u8; 32])));
    assert_eq!(Identity::new(bytes).to_bytes(), bytes);
    assert_eq!(Identity::new(bytes).to_vec(), bytes.to_vec());
}
