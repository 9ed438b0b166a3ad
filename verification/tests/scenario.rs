use shop::address::{derive_address, RecordKey};
use shop::records::MAX_PURCHASES;
use shop::store::RecordStore;
use shop::{
    Address, Identity, Item, PurchaseHistory, PurchaseRecord, Shop, ShopError,
    TransferInstruction, TransferOutcome,
};

fn who(byte: u8) -> Identity {
    Identity::new([byte; 32])
}

fn program() -> Identity {
    Identity::new([
        63, 10, 42, 241, 145, 41, 59, 26, 180, 115, 96, 185, 50, 152, 186, 217, 249, 96, 74, 196,
        163, 121, 53, 66, 233, 197, 106, 128, 228, 195, 218, 0,
    ])
}

fn item_address(id: u64) -> Address {
    derive_address(&program(), &RecordKey::Item { id }).unwrap()
}

fn history_address(buyer: Identity) -> Address {
    derive_address(&program(), &RecordKey::History { owner: buyer }).unwrap()
}

/// Stands in for the transfer primitive: balances by account, moved as instructed.
struct Bank {
    balances: Vec<(Identity, u64)>,
}

impl Bank {
    fn balance(&self, account: Identity) -> u64 {
        self.balances.iter().find(|(key, _)| *key == account).map(|(_, amount)| *amount).unwrap_or(0)
    }

    fn set(&mut self, account: Identity, amount: u64) {
        match self.balances.iter_mut().find(|(key, _)| *key == account) {
            Some(entry) => entry.1 = amount,
            None => self.balances.push((account, amount)),
        }
    }

    fn execute(&mut self, instruction: &TransferInstruction) -> TransferOutcome {
        assert_eq!(instruction.program_id, who(0));
        assert_eq!(&instruction.data[..4], &[2, 0, 0, 0]);
        let mut amount = [0u8; 8];
        amount.copy_from_slice(&instruction.data[4..12]);
        let amount = u64::from_le_bytes(amount);
        let from = instruction.accounts[0].key;
        let to = instruction.accounts[1].key;
        if self.balance(from) < amount {
            return TransferOutcome::Declined;
        }
        self.set(from, self.balance(from) - amount);
        self.set(to, self.balance(to) + amount);
        TransferOutcome::Completed
    }
}

fn shop_with_item(admin: Identity, id: u64, price: u64) -> RecordStore {
    let mut store = RecordStore::new(program());
    assert_eq!(store.initialize_shop(admin), Ok(()));
    assert_eq!(store.add_item(admin, id, price, "ipfs://cid".to_string()), Ok(()));
    store
}

#[test]
fn two_purchases_of_one_item() {
    let admin = who(1);
    let buyer = who(2);
    let mut bank = Bank { balances: vec![(admin, 50), (buyer, 1000)] };

    let mut store = RecordStore::new(program());
    assert_eq!(store.initialize_shop(admin), Ok(()));
    assert_eq!(store.shop(), Some(Shop { admin, item_count: 0 }));
    assert_eq!(store.add_item(admin, 1, 100, "ipfs://cid".to_string()), Ok(()));
    assert_eq!(store.shop(), Some(Shop { admin, item_count: 1 }));
    assert_eq!(
        store.item(1),
        Some(&Item { id: 1, price: 100, metadata_uri: "ipfs://cid".to_string() })
    );

    let item = item_address(1);
    let t1 = 1_700_000_000;
    let payment = store.first_purchase_payment(buyer, &item).unwrap();
    let outcome = bank.execute(&payment);
    assert_eq!(store.first_purchase(buyer, &item, outcome, t1), Ok(()));
    assert_eq!(
        store.history_of(&buyer),
        Some(&PurchaseHistory {
            user: buyer,
            purchases: vec![PurchaseRecord { item_id: 1, timestamp: t1 }],
            capacity: 10,
        })
    );

    let history = history_address(buyer);
    let t2 = 1_700_000_060;
    let payment = store.subsequent_purchase_payment(buyer, &item, &history).unwrap();
    let outcome = bank.execute(&payment);
    assert_eq!(store.subsequent_purchase(buyer, &item, &history, outcome, t2), Ok(()));
    let recorded = store.history_of(&buyer).unwrap();
    assert_eq!(
        recorded.purchases,
        vec![
            PurchaseRecord { item_id: 1, timestamp: t1 },
            PurchaseRecord { item_id: 1, timestamp: t2 },
        ]
    );
    assert!(recorded.purchases[1].timestamp >= recorded.purchases[0].timestamp);

    assert_eq!(bank.balance(admin), 250);
    assert_eq!(bank.balance(buyer), 800);
    assert_eq!(store.shop(), Some(Shop { admin, item_count: 1 }));
    assert_eq!(store.len(), 3);
}

#[test]
fn first_then_subsequent_holds_two_records_in_call_order() {
    for byte in [2u8, 3, 200] {
        let buyer = who(byte);
        let mut store = shop_with_item(who(1), 5, 10);
        let item = item_address(5);
        assert_eq!(store.history_of(&buyer), None);
        assert_eq!(store.first_purchase(buyer, &item, TransferOutcome::Completed, 7), Ok(()));
        assert_eq!(
            store.subsequent_purchase(
                buyer,
                &item,
                &history_address(buyer),
                TransferOutcome::Completed,
                8
            ),
            Ok(())
        );
        assert_eq!(
            store.history_of(&buyer).unwrap().purchases,
            vec![
                PurchaseRecord { item_id: 5, timestamp: 7 },
                PurchaseRecord { item_id: 5, timestamp: 8 },
            ]
        );
    }
}

#[test]
fn second_first_purchase_already_exists() {
    let buyer = who(2);
    let mut store = shop_with_item(who(1), 1, 100);
    let item = item_address(1);
    assert_eq!(store.first_purchase(buyer, &item, TransferOutcome::Completed, 10), Ok(()));
    assert_eq!(store.first_purchase_payment(buyer, &item), Err(ShopError::AlreadyExists));
    assert_eq!(
        store.first_purchase(buyer, &item, TransferOutcome::Completed, 20),
        Err(ShopError::AlreadyExists)
    );
    assert_eq!(
        store.first_purchase(buyer, &item, TransferOutcome::Declined, 20),
        Err(ShopError::AlreadyExists)
    );
    assert_eq!(
        store.history_of(&buyer).unwrap().purchases,
        vec![PurchaseRecord { item_id: 1, timestamp: 10 }]
    );
    assert_eq!(store.len(), 3);
}

#[test]
fn failed_transfer_leaves_everything_unchanged() {
    let admin = who(1);
    let buyer = who(2);
    let mut bank = Bank { balances: vec![(buyer, 99)] };
    let mut store = shop_with_item(admin, 1, 100);
    let item = item_address(1);

    let payment = store.first_purchase_payment(buyer, &item).unwrap();
    let outcome = bank.execute(&payment);
    assert_eq!(outcome, TransferOutcome::Declined);
    assert_eq!(store.first_purchase(buyer, &item, outcome, 10), Err(ShopError::TransferFailed));
    assert_eq!(store.history_of(&buyer), None);
    assert_eq!(store.shop(), Some(Shop { admin, item_count: 1 }));
    assert_eq!(store.len(), 2);
    assert_eq!(bank.balance(buyer), 99);
    assert_eq!(bank.balance(admin), 0);

    bank.set(buyer, 100);
    let payment = store.first_purchase_payment(buyer, &item).unwrap();
    let outcome = bank.execute(&payment);
    assert_eq!(store.first_purchase(buyer, &item, outcome, 11), Ok(()));
    let before = store.history_of(&buyer).unwrap().clone();
    let history = history_address(buyer);
    let payment = store.subsequent_purchase_payment(buyer, &item, &history).unwrap();
    let outcome = bank.execute(&payment);
    assert_eq!(outcome, TransferOutcome::Declined);
    assert_eq!(
        store.subsequent_purchase(buyer, &item, &history, outcome, 12),
        Err(ShopError::TransferFailed)
    );
    assert_eq!(store.history_of(&buyer), Some(&before));
    assert_eq!(store.shop(), Some(Shop { admin, item_count: 1 }));
    assert_eq!(store.len(), 3);
    assert_eq!(bank.balance(admin), 100);
}

#[test]
fn eleventh_purchase_exceeds_capacity() {
    let buyer = who(2);
    let mut store = shop_with_item(who(1), 1, 100);
    let item = item_address(1);
    let history = history_address(buyer);
    assert_eq!(store.first_purchase(buyer, &item, TransferOutcome::Completed, 0), Ok(()));
    for n in 1..MAX_PURCHASES {
        assert_eq!(
            store.subsequent_purchase(buyer, &item, &history, TransferOutcome::Completed, n as i64),
            Ok(())
        );
    }
    let expected: Vec<PurchaseRecord> =
        (0..10).map(|n| PurchaseRecord { item_id: 1, timestamp: n }).collect();
    assert_eq!(store.history_of(&buyer).unwrap().purchases, expected);
    assert_eq!(
        store.subsequent_purchase_payment(buyer, &item, &history),
        Err(ShopError::CapacityExceeded)
    );
    assert_eq!(
        store.subsequent_purchase(buyer, &item, &history, TransferOutcome::Completed, 10),
        Err(ShopError::CapacityExceeded)
    );
    assert_eq!(
        store.subsequent_purchase(buyer, &item, &history, TransferOutcome::Declined, 10),
        Err(ShopError::CapacityExceeded)
    );
    assert_eq!(store.history_of(&buyer).unwrap().purchases, expected);
    assert_eq!(store.history_of(&buyer).unwrap().capacity, 10);
}

#[test]
fn stranger_cannot_add_items() {
    let admin = who(1);
    let mut store = RecordStore::new(program());
    assert_eq!(store.initialize_shop(admin), Ok(()));
    assert_eq!(
        store.add_item(who(2), 1, 100, "ipfs://cid".to_string()),
        Err(ShopError::Unauthorized)
    );
    assert_eq!(store.item(1), None);
    assert_eq!(store.load_at(&item_address(1)), None);
    assert_eq!(store.shop(), Some(Shop { admin, item_count: 0 }));
    assert_eq!(store.len(), 1);
}

#[test]
fn history_of_another_buyer_is_refused() {
    let a = who(2);
    let b = who(3);
    let mut store = shop_with_item(who(1), 1, 100);
    let item = item_address(1);
    assert_eq!(store.first_purchase(a, &item, TransferOutcome::Completed, 10), Ok(()));
    let history_of_a = history_address(a);
    assert_eq!(
        store.subsequent_purchase_payment(b, &item, &history_of_a),
        Err(ShopError::InvalidHistoryOwner)
    );
    assert_eq!(
        store.subsequent_purchase(b, &item, &history_of_a, TransferOutcome::Completed, 20),
        Err(ShopError::InvalidHistoryOwner)
    );
    assert_eq!(
        store.history_of(&a).unwrap().purchases,
        vec![PurchaseRecord { item_id: 1, timestamp: 10 }]
    );
    assert_eq!(store.history_of(&b), None);
}

#[test]
fn shop_opens_once() {
    let mut store = RecordStore::new(program());
    assert_eq!(store.initialize_shop(who(1)), Ok(()));
    assert_eq!(store.initialize_shop(who(1)), Err(ShopError::AlreadyExists));
    assert_eq!(store.initialize_shop(who(2)), Err(ShopError::AlreadyExists));
    assert_eq!(store.shop(), Some(Shop { admin: who(1), item_count: 0 }));
    assert_eq!(store.len(), 1);
}

#[test]
fn add_item_needs_the_shop() {
    let mut store = RecordStore::new(program());
    assert_eq!(store.add_item(who(1), 1, 100, "uri".to_string()), Err(ShopError::NotFound));
    assert_eq!(store.len(), 0);
}

#[test]
fn item_ids_are_free_form_and_used_once() {
    let admin = who(1);
    let mut store = RecordStore::new(program());
    assert_eq!(store.initialize_shop(admin), Ok(()));
    assert_eq!(store.add_item(admin, 1000, 5, "a".to_string()), Ok(()));
    assert_eq!(store.add_item(admin, 3, 6, "b".to_string()), Ok(()));
    assert_eq!(store.add_item(admin, u64::MAX, 7, "c".to_string()), Ok(()));
    assert_eq!(store.add_item(admin, 3, 8, "d".to_string()), Err(ShopError::AlreadyExists));
    assert_eq!(store.shop(), Some(Shop { admin, item_count: 3 }));
    assert_eq!(store.item(3), Some(&Item { id: 3, price: 6, metadata_uri: "b".to_string() }));
    assert_eq!(store.len(), 4);
}

#[test]
fn add_item_with_long_uri_exceeds_capacity() {
    let admin = who(1);
    let mut store = RecordStore::new(program());
    assert_eq!(store.initialize_shop(admin), Ok(()));
    assert_eq!(store.add_item(admin, 1, 5, "u".repeat(201)), Err(ShopError::CapacityExceeded));
    assert_eq!(store.item(1), None);
    assert_eq!(store.shop(), Some(Shop { admin, item_count: 0 }));
    assert_eq!(store.add_item(admin, 1, 5, "u".repeat(200)), Ok(()));
    assert_eq!(store.shop(), Some(Shop { admin, item_count: 1 }));
}

#[test]
fn purchases_need_shop_item_and_history() {
    let buyer = who(2);
    let mut empty = RecordStore::new(program());
    assert_eq!(
        empty.first_purchase(buyer, &item_address(1), TransferOutcome::Completed, 1),
        Err(ShopError::NotFound)
    );
    let mut store = shop_with_item(who(1), 1, 100);
    assert_eq!(
        store.first_purchase(buyer, &item_address(2), TransferOutcome::Completed, 1),
        Err(ShopError::NotFound)
    );
    assert_eq!(store.first_purchase_payment(buyer, &item_address(2)), Err(ShopError::NotFound));
    let shop_address = derive_address(&program(), &RecordKey::Shop).unwrap();
    assert_eq!(
        store.first_purchase(buyer, &shop_address, TransferOutcome::Completed, 1),
        Err(ShopError::NotFound)
    );
    assert_eq!(
        store.subsequent_purchase(
            buyer,
            &item_address(1),
            &history_address(buyer),
            TransferOutcome::Completed,
            1
        ),
        Err(ShopError::NotFound)
    );
    assert_eq!(
        store.subsequent_purchase(
            buyer,
            &item_address(1),
            &item_address(1),
            TransferOutcome::Completed,
            1
        ),
        Err(ShopError::NotFound)
    );
    assert_eq!(store.len(), 2);
}

#[test]
fn buyers_keep_separate_histories() {
    let mut store = shop_with_item(who(1), 1, 100);
    assert_eq!(store.add_item(who(1), 2, 30, "two".to_string()), Ok(()));
    let a = who(2);
    let b = who(3);
    assert_eq!(store.first_purchase(a, &item_address(1), TransferOutcome::Completed, 1), Ok(()));
    assert_eq!(store.first_purchase(b, &item_address(2), TransferOutcome::Completed, 2), Ok(()));
    assert_eq!(
        store.subsequent_purchase(
            a,
            &item_address(2),
            &history_address(a),
            TransferOutcome::Completed,
            3
        ),
        Ok(())
    );
    assert_eq!(
        store.history_of(&a).unwrap().purchases,
        vec![PurchaseRecord { item_id: 1, timestamp: 1 }, PurchaseRecord { item_id: 2, timestamp: 3 }]
    );
    assert_eq!(
        store.history_of(&b).unwrap().purchases,
        vec![PurchaseRecord { item_id: 2, timestamp: 2 }]
    );
    let payment = store.subsequent_purchase_payment(b, &item_address(1), &history_address(b)).unwrap();
    assert_eq!(payment.accounts[0].key, b);
    assert_eq!(payment.accounts[1].key, who(1));
    assert_eq!(payment.data, vec![2, 0, 0, 0, 100, 0, 0, 0, 0, 0, 0, 0]);
}
