use paycore::keystore::{MerchantKeyStore, MerchantKeyStoreDb, StorageError};
use paycore::profile::{CardTestingGuardConfig, RevenueRecoveryAlgorithmData};

fn store(id: &str, byte: u8) -> MerchantKeyStore {
    MerchantKeyStore {
        merchant_id: id.to_string(),
        key: vec![byte; 32],
        created_at: 1675209600,
    }
}

#[test]
fn keystore_insert_get_and_duplicate() {
    let mut db = MerchantKeyStoreDb::new();
    let inserted = db
        .insert_merchant_key_store(store("merchant1", 7))
        .expect("first insert succeeds");
    assert_eq!(inserted.merchant_id, "merchant1");
    assert_eq!(inserted.key, vec![7u8; 32]);

    let found = db
        .get_merchant_key_store_by_merchant_id("merchant1")
        .expect("inserted row is found");
    assert_eq!(found.merchant_id, inserted.merchant_id);
    assert_eq!(found.key, inserted.key);

    match db.insert_merchant_key_store(store("merchant1", 9)) {
        Err(StorageError::DuplicateValue { entity, key }) => {
            assert_eq!(entity, "merchant_key_store");
            assert_eq!(key.as_deref(), Some("merchant1"));
        }
        other => panic!("expected DuplicateValue, got {other:?}"),
    }

    match db.get_merchant_key_store_by_merchant_id("non_existent") {
        Err(StorageError::ValueNotFound(entity)) => assert_eq!(entity, "merchant_key_store"),
        other => panic!("expected ValueNotFound, got {other:?}"),
    }
}

#[test]
fn keystore_delete() {
    let mut db = MerchantKeyStoreDb::new();
    db.insert_merchant_key_store(store("merchant1", 1)).unwrap();
    db.insert_merchant_key_store(store("merchant2", 2)).unwrap();

    assert_eq!(db.delete_merchant_key_store_by_merchant_id("merchant1"), Ok(true));
    assert!(db.get_merchant_key_store_by_merchant_id("merchant1").is_err());
    assert!(db.get_merchant_key_store_by_merchant_id("merchant2").is_ok());

    match db.delete_merchant_key_store_by_merchant_id("merchant1") {
        Err(StorageError::ValueNotFound(msg)) => {
            assert_eq!(msg, "No merchant key store found for merchant_id = merchant1")
        }
        other => panic!("expected ValueNotFound, got {other:?}"),
    }
}

#[test]
fn keystore_listing() {
    let mut db = MerchantKeyStoreDb::new();
    db.insert_merchant_key_store(store("m1", 1)).unwrap();
    db.insert_merchant_key_store(store("m2", 2)).unwrap();
    db.insert_merchant_key_store(store("m3", 3)).unwrap();

    let wanted = vec!["m3".to_string(), "m1".to_string()];
    let listed = db.list_multiple_key_stores(&wanted);
    let ids: Vec<&str> = listed.iter().map(|s| s.merchant_id.as_str()).collect();
    assert_eq!(ids, vec!["m1", "m3"]);

    let all = db.get_all_key_stores(0, 100);
    assert_eq!(all.len(), 3);
    assert_eq!(all[0].merchant_id, "m1");
    assert_eq!(all[2].merchant_id, "m3");

    let none = db.list_multiple_key_stores(&vec!["other".to_string()]);
    assert!(none.is_empty());
}

#[test]
fn card_testing_guard_defaults() {
    let config = CardTestingGuardConfig::default();
    assert!(!config.is_card_ip_blocking_enabled);
    assert_eq!(config.card_ip_blocking_threshold, 3);
    assert!(!config.is_guest_user_card_blocking_enabled);
    assert_eq!(config.guest_user_card_blocking_threshold, 10);
    assert!(!config.is_customer_id_blocking_enabled);
    assert_eq!(config.customer_id_blocking_threshold, 5);
    assert_eq!(config.card_testing_guard_expiry, 3600);
}

#[test]
fn monitoring_threshold_comparison_is_exact() {
    let data = RevenueRecoveryAlgorithmData {
        monitoring_configured_timestamp: 1700000000,
    };
    assert!(data.threshold_exceeded_at(1700000600, 600));
    assert!(!data.threshold_exceeded_at(1700000599, 600));

    let late = RevenueRecoveryAlgorithmData {
        monitoring_configured_timestamp: i64::MAX,
    };
    assert!(!late.threshold_exceeded_at(i64::MAX, 1));
    assert!(late.threshold_exceeded_at(i64::MAX, 0));

    let early = RevenueRecoveryAlgorithmData {
        monitoring_configured_timestamp: 0,
    };
    assert!(early.has_exceeded_monitoring_threshold(0));
}
