use bdk_sqlite::codec::{decode_keychain, decode_transaction, decode_txid_bytes, encode_keychain};
use bdk_sqlite::error::StoreError;
use bdk_sqlite::types::{confirmation_columns, confirmation_from_columns, BlockTime, KeychainKind};
use bitcoin::blockdata::script::Script;
use bitcoin::blockdata::transaction::{OutPoint, Transaction, TxIn, TxOut};
use bitcoin::consensus::encode::serialize;

fn sample_transaction() -> Transaction {
    Transaction {
        version: 1,
        lock_time: 0,
        input: vec![TxIn {
            previous_output: OutPoint::null(),
            script_sig: Script::from(vec![0x51]),
            sequence: 0xffff_ffff,
            witness: vec![],
        }],
        output: vec![TxOut { value: 5000, script_pubkey: Script::from(vec![0x51]) }],
    }
}

#[test]
fn keychains_are_recorded_as_json_strings() {
    assert_eq!(encode_keychain(KeychainKind::External), "\"External\"");
    assert_eq!(encode_keychain(KeychainKind::Internal), "\"Internal\"");
}

#[test]
fn keychains_read_back() {
    assert_eq!(decode_keychain("\"External\"").unwrap(), KeychainKind::External);
    assert_eq!(decode_keychain("\"Internal\"").unwrap(), KeychainKind::Internal);
    assert_eq!(decode_keychain(" \"Internal\" ").unwrap(), KeychainKind::Internal);
    assert_eq!(decode_keychain("\"Ext\\u0065rnal\"").unwrap(), KeychainKind::External);
}

#[test]
fn unknown_keychain_name_is_refused() {
    match decode_keychain("\"Other\"") {
        Err(StoreError::UnknownKeychain(name)) => assert_eq!(name, "Other"),
        other => panic!("unexpected {:?}", other),
    }
}

#[test]
fn keychain_text_that_is_not_json_is_refused() {
    assert!(matches!(decode_keychain("External"), Err(StoreError::Json(_))));
    assert!(matches!(decode_keychain("\"External"), Err(StoreError::Json(_))));
}

#[test]
fn transaction_ids_are_32_bytes() {
    let bytes: Vec<u8> = (0u8..32).collect();
    assert_eq!(decode_txid_bytes(&bytes).unwrap(), bytes);
    assert!(matches!(decode_txid_bytes(&bytes[..31]), Err(StoreError::Encode(_))));
    let mut longer = bytes.clone();
    longer.push(7);
    assert!(matches!(decode_txid_bytes(&longer), Err(StoreError::Encode(_))));
}

#[test]
fn garbage_is_no_transaction() {
    assert!(matches!(decode_transaction(vec![1, 2, 3]), Err(StoreError::Encode(_))));
    let raw = serialize(&sample_transaction());
    assert_eq!(decode_transaction(raw.clone()).unwrap(), raw);
}

#[test]
fn confirmation_needs_height_and_timestamp() {
    let b = BlockTime { height: 1000, timestamp: 123456 };
    assert_eq!(confirmation_columns(Some(b)), (Some(123456), Some(1000)));
    assert_eq!(confirmation_columns(None), (None, None));
    assert_eq!(confirmation_from_columns(Some(1000), Some(123456)), Some(b));
    assert_eq!(confirmation_from_columns(Some(1000), None), None);
    assert_eq!(confirmation_from_columns(None, Some(123456)), None);
}
