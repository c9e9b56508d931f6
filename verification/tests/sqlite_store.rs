use bdk_sqlite::error::StoreError;
use bdk_sqlite::protocol::{Action, Operation};
use bdk_sqlite::request::{Output, Request};
use bdk_sqlite::rows::{Reply, Row};
use bdk_sqlite::schema::{get_schema_version, select_version_sql, update_version_sql, Migration, MigrationAction, VersionLookup};
use bdk_sqlite::sql::Statement;
use bdk_sqlite::types::{BlockTime, KeychainKind, LocalUtxo, OutPoint, SyncTime, TransactionDetails, TxOut};
use bitcoin::blockdata::script::Script;
use bitcoin::blockdata::transaction::{Transaction, TxIn};
use bitcoin::consensus::encode::serialize;
use rusqlite::{Connection, ToSql};

fn bind(statement: &Statement) -> Vec<(&'static str, &dyn ToSql)> {
    match statement {
        Statement::InsertScriptPubkey { keychain, child, script } => {
            vec![(":keychain", keychain), (":child", child), (":script", script)]
        }
        Statement::InsertUtxo { value, keychain, vout, txid, script, is_spent } => vec![
            (":value", value),
            (":keychain", keychain),
            (":vout", vout),
            (":txid", txid),
            (":script", script),
            (":is_spent", is_spent),
        ],
        Statement::InsertTransaction { txid, raw_tx } | Statement::UpdateTransaction { txid, raw_tx } => {
            vec![(":txid", txid), (":raw_tx", raw_tx)]
        }
        Statement::InsertTransactionDetails { txid, timestamp, received, sent, fee, height }
        | Statement::UpdateTransactionDetails { txid, timestamp, received, sent, fee, height } => vec![
            (":txid", txid),
            (":timestamp", timestamp),
            (":received", received),
            (":sent", sent),
            (":fee", fee),
            (":height", height),
        ],
        Statement::InsertLastDerivationIndex { keychain, value }
        | Statement::UpdateLastDerivationIndex { keychain, value } => {
            vec![(":keychain", keychain), (":value", value)]
        }
        Statement::InsertChecksum { keychain, checksum } => {
            vec![(":keychain", keychain), (":checksum", checksum)]
        }
        Statement::UpdateSyncTime { height, timestamp } => {
            vec![(":height", height), (":timestamp", timestamp)]
        }
        Statement::SelectScriptPubkeysByKeychain { keychain }
        | Statement::SelectLastDerivationIndexByKeychain { keychain }
        | Statement::SelectChecksumByKeychain { keychain }
        | Statement::DeleteLastDerivationIndexByKeychain { keychain } => vec![(":keychain", keychain)],
        Statement::SelectScriptPubkeyByPath { keychain, child }
        | Statement::DeleteScriptPubkeyByPath { keychain, child } => {
            vec![(":keychain", keychain), (":child", child)]
        }
        Statement::SelectScriptPubkeyByScript { script } | Statement::DeleteScriptPubkeyByScript { script } => {
            vec![(":script", script)]
        }
        Statement::SelectUtxoByOutpoint { txid, vout } | Statement::DeleteUtxoByOutpoint { txid, vout } => {
            vec![(":txid", txid), (":vout", vout)]
        }
        Statement::SelectTransactionByTxid { txid }
        | Statement::SelectTransactionDetailsByTxid { txid }
        | Statement::DeleteTransactionByTxid { txid }
        | Statement::DeleteTransactionDetailsByTxid { txid } => vec![(":txid", txid)],
        _ => vec![],
    }
}

fn read_row(statement: &Statement, row: &rusqlite::Row) -> rusqlite::Result<Row> {
    Ok(match statement {
        Statement::SelectScriptPubkeys
        | Statement::SelectScriptPubkeysByKeychain { .. }
        | Statement::SelectScriptPubkeyByPath { .. } => Row::Script { script: row.get(0)? },
        Statement::SelectScriptPubkeyByScript { .. } => Row::Path { keychain: row.get(0)?, child: row.get(1)? },
        Statement::SelectUtxos => Row::Utxo {
            value: row.get(0)?,
            keychain: row.get(1)?,
            vout: row.get(2)?,
            txid: row.get(3)?,
            script: row.get(4)?,
            is_spent: row.get(5)?,
        },
        Statement::SelectUtxoByOutpoint { .. } => Row::UtxoAt {
            value: row.get(0)?,
            keychain: row.get(1)?,
            script: row.get(2)?,
            is_spent: row.get(3)?,
        },
        Statement::SelectTransactions | Statement::SelectTransactionByTxid { .. } => Row::RawTx { raw_tx: row.get(0)? },
        Statement::SelectTransactionDetailsWithRaw => Row::DetailsWithRaw {
            txid: row.get(0)?,
            timestamp: row.get(1)?,
            received: row.get(2)?,
            sent: row.get(3)?,
            fee: row.get(4)?,
            height: row.get(5)?,
            raw_tx: row.get(6)?,
        },
        Statement::SelectTransactionDetails => Row::Details {
            txid: row.get(0)?,
            timestamp: row.get(1)?,
            received: row.get(2)?,
            sent: row.get(3)?,
            fee: row.get(4)?,
            height: row.get(5)?,
        },
        Statement::SelectTransactionDetailsByTxid { .. } => Row::DetailsOfTxid {
            timestamp: row.get(0)?,
            received: row.get(1)?,
            sent: row.get(2)?,
            fee: row.get(3)?,
            height: row.get(4)?,
            raw_tx: row.get(5)?,
        },
        Statement::SelectLastDerivationIndexByKeychain { .. } => Row::Index { value: row.get(0)? },
        Statement::SelectSyncTime => Row::SyncTime { height: row.get(0)?, timestamp: row.get(1)? },
        Statement::SelectChecksumByKeychain { .. } => Row::Checksum { checksum: row.get(0)? },
        _ => return Err(rusqlite::Error::InvalidQuery),
    })
}

fn execute(conn: &Connection, statement: &Statement) -> Reply {
    let mut prepared = match conn.prepare_cached(statement.sql()) {
        Ok(p) => p,
        Err(e) => return Reply::Failed(e),
    };
    let params = bind(statement);
    match prepared.execute(&params[..]) {
        Ok(_) => Reply::Done,
        Err(e) => Reply::Failed(e),
    }
}

fn query(conn: &Connection, statement: &Statement, first_only: bool) -> Reply {
    let mut prepared = match conn.prepare_cached(statement.sql()) {
        Ok(p) => p,
        Err(e) => return Reply::Failed(e),
    };
    let params = bind(statement);
    let mut rows = match prepared.query(&params[..]) {
        Ok(r) => r,
        Err(e) => return Reply::Failed(e),
    };
    let mut read = Vec::new();
    while !(first_only && !read.is_empty()) {
        match rows.next() {
            Ok(Some(row)) => match read_row(statement, row) {
                Ok(r) => read.push(r),
                Err(e) => return Reply::Rows { rows: read, failure: Some(e) },
            },
            Ok(None) => break,
            Err(e) => return Reply::Rows { rows: read, failure: Some(e) },
        }
    }
    Reply::Rows { rows: read, failure: None }
}

fn run(conn: &Connection, request: Request) -> Result<Output, StoreError> {
    let (mut operation, mut action) = Operation::begin(request);
    loop {
        let reply = match action {
            Action::Finish(answer) => return answer,
            Action::Execute(statement) => execute(conn, &statement),
            Action::QueryFirst(statement) => query(conn, &statement, true),
            Action::QueryAll(statement) => query(conn, &statement, false),
        };
        let (o, a) = operation.resume(reply);
        operation = o;
        action = a;
    }
}

fn schema_version(conn: &Connection) -> i32 {
    let lookup = match conn.prepare(select_version_sql()) {
        Err(error) => {
            let failure_message = match &error {
                rusqlite::Error::SqliteFailure(_, Some(m)) => Some(m.clone()),
                _ => None,
            };
            VersionLookup::PrepareFailed { error, failure_message }
        }
        Ok(mut stmt) => {
            let mut rows = stmt.query([]).unwrap();
            let v = match rows.next().unwrap() {
                Some(row) => Some(row.get(0).unwrap()),
                None => None,
            };
            VersionLookup::Queried(Ok(v))
        }
    };
    get_schema_version(lookup).unwrap()
}

fn migrated() -> Connection {
    let conn = Connection::open_in_memory().unwrap();
    let (mut m, mut action) = Migration::start(schema_version(&conn));
    loop {
        let (next, a) = match action {
            MigrationAction::Finish(r) => {
                r.unwrap();
                break;
            }
            MigrationAction::Run(sql) => m.after_run(conn.execute(sql, []).is_ok()),
            MigrationAction::RecordVersion(v) => {
                m.after_record(conn.execute(update_version_sql(), &[(":version", &v as &dyn ToSql)][..]).map(|_| ()))
            }
        };
        m = next;
        action = a;
    }
    conn
}

fn script() -> Vec<u8> {
    vec![0x76, 0xa9, 0x14, 0x02, 0x30, 0x6a, 0x7c, 0x23, 0xf3, 0xe8, 0x01, 0x0d, 0xe4, 0x1e, 0x9e, 0x59, 0x13, 0x48, 0xbb, 0x83, 0xf1, 0x1d, 0xaa, 0x88, 0xac]
}

fn sample_transaction() -> Transaction {
    Transaction {
        version: 1,
        lock_time: 0,
        input: vec![TxIn {
            previous_output: bitcoin::OutPoint::null(),
            script_sig: Script::from(vec![0x51]),
            sequence: 0xffff_ffff,
            witness: vec![],
        }],
        output: vec![bitcoin::TxOut { value: 133742, script_pubkey: Script::from(script()) }],
    }
}

fn txid_of(tx: &Transaction) -> Vec<u8> {
    bitcoin::hashes::Hash::into_inner(tx.txid()).to_vec()
}

#[test]
fn schema_reaches_latest_version() {
    let conn = migrated();
    assert_eq!(schema_version(&conn), 21);
}

#[test]
fn test_script_pubkey() {
    let conn = migrated();
    let keychain = KeychainKind::External;
    let path = 42;
    let r = run(&conn, Request::SetScriptPubkey { script: script(), keychain, child: path }).unwrap();
    assert_eq!(r, Output::Unit);
    assert_eq!(
        run(&conn, Request::GetScriptPubkeyFromPath { keychain, child: path }).unwrap(),
        Output::Script(Some(script()))
    );
    assert_eq!(
        run(&conn, Request::GetPathFromScriptPubkey { script: script() }).unwrap(),
        Output::Path(Some((keychain, path)))
    );
    assert_eq!(
        run(&conn, Request::GetScriptPubkeyFromPath { keychain: KeychainKind::Internal, child: path }).unwrap(),
        Output::Script(None)
    );
}

#[test]
fn test_iter_script_pubkey() {
    let conn = migrated();
    run(&conn, Request::SetScriptPubkey { script: script(), keychain: KeychainKind::External, child: 42 }).unwrap();
    assert_eq!(
        run(&conn, Request::IterScriptPubkeys { keychain: None }).unwrap(),
        Output::Scripts(vec![script()])
    );
    assert_eq!(
        run(&conn, Request::IterScriptPubkeys { keychain: Some(KeychainKind::Internal) }).unwrap(),
        Output::Scripts(vec![])
    );
    assert_eq!(
        run(&conn, Request::IterScriptPubkeys { keychain: Some(KeychainKind::External) }).unwrap(),
        Output::Scripts(vec![script()])
    );
}

#[test]
fn test_del_script_pubkey() {
    let conn = migrated();
    run(&conn, Request::SetScriptPubkey { script: script(), keychain: KeychainKind::External, child: 42 }).unwrap();
    assert_eq!(
        run(&conn, Request::DelScriptPubkeyFromPath { keychain: KeychainKind::External, child: 42 }).unwrap(),
        Output::Script(Some(script()))
    );
    assert_eq!(run(&conn, Request::IterScriptPubkeys { keychain: None }).unwrap(), Output::Scripts(vec![]));
    assert_eq!(
        run(&conn, Request::DelScriptPubkeyFromPath { keychain: KeychainKind::External, child: 42 }).unwrap(),
        Output::Script(None)
    );
}

#[test]
fn del_path_from_script_pubkey_forgets_it() {
    let conn = migrated();
    run(&conn, Request::SetScriptPubkey { script: script(), keychain: KeychainKind::Internal, child: 3 }).unwrap();
    assert_eq!(
        run(&conn, Request::DelPathFromScriptPubkey { script: script() }).unwrap(),
        Output::Path(Some((KeychainKind::Internal, 3)))
    );
    assert_eq!(run(&conn, Request::GetPathFromScriptPubkey { script: script() }).unwrap(), Output::Path(None));
}

fn sample_utxo() -> LocalUtxo {
    LocalUtxo {
        outpoint: OutPoint { txid: txid_of(&sample_transaction()), vout: 0 },
        txout: TxOut { value: 133742, script_pubkey: script() },
        keychain: KeychainKind::External,
        is_spent: true,
    }
}

#[test]
fn test_utxo() {
    let conn = migrated();
    let utxo = sample_utxo();
    run(&conn, Request::SetUtxo { utxo: utxo.clone() }).unwrap();
    assert_eq!(
        run(&conn, Request::GetUtxo { outpoint: utxo.outpoint.clone() }).unwrap(),
        Output::Utxo(Some(utxo.clone()))
    );
    assert_eq!(run(&conn, Request::IterUtxos).unwrap(), Output::Utxos(vec![utxo.clone()]));
    assert_eq!(
        run(&conn, Request::DelUtxo { outpoint: utxo.outpoint.clone() }).unwrap(),
        Output::Utxo(Some(utxo.clone()))
    );
    assert_eq!(run(&conn, Request::GetUtxo { outpoint: utxo.outpoint.clone() }).unwrap(), Output::Utxo(None));
}

#[test]
fn setting_an_output_twice_records_it_twice() {
    let conn = migrated();
    let utxo = sample_utxo();
    run(&conn, Request::SetUtxo { utxo: utxo.clone() }).unwrap();
    run(&conn, Request::SetUtxo { utxo: utxo.clone() }).unwrap();
    assert_eq!(run(&conn, Request::IterUtxos).unwrap(), Output::Utxos(vec![utxo.clone(), utxo]));
}

#[test]
fn test_raw_tx() {
    let conn = migrated();
    let tx = sample_transaction();
    let raw = serialize(&tx);
    run(&conn, Request::SetRawTx { txid: txid_of(&tx), transaction: raw.clone() }).unwrap();
    assert_eq!(
        run(&conn, Request::GetRawTx { txid: txid_of(&tx) }).unwrap(),
        Output::Transaction(Some(raw.clone()))
    );
    // Recording it again replaces it rather than adding a row.
    run(&conn, Request::SetRawTx { txid: txid_of(&tx), transaction: raw.clone() }).unwrap();
    assert_eq!(run(&conn, Request::IterRawTxs).unwrap(), Output::Transactions(vec![raw.clone()]));
    assert_eq!(
        run(&conn, Request::DelRawTx { txid: txid_of(&tx) }).unwrap(),
        Output::Transaction(Some(raw))
    );
    assert_eq!(run(&conn, Request::GetRawTx { txid: txid_of(&tx) }).unwrap(), Output::Transaction(None));
}

#[test]
fn test_tx() {
    let conn = migrated();
    let tx = sample_transaction();
    let raw = serialize(&tx);
    let details = TransactionDetails {
        transaction: Some(raw.clone()),
        txid: txid_of(&tx),
        received: 1337,
        sent: 420420,
        fee: Some(140),
        confirmation_time: Some(BlockTime { timestamp: 123456, height: 1000 }),
    };
    run(&conn, Request::SetTx { transaction_txid: details.txid.clone(), details: details.clone() }).unwrap();
    assert_eq!(
        run(&conn, Request::GetTx { txid: txid_of(&tx), include_raw: true }).unwrap(),
        Output::Details(Some(details.clone()))
    );
    let mut without_raw = details.clone();
    without_raw.transaction = None;
    assert_eq!(
        run(&conn, Request::GetTx { txid: txid_of(&tx), include_raw: false }).unwrap(),
        Output::Details(Some(without_raw.clone()))
    );
    assert_eq!(run(&conn, Request::IterTxs { include_raw: false }).unwrap(), Output::DetailsList(vec![without_raw]));
    // Details recorded again replace those on record.
    let mut unconfirmed = details.clone();
    unconfirmed.confirmation_time = None;
    run(&conn, Request::SetTx { transaction_txid: unconfirmed.txid.clone(), details: unconfirmed.clone() }).unwrap();
    assert_eq!(
        run(&conn, Request::GetTx { txid: txid_of(&tx), include_raw: true }).unwrap(),
        Output::Details(Some(unconfirmed.clone()))
    );
    assert_eq!(
        run(&conn, Request::DelTx { txid: txid_of(&tx), include_raw: true }).unwrap(),
        Output::Details(Some(unconfirmed))
    );
    assert_eq!(run(&conn, Request::GetTx { txid: txid_of(&tx), include_raw: true }).unwrap(), Output::Details(None));
    assert_eq!(run(&conn, Request::GetRawTx { txid: txid_of(&tx) }).unwrap(), Output::Transaction(None));
}

#[test]
fn listing_details_with_transactions_gives_each_once() {
    let conn = migrated();
    let tx = sample_transaction();
    let raw = serialize(&tx);
    let with_tx = TransactionDetails {
        transaction: Some(raw.clone()),
        txid: txid_of(&tx),
        received: 1,
        sent: 2,
        fee: None,
        confirmation_time: None,
    };
    let alone = TransactionDetails {
        transaction: None,
        txid: vec![7; 32],
        received: 3,
        sent: 4,
        fee: Some(5),
        confirmation_time: Some(BlockTime { timestamp: 99, height: 12 }),
    };
    run(&conn, Request::SetTx { transaction_txid: with_tx.txid.clone(), details: with_tx.clone() }).unwrap();
    run(&conn, Request::SetTx { transaction_txid: alone.txid.clone(), details: alone.clone() }).unwrap();
    assert_eq!(
        run(&conn, Request::IterTxs { include_raw: true }).unwrap(),
        Output::DetailsList(vec![with_tx.clone(), alone.clone()])
    );
    let mut with_tx_bare = with_tx;
    with_tx_bare.transaction = None;
    assert_eq!(
        run(&conn, Request::IterTxs { include_raw: false }).unwrap(),
        Output::DetailsList(vec![with_tx_bare, alone])
    );
}

#[test]
fn test_last_index() {
    let conn = migrated();
    run(&conn, Request::SetLastIndex { keychain: KeychainKind::External, value: 1337 }).unwrap();
    assert_eq!(
        run(&conn, Request::GetLastIndex { keychain: KeychainKind::External }).unwrap(),
        Output::Index(Some(1337))
    );
    assert_eq!(run(&conn, Request::GetLastIndex { keychain: KeychainKind::Internal }).unwrap(), Output::Index(None));
    assert_eq!(
        run(&conn, Request::IncrementLastIndex { keychain: KeychainKind::External }).unwrap(),
        Output::NextIndex(1338)
    );
    assert_eq!(
        run(&conn, Request::IncrementLastIndex { keychain: KeychainKind::Internal }).unwrap(),
        Output::NextIndex(0)
    );
    assert_eq!(
        run(&conn, Request::GetLastIndex { keychain: KeychainKind::External }).unwrap(),
        Output::Index(Some(1338))
    );
    assert_eq!(
        run(&conn, Request::GetLastIndex { keychain: KeychainKind::Internal }).unwrap(),
        Output::Index(Some(0))
    );
    assert_eq!(
        run(&conn, Request::DelLastIndex { keychain: KeychainKind::Internal }).unwrap(),
        Output::Index(Some(0))
    );
    assert_eq!(run(&conn, Request::GetLastIndex { keychain: KeychainKind::Internal }).unwrap(), Output::Index(None));
}

#[test]
fn increment_at_the_largest_index_fails() {
    let conn = migrated();
    run(&conn, Request::SetLastIndex { keychain: KeychainKind::External, value: u32::MAX }).unwrap();
    assert!(matches!(
        run(&conn, Request::IncrementLastIndex { keychain: KeychainKind::External }),
        Err(StoreError::IndexOverflow)
    ));
    assert_eq!(
        run(&conn, Request::GetLastIndex { keychain: KeychainKind::External }).unwrap(),
        Output::Index(Some(u32::MAX))
    );
}

#[test]
fn test_sync_time() {
    let conn = migrated();
    assert_eq!(run(&conn, Request::GetSyncTime).unwrap(), Output::SyncTime(None));
    let sync_time = SyncTime { block_time: BlockTime { height: 100, timestamp: 1000 } };
    run(&conn, Request::SetSyncTime { sync_time }).unwrap();
    assert_eq!(run(&conn, Request::GetSyncTime).unwrap(), Output::SyncTime(Some(sync_time)));
    let later = SyncTime { block_time: BlockTime { height: 101, timestamp: 1600 } };
    run(&conn, Request::SetSyncTime { sync_time: later }).unwrap();
    assert_eq!(run(&conn, Request::DelSyncTime).unwrap(), Output::SyncTime(Some(later)));
    assert_eq!(run(&conn, Request::GetSyncTime).unwrap(), Output::SyncTime(None));
}

#[test]
fn descriptor_checksum_is_recorded_then_checked() {
    let conn = migrated();
    let k = KeychainKind::External;
    assert_eq!(run(&conn, Request::CheckDescriptorChecksum { keychain: k, bytes: b"abcd".to_vec() }).unwrap(), Output::Unit);
    assert_eq!(run(&conn, Request::CheckDescriptorChecksum { keychain: k, bytes: b"abcd".to_vec() }).unwrap(), Output::Unit);
    assert!(matches!(
        run(&conn, Request::CheckDescriptorChecksum { keychain: k, bytes: b"abce".to_vec() }),
        Err(StoreError::ChecksumMismatch)
    ));
    assert_eq!(
        run(&conn, Request::CheckDescriptorChecksum { keychain: KeychainKind::Internal, bytes: b"zz".to_vec() }).unwrap(),
        Output::Unit
    );
}

#[test]
fn flush_does_nothing() {
    let conn = migrated();
    assert_eq!(run(&conn, Request::Flush).unwrap(), Output::Unit);
}

#[test]
fn new_store_has_nothing_on_record() {
    let conn = migrated();
    assert_eq!(
        run(&conn, Request::GetScriptPubkeyFromPath { keychain: KeychainKind::External, child: 0 }).unwrap(),
        Output::Script(None)
    );
    assert_eq!(run(&conn, Request::IterScriptPubkeys { keychain: None }).unwrap(), Output::Scripts(vec![]));
    assert_eq!(run(&conn, Request::IterUtxos).unwrap(), Output::Utxos(vec![]));
    assert_eq!(run(&conn, Request::IterRawTxs).unwrap(), Output::Transactions(vec![]));
    assert_eq!(run(&conn, Request::IterTxs { include_raw: false }).unwrap(), Output::DetailsList(vec![]));
    assert_eq!(run(&conn, Request::GetLastIndex { keychain: KeychainKind::Internal }).unwrap(), Output::Index(None));
    assert_eq!(run(&conn, Request::GetSyncTime).unwrap(), Output::SyncTime(None));
}

#[test]
fn forgetting_details_alone_keeps_the_transaction() {
    let conn = migrated();
    let tx = sample_transaction();
    let raw = serialize(&tx);
    let details = TransactionDetails {
        transaction: Some(raw.clone()),
        txid: txid_of(&tx),
        received: 5,
        sent: 0,
        fee: Some(1),
        confirmation_time: None,
    };
    run(&conn, Request::SetTx { transaction_txid: details.txid.clone(), details: details.clone() }).unwrap();
    assert_eq!(
        run(&conn, Request::DelTx { txid: txid_of(&tx), include_raw: false }).unwrap(),
        Output::Details(Some(details))
    );
    assert_eq!(run(&conn, Request::GetTx { txid: txid_of(&tx), include_raw: true }).unwrap(), Output::Details(None));
    assert_eq!(run(&conn, Request::GetRawTx { txid: txid_of(&tx) }).unwrap(), Output::Transaction(Some(raw)));
}

#[test]
fn details_without_a_recorded_transaction_are_found() {
    let conn = migrated();
    let details = TransactionDetails {
        transaction: None,
        txid: vec![9; 32],
        received: 5,
        sent: 0,
        fee: None,
        confirmation_time: None,
    };
    run(&conn, Request::SetTx { transaction_txid: details.txid.clone(), details: details.clone() }).unwrap();
    assert_eq!(
        run(&conn, Request::GetTx { txid: vec![9; 32], include_raw: false }).unwrap(),
        Output::Details(Some(details.clone()))
    );
    assert_eq!(
        run(&conn, Request::GetTx { txid: vec![9; 32], include_raw: true }).unwrap(),
        Output::Details(Some(details.clone()))
    );
    assert_eq!(
        run(&conn, Request::IterTxs { include_raw: false }).unwrap(),
        Output::DetailsList(vec![details.clone()])
    );
    // Recorded again, they replace those on record rather than join them.
    let mut again = details.clone();
    again.received = 6;
    run(&conn, Request::SetTx { transaction_txid: again.txid.clone(), details: again.clone() }).unwrap();
    assert_eq!(
        run(&conn, Request::GetTx { txid: vec![9; 32], include_raw: true }).unwrap(),
        Output::Details(Some(again.clone()))
    );
    assert_eq!(
        run(&conn, Request::IterTxs { include_raw: true }).unwrap(),
        Output::DetailsList(vec![again.clone()])
    );
    // Forgetting them answers with them and leaves nothing.
    assert_eq!(
        run(&conn, Request::DelTx { txid: vec![9; 32], include_raw: true }).unwrap(),
        Output::Details(Some(again))
    );
    assert_eq!(run(&conn, Request::GetTx { txid: vec![9; 32], include_raw: false }).unwrap(), Output::Details(None));
    assert_eq!(run(&conn, Request::IterTxs { include_raw: false }).unwrap(), Output::DetailsList(vec![]));
}

#[test]
fn details_recorded_alone_come_with_the_transaction_recorded_for_their_id() {
    let conn = migrated();
    let tx = sample_transaction();
    let raw = serialize(&tx);
    run(&conn, Request::SetRawTx { txid: txid_of(&tx), transaction: raw.clone() }).unwrap();
    let details = TransactionDetails {
        transaction: None,
        txid: txid_of(&tx),
        received: 8,
        sent: 1,
        fee: Some(2),
        confirmation_time: None,
    };
    run(&conn, Request::SetTx { transaction_txid: details.txid.clone(), details: details.clone() }).unwrap();
    let mut with_raw = details.clone();
    with_raw.transaction = Some(raw);
    assert_eq!(
        run(&conn, Request::GetTx { txid: txid_of(&tx), include_raw: true }).unwrap(),
        Output::Details(Some(with_raw))
    );
    assert_eq!(
        run(&conn, Request::GetTx { txid: txid_of(&tx), include_raw: false }).unwrap(),
        Output::Details(Some(details))
    );
}

#[test]
fn a_mismatched_checksum_is_not_recorded() {
    let conn = migrated();
    let k = KeychainKind::Internal;
    run(&conn, Request::CheckDescriptorChecksum { keychain: k, bytes: b"first".to_vec() }).unwrap();
    assert!(matches!(
        run(&conn, Request::CheckDescriptorChecksum { keychain: k, bytes: b"second".to_vec() }),
        Err(StoreError::ChecksumMismatch)
    ));
    // The first checksum stays on record after the failed check.
    assert_eq!(run(&conn, Request::CheckDescriptorChecksum { keychain: k, bytes: b"first".to_vec() }).unwrap(), Output::Unit);
}

#[test]
fn incrementing_one_keychain_leaves_the_other() {
    let conn = migrated();
    run(&conn, Request::SetLastIndex { keychain: KeychainKind::Internal, value: 7 }).unwrap();
    assert_eq!(
        run(&conn, Request::IncrementLastIndex { keychain: KeychainKind::External }).unwrap(),
        Output::NextIndex(0)
    );
    assert_eq!(
        run(&conn, Request::IncrementLastIndex { keychain: KeychainKind::External }).unwrap(),
        Output::NextIndex(1)
    );
    assert_eq!(
        run(&conn, Request::GetLastIndex { keychain: KeychainKind::Internal }).unwrap(),
        Output::Index(Some(7))
    );
}

#[test]
fn listing_every_script_gives_both_keychains() {
    let conn = migrated();
    let other = vec![0x51, 0x52];
    run(&conn, Request::SetScriptPubkey { script: script(), keychain: KeychainKind::External, child: 0 }).unwrap();
    run(&conn, Request::SetScriptPubkey { script: other.clone(), keychain: KeychainKind::Internal, child: 0 }).unwrap();
    assert_eq!(
        run(&conn, Request::IterScriptPubkeys { keychain: None }).unwrap(),
        Output::Scripts(vec![script(), other.clone()])
    );
    assert_eq!(
        run(&conn, Request::IterScriptPubkeys { keychain: Some(KeychainKind::Internal) }).unwrap(),
        Output::Scripts(vec![other])
    );
    assert_eq!(
        run(&conn, Request::IterScriptPubkeys { keychain: Some(KeychainKind::External) }).unwrap(),
        Output::Scripts(vec![script()])
    );
}

#[test]
fn recording_an_output_adds_it_last() {
    let conn = migrated();
    let first = sample_utxo();
    let mut second = sample_utxo();
    second.outpoint.vout = 1;
    second.keychain = KeychainKind::Internal;
    second.is_spent = false;
    run(&conn, Request::SetUtxo { utxo: first.clone() }).unwrap();
    run(&conn, Request::SetUtxo { utxo: second.clone() }).unwrap();
    assert_eq!(run(&conn, Request::IterUtxos).unwrap(), Output::Utxos(vec![first, second]));
}

#[test]
fn recording_a_second_transaction_adds_it_after_the_first() {
    let conn = migrated();
    let tx = sample_transaction();
    let mut other = sample_transaction();
    other.lock_time = 5;
    run(&conn, Request::SetRawTx { txid: txid_of(&tx), transaction: serialize(&tx) }).unwrap();
    run(&conn, Request::SetRawTx { txid: txid_of(&other), transaction: serialize(&other) }).unwrap();
    run(&conn, Request::SetRawTx { txid: txid_of(&tx), transaction: serialize(&tx) }).unwrap();
    assert_eq!(
        run(&conn, Request::IterRawTxs).unwrap(),
        Output::Transactions(vec![serialize(&tx), serialize(&other)])
    );
}

#[test]
fn a_transaction_without_inputs_is_recorded_under_its_id() {
    let conn = migrated();
    let tx = Transaction {
        version: 1,
        lock_time: 0,
        input: vec![],
        output: vec![bitcoin::TxOut { value: 5, script_pubkey: Script::from(script()) }],
    };
    run(&conn, Request::SetRawTx { txid: txid_of(&tx), transaction: serialize(&tx) }).unwrap();
    assert_eq!(
        run(&conn, Request::GetRawTx { txid: txid_of(&tx) }).unwrap(),
        Output::Transaction(Some(serialize(&tx)))
    );
}

#[test]
fn details_carrying_a_transaction_of_another_id_record_it_under_that_id() {
    let conn = migrated();
    let tx = sample_transaction();
    let raw = serialize(&tx);
    let details = TransactionDetails {
        transaction: Some(raw.clone()),
        txid: vec![4; 32],
        received: 1,
        sent: 1,
        fee: None,
        confirmation_time: None,
    };
    run(&conn, Request::SetTx { details: details.clone(), transaction_txid: txid_of(&tx) }).unwrap();
    assert_eq!(run(&conn, Request::GetRawTx { txid: txid_of(&tx) }).unwrap(), Output::Transaction(Some(raw)));
    let mut found = details;
    found.transaction = None;
    assert_eq!(
        run(&conn, Request::GetTx { txid: vec![4; 32], include_raw: true }).unwrap(),
        Output::Details(Some(found))
    );
}
