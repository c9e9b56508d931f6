use bdk_sqlite::error::StoreError;
use bdk_sqlite::protocol::{Action, Operation};
use bdk_sqlite::request::{Output, Request};
use bdk_sqlite::rows::{Reply, Row};
use bdk_sqlite::sql::Statement;
use bdk_sqlite::types::KeychainKind;

fn rows(rows: Vec<Row>) -> Reply {
    Reply::Rows { rows, failure: None }
}

#[test]
fn writes_issue_one_insert() {
    let (op, action) = Operation::begin(Request::SetScriptPubkey {
        script: vec![1, 2],
        keychain: KeychainKind::Internal,
        child: 5,
    });
    match action {
        Action::Execute(s) => assert_eq!(
            s,
            Statement::InsertScriptPubkey { keychain: "\"Internal\"".to_string(), child: 5, script: vec![1, 2] }
        ),
        other => panic!("unexpected {:?}", other),
    }
    let (_, action) = op.resume(Reply::Done);
    assert!(matches!(action, Action::Finish(Ok(Output::Unit))));
}

#[test]
fn a_failed_write_fails_the_operation() {
    let (op, _) = Operation::begin(Request::SetLastIndex { keychain: KeychainKind::External, value: 3 });
    let (_, action) = op.resume(Reply::Failed(rusqlite::Error::InvalidQuery));
    assert!(matches!(action, Action::Finish(Err(StoreError::Sqlite(rusqlite::Error::InvalidQuery)))));
}

#[test]
fn rows_in_reply_to_a_write_are_out_of_place() {
    let (op, _) = Operation::begin(Request::Flush);
    let (_, action) = op.resume(Reply::Done);
    assert!(matches!(action, Action::Finish(Err(StoreError::UnexpectedReply))));
    let (op, _) = Operation::begin(Request::SetLastIndex { keychain: KeychainKind::External, value: 3 });
    let (_, action) = op.resume(rows(vec![]));
    assert!(matches!(action, Action::Finish(Err(StoreError::UnexpectedReply))));
}

#[test]
fn a_row_of_another_shape_is_out_of_place() {
    let (op, _) = Operation::begin(Request::GetLastIndex { keychain: KeychainKind::External });
    let (_, action) = op.resume(rows(vec![Row::Script { script: vec![] }]));
    assert!(matches!(action, Action::Finish(Err(StoreError::UnexpectedReply))));
}

#[test]
fn a_lookup_for_deletion_deletes_what_it_found() {
    let (op, action) = Operation::begin(Request::DelLastIndex { keychain: KeychainKind::External });
    match action {
        Action::QueryFirst(s) => assert_eq!(
            s,
            Statement::SelectLastDerivationIndexByKeychain { keychain: "\"External\"".to_string() }
        ),
        other => panic!("unexpected {:?}", other),
    }
    let (op, action) = op.resume(rows(vec![Row::Index { value: 9 }]));
    match action {
        Action::Execute(s) => assert_eq!(
            s,
            Statement::DeleteLastDerivationIndexByKeychain { keychain: "\"External\"".to_string() }
        ),
        other => panic!("unexpected {:?}", other),
    }
    let (_, action) = op.resume(Reply::Done);
    assert!(matches!(action, Action::Finish(Ok(Output::Index(Some(9))))));
}

#[test]
fn nothing_found_nothing_deleted() {
    let (op, _) = Operation::begin(Request::DelSyncTime);
    let (_, action) = op.resume(rows(vec![]));
    assert!(matches!(action, Action::Finish(Ok(Output::SyncTime(None)))));
}

#[test]
fn a_bad_keychain_on_record_fails_the_lookup() {
    let (op, _) = Operation::begin(Request::GetPathFromScriptPubkey { script: vec![7] });
    let (_, action) = op.resume(rows(vec![Row::Path { keychain: "\"Neither\"".to_string(), child: 1 }]));
    assert!(matches!(action, Action::Finish(Err(StoreError::UnknownKeychain(_)))));
}

#[test]
fn a_row_that_does_not_read_comes_before_a_fetch_failure() {
    let (op, _) = Operation::begin(Request::IterUtxos);
    let bad = Row::Utxo {
        value: 1,
        keychain: "\"External\"".to_string(),
        vout: 0,
        txid: vec![1, 2, 3],
        script: vec![],
        is_spent: false,
    };
    let (_, action) = op.resume(Reply::Rows { rows: vec![bad], failure: Some(rusqlite::Error::InvalidQuery) });
    assert!(matches!(action, Action::Finish(Err(StoreError::Encode(_)))));
}

#[test]
fn a_fetch_failure_after_good_rows_fails_the_listing() {
    let (op, _) = Operation::begin(Request::IterScriptPubkeys { keychain: None });
    let (_, action) = op.resume(Reply::Rows {
        rows: vec![Row::Script { script: vec![1] }],
        failure: Some(rusqlite::Error::InvalidQuery),
    });
    assert!(matches!(action, Action::Finish(Err(StoreError::Sqlite(_)))));
}

#[test]
fn recording_details_without_a_transaction_stops_after_the_details() {
    let details = bdk_sqlite::types::TransactionDetails {
        transaction: None,
        txid: vec![0; 32],
        received: 1,
        sent: 0,
        fee: None,
        confirmation_time: None,
    };
    let (op, _) = Operation::begin(Request::SetTx { details, transaction_txid: vec![0; 32] });
    let (op, action) = op.resume(rows(vec![]));
    assert!(matches!(action, Action::Execute(Statement::InsertTransactionDetails { .. })));
    let (_, action) = op.resume(Reply::Done);
    assert!(matches!(action, Action::Finish(Ok(Output::Unit))));
}

#[test]
fn recording_a_transaction_looks_up_the_id_it_is_given() {
    let (op, action) = Operation::begin(Request::SetRawTx { txid: vec![3; 32], transaction: vec![0, 1] });
    assert!(matches!(action, Action::QueryFirst(Statement::SelectTransactionByTxid { ref txid }) if *txid == vec![3; 32]));
    let (op, action) = op.resume(rows(vec![]));
    assert!(matches!(
        action,
        Action::Execute(Statement::InsertTransaction { ref txid, ref raw_tx }) if *txid == vec![3; 32] && *raw_tx == vec![0, 1]
    ));
    let (_, action) = op.resume(Reply::Done);
    assert!(matches!(action, Action::Finish(Ok(Output::Unit))));
}

#[test]
fn a_finished_operation_takes_no_reply() {
    let (op, _) = Operation::begin(Request::Flush);
    let (_, action) = op.resume(Reply::Done);
    assert!(matches!(action, Action::Finish(Err(StoreError::UnexpectedReply))));
}
