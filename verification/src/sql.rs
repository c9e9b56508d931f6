//! The SQL statements that the store issues, with their parameters.
use vstd::prelude::*;
use crate::sql_syntax::{
    col, eq_param, join_list, qcol, render, set_param, Equality, Join, Operand, Query, Upsert,
};

verus! {

/// A statement of the store, with the values bound to its parameters.
#[derive(Debug, Clone, PartialEq, Eq)]
pub enum Statement {
    /// Records a script of the wallet at a derivation path.
    InsertScriptPubkey { keychain: String, child: u32, script: Vec<u8> },
    /// Records an output of the wallet.
    InsertUtxo { value: u64, keychain: String, vout: u32, txid: Vec<u8>, script: Vec<u8>, is_spent: bool },
    /// Records an encoded transaction.
    InsertTransaction { txid: Vec<u8>, raw_tx: Vec<u8> },
    /// Replaces the encoding recorded for a transaction id.
    UpdateTransaction { txid: Vec<u8>, raw_tx: Vec<u8> },
    /// Records the details of a transaction.
    InsertTransactionDetails { txid: Vec<u8>, timestamp: Option<u64>, received: u64, sent: u64, fee: Option<u64>, height: Option<u32> },
    /// Replaces the details recorded for a transaction id.
    UpdateTransactionDetails { txid: Vec<u8>, timestamp: Option<u64>, received: u64, sent: u64, fee: Option<u64>, height: Option<u32> },
    /// Records the last derivation index of a keychain.
    InsertLastDerivationIndex { keychain: String, value: u32 },
    /// Records the descriptor checksum of a keychain.
    InsertChecksum { keychain: String, checksum: Vec<u8> },
    /// Records or replaces the last derivation index of a keychain.
    UpdateLastDerivationIndex { keychain: String, value: u32 },
    /// Records or replaces the sync time.
    UpdateSyncTime { height: u32, timestamp: u64 },
    /// Every recorded script.
    SelectScriptPubkeys,
    /// The recorded scripts of a keychain.
    SelectScriptPubkeysByKeychain { keychain: String },
    /// The scripts recorded at a derivation path.
    SelectScriptPubkeyByPath { keychain: String, child: u32 },
    /// The derivation paths recorded for a script.
    SelectScriptPubkeyByScript { script: Vec<u8> },
    /// Every recorded output.
    SelectUtxos,
    /// The outputs recorded at an outpoint.
    SelectUtxoByOutpoint { txid: Vec<u8>, vout: u32 },
    /// Every recorded transaction encoding.
    SelectTransactions,
    /// The encodings recorded for a transaction id.
    SelectTransactionByTxid { txid: Vec<u8> },
    /// Every recorded set of details, each with the encodings recorded for its id (none where there is none).
    SelectTransactionDetailsWithRaw,
    /// Every recorded set of details.
    SelectTransactionDetails,
    /// The details recorded for a transaction id, each with the encodings recorded for the id (none where there is none).
    SelectTransactionDetailsByTxid { txid: Vec<u8> },
    /// The last derivation index recorded for a keychain.
    SelectLastDerivationIndexByKeychain { keychain: String },
    /// The recorded sync time.
    SelectSyncTime,
    /// The descriptor checksums recorded for a keychain.
    SelectChecksumByKeychain { keychain: String },
    /// Forgets the scripts recorded at a derivation path.
    DeleteScriptPubkeyByPath { keychain: String, child: u32 },
    /// Forgets every record of a script.
    DeleteScriptPubkeyByScript { script: Vec<u8> },
    /// Forgets the outputs recorded at an outpoint.
    DeleteUtxoByOutpoint { txid: Vec<u8>, vout: u32 },
    /// Forgets the encodings recorded for a transaction id.
    DeleteTransactionByTxid { txid: Vec<u8> },
    /// Forgets the details recorded for a transaction id.
    DeleteTransactionDetailsByTxid { txid: Vec<u8> },
    /// Forgets the last derivation index of a keychain.
    DeleteLastDerivationIndexByKeychain { keychain: String },
    /// Forgets the sync time.
    DeleteSyncTime,
}

/// The mathematical value of a `Statement`.
pub enum StatementView {
    InsertScriptPubkey { keychain: Seq<char>, child: u32, script: Seq<u8> },
    InsertUtxo { value: u64, keychain: Seq<char>, vout: u32, txid: Seq<u8>, script: Seq<u8>, is_spent: bool },
    InsertTransaction { txid: Seq<u8>, raw_tx: Seq<u8> },
    UpdateTransaction { txid: Seq<u8>, raw_tx: Seq<u8> },
    InsertTransactionDetails { txid: Seq<u8>, timestamp: Option<u64>, received: u64, sent: u64, fee: Option<u64>, height: Option<u32> },
    UpdateTransactionDetails { txid: Seq<u8>, timestamp: Option<u64>, received: u64, sent: u64, fee: Option<u64>, height: Option<u32> },
    InsertLastDerivationIndex { keychain: Seq<char>, value: u32 },
    InsertChecksum { keychain: Seq<char>, checksum: Seq<u8> },
    UpdateLastDerivationIndex { keychain: Seq<char>, value: u32 },
    UpdateSyncTime { height: u32, timestamp: u64 },
    SelectScriptPubkeys,
    SelectScriptPubkeysByKeychain { keychain: Seq<char> },
    SelectScriptPubkeyByPath { keychain: Seq<char>, child: u32 },
    SelectScriptPubkeyByScript { script: Seq<u8> },
    SelectUtxos,
    SelectUtxoByOutpoint { txid: Seq<u8>, vout: u32 },
    SelectTransactions,
    SelectTransactionByTxid { txid: Seq<u8> },
    SelectTransactionDetailsWithRaw,
    SelectTransactionDetails,
    SelectTransactionDetailsByTxid { txid: Seq<u8> },
    SelectLastDerivationIndexByKeychain { keychain: Seq<char> },
    SelectSyncTime,
    SelectChecksumByKeychain { keychain: Seq<char> },
    DeleteScriptPubkeyByPath { keychain: Seq<char>, child: u32 },
    DeleteScriptPubkeyByScript { script: Seq<u8> },
    DeleteUtxoByOutpoint { txid: Seq<u8>, vout: u32 },
    DeleteTransactionByTxid { txid: Seq<u8> },
    DeleteTransactionDetailsByTxid { txid: Seq<u8> },
    DeleteLastDerivationIndexByKeychain { keychain: Seq<char> },
    DeleteSyncTime,
}

impl View for Statement {
    type V = StatementView;

    open spec fn view(&self) -> StatementView {
        match self {
            Statement::InsertScriptPubkey { keychain, child, script } => StatementView::InsertScriptPubkey { keychain: keychain@, child: *child, script: script@ },
            Statement::InsertUtxo { value, keychain, vout, txid, script, is_spent } => StatementView::InsertUtxo { value: *value, keychain: keychain@, vout: *vout, txid: txid@, script: script@, is_spent: *is_spent },
            Statement::InsertTransaction { txid, raw_tx } => StatementView::InsertTransaction { txid: txid@, raw_tx: raw_tx@ },
            Statement::UpdateTransaction { txid, raw_tx } => StatementView::UpdateTransaction { txid: txid@, raw_tx: raw_tx@ },
            Statement::InsertTransactionDetails { txid, timestamp, received, sent, fee, height } => StatementView::InsertTransactionDetails { txid: txid@, timestamp: *timestamp, received: *received, sent: *sent, fee: *fee, height: *height },
            Statement::UpdateTransactionDetails { txid, timestamp, received, sent, fee, height } => StatementView::UpdateTransactionDetails { txid: txid@, timestamp: *timestamp, received: *received, sent: *sent, fee: *fee, height: *height },
            Statement::InsertLastDerivationIndex { keychain, value } => StatementView::InsertLastDerivationIndex { keychain: keychain@, value: *value },
            Statement::InsertChecksum { keychain, checksum } => StatementView::InsertChecksum { keychain: keychain@, checksum: checksum@ },
            Statement::UpdateLastDerivationIndex { keychain, value } => StatementView::UpdateLastDerivationIndex { keychain: keychain@, value: *value },
            Statement::UpdateSyncTime { height, timestamp } => StatementView::UpdateSyncTime { height: *height, timestamp: *timestamp },
            Statement::SelectScriptPubkeys => StatementView::SelectScriptPubkeys,
            Statement::SelectScriptPubkeysByKeychain { keychain } => StatementView::SelectScriptPubkeysByKeychain { keychain: keychain@ },
            Statement::SelectScriptPubkeyByPath { keychain, child } => StatementView::SelectScriptPubkeyByPath { keychain: keychain@, child: *child },
            Statement::SelectScriptPubkeyByScript { script } => StatementView::SelectScriptPubkeyByScript { script: script@ },
            Statement::SelectUtxos => StatementView::SelectUtxos,
            Statement::SelectUtxoByOutpoint { txid, vout } => StatementView::SelectUtxoByOutpoint { txid: txid@, vout: *vout },
            Statement::SelectTransactions => StatementView::SelectTransactions,
            Statement::SelectTransactionByTxid { txid } => StatementView::SelectTransactionByTxid { txid: txid@ },
            Statement::SelectTransactionDetailsWithRaw => StatementView::SelectTransactionDetailsWithRaw,
            Statement::SelectTransactionDetails => StatementView::SelectTransactionDetails,
            Statement::SelectTransactionDetailsByTxid { txid } => StatementView::SelectTransactionDetailsByTxid { txid: txid@ },
            Statement::SelectLastDerivationIndexByKeychain { keychain } => StatementView::SelectLastDerivationIndexByKeychain { keychain: keychain@ },
            Statement::SelectSyncTime => StatementView::SelectSyncTime,
            Statement::SelectChecksumByKeychain { keychain } => StatementView::SelectChecksumByKeychain { keychain: keychain@ },
            Statement::DeleteScriptPubkeyByPath { keychain, child } => StatementView::DeleteScriptPubkeyByPath { keychain: keychain@, child: *child },
            Statement::DeleteScriptPubkeyByScript { script } => StatementView::DeleteScriptPubkeyByScript { script: script@ },
            Statement::DeleteUtxoByOutpoint { txid, vout } => StatementView::DeleteUtxoByOutpoint { txid: txid@, vout: *vout },
            Statement::DeleteTransactionByTxid { txid } => StatementView::DeleteTransactionByTxid { txid: txid@ },
            Statement::DeleteTransactionDetailsByTxid { txid } => StatementView::DeleteTransactionDetailsByTxid { txid: txid@ },
            Statement::DeleteLastDerivationIndexByKeychain { keychain } => StatementView::DeleteLastDerivationIndexByKeychain { keychain: keychain@ },
            Statement::DeleteSyncTime => StatementView::DeleteSyncTime,
        }
    }
}

/// The SQL text of a statement.
pub open spec fn sql_text(s: StatementView) -> Seq<char> {
    match s {
        StatementView::InsertScriptPubkey { .. } => "INSERT INTO script_pubkeys (keychain, child, script) VALUES (:keychain, :child, :script)"@,
        StatementView::InsertUtxo { .. } => "INSERT INTO utxos (value, keychain, vout, txid, script, is_spent) VALUES (:value, :keychain, :vout, :txid, :script, :is_spent)"@,
        StatementView::InsertTransaction { .. } => "INSERT INTO transactions (txid, raw_tx) VALUES (:txid, :raw_tx)"@,
        StatementView::UpdateTransaction { .. } => "UPDATE transactions SET raw_tx=:raw_tx WHERE txid=:txid"@,
        StatementView::InsertTransactionDetails { .. } => "INSERT INTO transaction_details (txid, timestamp, received, sent, fee, height) VALUES (:txid, :timestamp, :received, :sent, :fee, :height)"@,
        StatementView::UpdateTransactionDetails { .. } => "UPDATE transaction_details SET timestamp=:timestamp, received=:received, sent=:sent, fee=:fee, height=:height WHERE txid=:txid"@,
        StatementView::InsertLastDerivationIndex { .. } => "INSERT INTO last_derivation_indices (keychain, value) VALUES (:keychain, :value)"@,
        StatementView::InsertChecksum { .. } => "INSERT INTO checksums (keychain, checksum) VALUES (:keychain, :checksum)"@,
        StatementView::UpdateLastDerivationIndex { .. } => "INSERT INTO last_derivation_indices (keychain, value) VALUES (:keychain, :value) ON CONFLICT(keychain) DO UPDATE SET value=:value WHERE keychain=:keychain"@,
        StatementView::UpdateSyncTime { .. } => "INSERT INTO sync_time (id, height, timestamp) VALUES (0, :height, :timestamp) ON CONFLICT(id) DO UPDATE SET height=:height, timestamp=:timestamp WHERE id = 0"@,
        StatementView::SelectScriptPubkeys => "SELECT script FROM script_pubkeys ORDER BY rowid"@,
        StatementView::SelectScriptPubkeysByKeychain { .. } => "SELECT script FROM script_pubkeys WHERE keychain=:keychain ORDER BY rowid"@,
        StatementView::SelectScriptPubkeyByPath { .. } => "SELECT script FROM script_pubkeys WHERE keychain=:keychain AND child=:child ORDER BY rowid"@,
        StatementView::SelectScriptPubkeyByScript { .. } => "SELECT keychain, child FROM script_pubkeys WHERE script=:script ORDER BY rowid"@,
        StatementView::SelectUtxos => "SELECT value, keychain, vout, txid, script, is_spent FROM utxos ORDER BY rowid"@,
        StatementView::SelectUtxoByOutpoint { .. } => "SELECT value, keychain, script, is_spent FROM utxos WHERE txid=:txid AND vout=:vout ORDER BY rowid"@,
        StatementView::SelectTransactions => "SELECT raw_tx FROM transactions ORDER BY rowid"@,
        StatementView::SelectTransactionByTxid { .. } => "SELECT raw_tx FROM transactions WHERE txid=:txid ORDER BY rowid"@,
        StatementView::SelectTransactionDetailsWithRaw => "SELECT transaction_details.txid, transaction_details.timestamp, transaction_details.received, transaction_details.sent, transaction_details.fee, transaction_details.height, transactions.raw_tx FROM transaction_details LEFT JOIN transactions ON transaction_details.txid = transactions.txid ORDER BY transaction_details.rowid, transactions.rowid"@,
        StatementView::SelectTransactionDetails => "SELECT txid, timestamp, received, sent, fee, height FROM transaction_details ORDER BY rowid"@,
        StatementView::SelectTransactionDetailsByTxid { .. } => "SELECT transaction_details.timestamp, transaction_details.received, transaction_details.sent, transaction_details.fee, transaction_details.height, transactions.raw_tx FROM transaction_details LEFT JOIN transactions ON transaction_details.txid = transactions.txid WHERE transaction_details.txid=:txid ORDER BY transaction_details.rowid, transactions.rowid"@,
        StatementView::SelectLastDerivationIndexByKeychain { .. } => "SELECT value FROM last_derivation_indices WHERE keychain=:keychain"@,
        StatementView::SelectSyncTime => "SELECT height, timestamp FROM sync_time WHERE id = 0"@,
        StatementView::SelectChecksumByKeychain { .. } => "SELECT checksum FROM checksums WHERE keychain=:keychain ORDER BY rowid"@,
        StatementView::DeleteScriptPubkeyByPath { .. } => "DELETE FROM script_pubkeys WHERE keychain=:keychain AND child=:child"@,
        StatementView::DeleteScriptPubkeyByScript { .. } => "DELETE FROM script_pubkeys WHERE script=:script"@,
        StatementView::DeleteUtxoByOutpoint { .. } => "DELETE FROM utxos WHERE txid=:txid AND vout=:vout"@,
        StatementView::DeleteTransactionByTxid { .. } => "DELETE FROM transactions WHERE txid=:txid"@,
        StatementView::DeleteTransactionDetailsByTxid { .. } => "DELETE FROM transaction_details WHERE txid=:txid"@,
        StatementView::DeleteLastDerivationIndexByKeychain { .. } => "DELETE FROM last_derivation_indices WHERE keychain=:keychain"@,
        StatementView::DeleteSyncTime => "DELETE FROM sync_time WHERE id = 0"@,
    }
}

/// The structure of a statement's SQL text.
pub open spec fn query(s: StatementView) -> Query {
    match s {
        StatementView::InsertScriptPubkey { .. } => Query::Insert { table: "script_pubkeys"@, columns: seq!["keychain"@, "child"@, "script"@], values: seq![Operand::Param("keychain"@), Operand::Param("child"@), Operand::Param("script"@)], upsert: None },
        StatementView::InsertUtxo { .. } => Query::Insert { table: "utxos"@, columns: seq!["value"@, "keychain"@, "vout"@, "txid"@, "script"@, "is_spent"@], values: seq![Operand::Param("value"@), Operand::Param("keychain"@), Operand::Param("vout"@), Operand::Param("txid"@), Operand::Param("script"@), Operand::Param("is_spent"@)], upsert: None },
        StatementView::InsertTransaction { .. } => Query::Insert { table: "transactions"@, columns: seq!["txid"@, "raw_tx"@], values: seq![Operand::Param("txid"@), Operand::Param("raw_tx"@)], upsert: None },
        StatementView::UpdateTransaction { .. } => Query::Update { table: "transactions"@, sets: seq![set_param("raw_tx"@)], conds: seq![eq_param("txid"@)] },
        StatementView::InsertTransactionDetails { .. } => Query::Insert { table: "transaction_details"@, columns: seq!["txid"@, "timestamp"@, "received"@, "sent"@, "fee"@, "height"@], values: seq![Operand::Param("txid"@), Operand::Param("timestamp"@), Operand::Param("received"@), Operand::Param("sent"@), Operand::Param("fee"@), Operand::Param("height"@)], upsert: None },
        StatementView::UpdateTransactionDetails { .. } => Query::Update { table: "transaction_details"@, sets: seq![set_param("timestamp"@), set_param("received"@), set_param("sent"@), set_param("fee"@), set_param("height"@)], conds: seq![eq_param("txid"@)] },
        StatementView::InsertLastDerivationIndex { .. } => Query::Insert { table: "last_derivation_indices"@, columns: seq!["keychain"@, "value"@], values: seq![Operand::Param("keychain"@), Operand::Param("value"@)], upsert: None },
        StatementView::InsertChecksum { .. } => Query::Insert { table: "checksums"@, columns: seq!["keychain"@, "checksum"@], values: seq![Operand::Param("keychain"@), Operand::Param("checksum"@)], upsert: None },
        StatementView::UpdateLastDerivationIndex { .. } => Query::Insert { table: "last_derivation_indices"@, columns: seq!["keychain"@, "value"@], values: seq![Operand::Param("keychain"@), Operand::Param("value"@)], upsert: Some(Upsert { key: "keychain"@, sets: seq![set_param("value"@)], conds: seq![eq_param("keychain"@)] }) },
        StatementView::UpdateSyncTime { .. } => Query::Insert { table: "sync_time"@, columns: seq!["id"@, "height"@, "timestamp"@], values: seq![Operand::Number(0), Operand::Param("height"@), Operand::Param("timestamp"@)], upsert: Some(Upsert { key: "id"@, sets: seq![set_param("height"@), set_param("timestamp"@)], conds: seq![Equality { left: Operand::Column(col("id"@)), right: Operand::Number(0), spaced: true }] }) },
        StatementView::SelectScriptPubkeys => Query::Select { columns: seq![col("script"@)], from: "script_pubkeys"@, join: None, conds: seq![], order: seq![col("rowid"@)] },
        StatementView::SelectScriptPubkeysByKeychain { .. } => Query::Select { columns: seq![col("script"@)], from: "script_pubkeys"@, join: None, conds: seq![eq_param("keychain"@)], order: seq![col("rowid"@)] },
        StatementView::SelectScriptPubkeyByPath { .. } => Query::Select { columns: seq![col("script"@)], from: "script_pubkeys"@, join: None, conds: seq![eq_param("keychain"@), eq_param("child"@)], order: seq![col("rowid"@)] },
        StatementView::SelectScriptPubkeyByScript { .. } => Query::Select { columns: seq![col("keychain"@), col("child"@)], from: "script_pubkeys"@, join: None, conds: seq![eq_param("script"@)], order: seq![col("rowid"@)] },
        StatementView::SelectUtxos => Query::Select { columns: seq![col("value"@), col("keychain"@), col("vout"@), col("txid"@), col("script"@), col("is_spent"@)], from: "utxos"@, join: None, conds: seq![], order: seq![col("rowid"@)] },
        StatementView::SelectUtxoByOutpoint { .. } => Query::Select { columns: seq![col("value"@), col("keychain"@), col("script"@), col("is_spent"@)], from: "utxos"@, join: None, conds: seq![eq_param("txid"@), eq_param("vout"@)], order: seq![col("rowid"@)] },
        StatementView::SelectTransactions => Query::Select { columns: seq![col("raw_tx"@)], from: "transactions"@, join: None, conds: seq![], order: seq![col("rowid"@)] },
        StatementView::SelectTransactionByTxid { .. } => Query::Select { columns: seq![col("raw_tx"@)], from: "transactions"@, join: None, conds: seq![eq_param("txid"@)], order: seq![col("rowid"@)] },
        StatementView::SelectTransactionDetailsWithRaw => Query::Select { columns: seq![qcol("transaction_details"@, "txid"@), qcol("transaction_details"@, "timestamp"@), qcol("transaction_details"@, "received"@), qcol("transaction_details"@, "sent"@), qcol("transaction_details"@, "fee"@), qcol("transaction_details"@, "height"@), qcol("transactions"@, "raw_tx"@)], from: "transaction_details"@, join: Some(Join { table: "transactions"@, on: Equality { left: Operand::Column(qcol("transaction_details"@, "txid"@)), right: Operand::Column(qcol("transactions"@, "txid"@)), spaced: true } }), conds: seq![], order: seq![qcol("transaction_details"@, "rowid"@), qcol("transactions"@, "rowid"@)] },
        StatementView::SelectTransactionDetails => Query::Select { columns: seq![col("txid"@), col("timestamp"@), col("received"@), col("sent"@), col("fee"@), col("height"@)], from: "transaction_details"@, join: None, conds: seq![], order: seq![col("rowid"@)] },
        StatementView::SelectTransactionDetailsByTxid { .. } => Query::Select { columns: seq![qcol("transaction_details"@, "timestamp"@), qcol("transaction_details"@, "received"@), qcol("transaction_details"@, "sent"@), qcol("transaction_details"@, "fee"@), qcol("transaction_details"@, "height"@), qcol("transactions"@, "raw_tx"@)], from: "transaction_details"@, join: Some(Join { table: "transactions"@, on: Equality { left: Operand::Column(qcol("transaction_details"@, "txid"@)), right: Operand::Column(qcol("transactions"@, "txid"@)), spaced: true } }), conds: seq![Equality { left: Operand::Column(qcol("transaction_details"@, "txid"@)), right: Operand::Param("txid"@), spaced: false }], order: seq![qcol("transaction_details"@, "rowid"@), qcol("transactions"@, "rowid"@)] },
        StatementView::SelectLastDerivationIndexByKeychain { .. } => Query::Select { columns: seq![col("value"@)], from: "last_derivation_indices"@, join: None, conds: seq![eq_param("keychain"@)], order: seq![] },
        StatementView::SelectSyncTime => Query::Select { columns: seq![col("height"@), col("timestamp"@)], from: "sync_time"@, join: None, conds: seq![Equality { left: Operand::Column(col("id"@)), right: Operand::Number(0), spaced: true }], order: seq![] },
        StatementView::SelectChecksumByKeychain { .. } => Query::Select { columns: seq![col("checksum"@)], from: "checksums"@, join: None, conds: seq![eq_param("keychain"@)], order: seq![col("rowid"@)] },
        StatementView::DeleteScriptPubkeyByPath { .. } => Query::Delete { table: "script_pubkeys"@, conds: seq![eq_param("keychain"@), eq_param("child"@)] },
        StatementView::DeleteScriptPubkeyByScript { .. } => Query::Delete { table: "script_pubkeys"@, conds: seq![eq_param("script"@)] },
        StatementView::DeleteUtxoByOutpoint { .. } => Query::Delete { table: "utxos"@, conds: seq![eq_param("txid"@), eq_param("vout"@)] },
        StatementView::DeleteTransactionByTxid { .. } => Query::Delete { table: "transactions"@, conds: seq![eq_param("txid"@)] },
        StatementView::DeleteTransactionDetailsByTxid { .. } => Query::Delete { table: "transaction_details"@, conds: seq![eq_param("txid"@)] },
        StatementView::DeleteLastDerivationIndexByKeychain { .. } => Query::Delete { table: "last_derivation_indices"@, conds: seq![eq_param("keychain"@)] },
        StatementView::DeleteSyncTime => Query::Delete { table: "sync_time"@, conds: seq![Equality { left: Operand::Column(col("id"@)), right: Operand::Number(0), spaced: true }] },
    }
}

/// The text of `InsertScriptPubkey` is its structure, written out.
#[verifier::spinoff_prover]
#[verifier::rlimit(60)]
proof fn lemma_text_insert_script_pubkey(s: StatementView)
    requires
        s is InsertScriptPubkey,
    ensures
        sql_text(s) == render(query(s)),
{
    reveal_strlit(" (");
    reveal_strlit(")");
    reveal_strlit(") VALUES (");
    reveal_strlit(", ");
    reveal_strlit(":");
    reveal_strlit("INSERT INTO ");
    reveal_strlit("child");
    reveal_strlit("keychain");
    reveal_strlit("script");
    reveal_strlit("script_pubkeys");
    reveal_strlit("INSERT INTO script_pubkeys (keychain, child, script) VALUES (:keychain, :child, :script)");
    reveal_with_fuel(join_list, 8);
    assert(render(query(s)) =~= "INSERT INTO script_pubkeys (keychain, child, script) VALUES (:keychain, :child, :script)"@);
}

/// The text of `InsertUtxo` is its structure, written out.
#[verifier::spinoff_prover]
#[verifier::rlimit(60)]
proof fn lemma_text_insert_utxo(s: StatementView)
    requires
        s is InsertUtxo,
    ensures
        sql_text(s) == render(query(s)),
{
    reveal_strlit(" (");
    reveal_strlit(")");
    reveal_strlit(") VALUES (");
    reveal_strlit(", ");
    reveal_strlit(":");
    reveal_strlit("INSERT INTO ");
    reveal_strlit("is_spent");
    reveal_strlit("keychain");
    reveal_strlit("script");
    reveal_strlit("txid");
    reveal_strlit("utxos");
    reveal_strlit("value");
    reveal_strlit("vout");
    reveal_strlit("INSERT INTO utxos (value, keychain, vout, txid, script, is_spent) VALUES (:value, :keychain, :vout, :txid, :script, :is_spent)");
    reveal_with_fuel(join_list, 8);
    assert(render(query(s)) =~= "INSERT INTO utxos (value, keychain, vout, txid, script, is_spent) VALUES (:value, :keychain, :vout, :txid, :script, :is_spent)"@);
}

/// The text of `InsertTransaction` is its structure, written out.
#[verifier::spinoff_prover]
#[verifier::rlimit(60)]
proof fn lemma_text_insert_transaction(s: StatementView)
    requires
        s is InsertTransaction,
    ensures
        sql_text(s) == render(query(s)),
{
    reveal_strlit(" (");
    reveal_strlit(")");
    reveal_strlit(") VALUES (");
    reveal_strlit(", ");
    reveal_strlit(":");
    reveal_strlit("INSERT INTO ");
    reveal_strlit("raw_tx");
    reveal_strlit("transactions");
    reveal_strlit("txid");
    reveal_strlit("INSERT INTO transactions (txid, raw_tx) VALUES (:txid, :raw_tx)");
    reveal_with_fuel(join_list, 8);
    assert(render(query(s)) =~= "INSERT INTO transactions (txid, raw_tx) VALUES (:txid, :raw_tx)"@);
}

/// The text of `UpdateTransaction` is its structure, written out.
#[verifier::spinoff_prover]
#[verifier::rlimit(60)]
proof fn lemma_text_update_transaction(s: StatementView)
    requires
        s is UpdateTransaction,
    ensures
        sql_text(s) == render(query(s)),
{
    reveal_strlit(" SET ");
    reveal_strlit(" WHERE ");
    reveal_strlit(":");
    reveal_strlit("=");
    reveal_strlit("UPDATE ");
    reveal_strlit("raw_tx");
    reveal_strlit("transactions");
    reveal_strlit("txid");
    reveal_strlit("UPDATE transactions SET raw_tx=:raw_tx WHERE txid=:txid");
    reveal_with_fuel(join_list, 8);
    assert(render(query(s)) =~= "UPDATE transactions SET raw_tx=:raw_tx WHERE txid=:txid"@);
}

/// The text of `InsertTransactionDetails` is its structure, written out.
#[verifier::spinoff_prover]
#[verifier::rlimit(60)]
proof fn lemma_text_insert_transaction_details(s: StatementView)
    requires
        s is InsertTransactionDetails,
    ensures
        sql_text(s) == render(query(s)),
{
    reveal_strlit(" (");
    reveal_strlit(")");
    reveal_strlit(") VALUES (");
    reveal_strlit(", ");
    reveal_strlit(":");
    reveal_strlit("INSERT INTO ");
    reveal_strlit("fee");
    reveal_strlit("height");
    reveal_strlit("received");
    reveal_strlit("sent");
    reveal_strlit("timestamp");
    reveal_strlit("transaction_details");
    reveal_strlit("txid");
    reveal_strlit("INSERT INTO transaction_details (txid, timestamp, received, sent, fee, height) VALUES (:txid, :timestamp, :received, :sent, :fee, :height)");
    reveal_with_fuel(join_list, 8);
    assert(render(query(s)) =~= "INSERT INTO transaction_details (txid, timestamp, received, sent, fee, height) VALUES (:txid, :timestamp, :received, :sent, :fee, :height)"@);
}

/// The text of `UpdateTransactionDetails` is its structure, written out.
#[verifier::spinoff_prover]
#[verifier::rlimit(60)]
proof fn lemma_text_update_transaction_details(s: StatementView)
    requires
        s is UpdateTransactionDetails,
    ensures
        sql_text(s) == render(query(s)),
{
    reveal_strlit(" SET ");
    reveal_strlit(" WHERE ");
    reveal_strlit(", ");
    reveal_strlit(":");
    reveal_strlit("=");
    reveal_strlit("UPDATE ");
    reveal_strlit("fee");
    reveal_strlit("height");
    reveal_strlit("received");
    reveal_strlit("sent");
    reveal_strlit("timestamp");
    reveal_strlit("transaction_details");
    reveal_strlit("txid");
    reveal_strlit("UPDATE transaction_details SET timestamp=:timestamp, received=:received, sent=:sent, fee=:fee, height=:height WHERE txid=:txid");
    reveal_with_fuel(join_list, 8);
    assert(render(query(s)) =~= "UPDATE transaction_details SET timestamp=:timestamp, received=:received, sent=:sent, fee=:fee, height=:height WHERE txid=:txid"@);
}

/// The text of `InsertLastDerivationIndex` is its structure, written out.
#[verifier::spinoff_prover]
#[verifier::rlimit(60)]
proof fn lemma_text_insert_last_derivation_index(s: StatementView)
    requires
        s is InsertLastDerivationIndex,
    ensures
        sql_text(s) == render(query(s)),
{
    reveal_strlit(" (");
    reveal_strlit(")");
    reveal_strlit(") VALUES (");
    reveal_strlit(", ");
    reveal_strlit(":");
    reveal_strlit("INSERT INTO ");
    reveal_strlit("keychain");
    reveal_strlit("last_derivation_indices");
    reveal_strlit("value");
    reveal_strlit("INSERT INTO last_derivation_indices (keychain, value) VALUES (:keychain, :value)");
    reveal_with_fuel(join_list, 8);
    assert(render(query(s)) =~= "INSERT INTO last_derivation_indices (keychain, value) VALUES (:keychain, :value)"@);
}

/// The text of `InsertChecksum` is its structure, written out.
#[verifier::spinoff_prover]
#[verifier::rlimit(60)]
proof fn lemma_text_insert_checksum(s: StatementView)
    requires
        s is InsertChecksum,
    ensures
        sql_text(s) == render(query(s)),
{
    reveal_strlit(" (");
    reveal_strlit(")");
    reveal_strlit(") VALUES (");
    reveal_strlit(", ");
    reveal_strlit(":");
    reveal_strlit("INSERT INTO ");
    reveal_strlit("checksum");
    reveal_strlit("checksums");
    reveal_strlit("keychain");
    reveal_strlit("INSERT INTO checksums (keychain, checksum) VALUES (:keychain, :checksum)");
    reveal_with_fuel(join_list, 8);
    assert(render(query(s)) =~= "INSERT INTO checksums (keychain, checksum) VALUES (:keychain, :checksum)"@);
}

/// The text of `UpdateLastDerivationIndex` is its structure, written out.
#[verifier::spinoff_prover]
#[verifier::rlimit(60)]
proof fn lemma_text_update_last_derivation_index(s: StatementView)
    requires
        s is UpdateLastDerivationIndex,
    ensures
        sql_text(s) == render(query(s)),
{
    reveal_strlit(" (");
    reveal_strlit(" ON ");
    reveal_strlit(" ON CONFLICT(");
    reveal_strlit(" SET ");
    reveal_strlit(" WHERE ");
    reveal_strlit(")");
    reveal_strlit(") DO UPDATE SET ");
    reveal_strlit(") VALUES (");
    reveal_strlit(", ");
    reveal_strlit(":");
    reveal_strlit("=");
    reveal_strlit("INSERT INTO ");
    reveal_strlit("UPDATE ");
    reveal_strlit("keychain");
    reveal_strlit("last_derivation_indices");
    reveal_strlit("value");
    reveal_strlit("INSERT INTO last_derivation_indices (keychain, value) VALUES (:keychain, :value) ON CONFLICT(keychain) DO UPDATE SET value=:value WHERE keychain=:keychain");
    reveal_with_fuel(join_list, 8);
    assert(render(query(s)) =~= "INSERT INTO last_derivation_indices (keychain, value) VALUES (:keychain, :value) ON CONFLICT(keychain) DO UPDATE SET value=:value WHERE keychain=:keychain"@);
}

/// The text of `UpdateSyncTime` is its structure, written out.
#[verifier::spinoff_prover]
#[verifier::rlimit(60)]
proof fn lemma_text_update_sync_time(s: StatementView)
    requires
        s is UpdateSyncTime,
    ensures
        sql_text(s) == render(query(s)),
{
    reveal_strlit(" (");
    reveal_strlit(" = ");
    reveal_strlit(" ON ");
    reveal_strlit(" ON CONFLICT(");
    reveal_strlit(" SET ");
    reveal_strlit(" WHERE ");
    reveal_strlit(")");
    reveal_strlit(") DO UPDATE SET ");
    reveal_strlit(") VALUES (");
    reveal_strlit(", ");
    reveal_strlit("0");
    reveal_strlit(":");
    reveal_strlit("=");
    reveal_strlit("INSERT INTO ");
    reveal_strlit("UPDATE ");
    reveal_strlit("height");
    reveal_strlit("id");
    reveal_strlit("sync_time");
    reveal_strlit("timestamp");
    reveal_strlit("INSERT INTO sync_time (id, height, timestamp) VALUES (0, :height, :timestamp) ON CONFLICT(id) DO UPDATE SET height=:height, timestamp=:timestamp WHERE id = 0");
    reveal_with_fuel(join_list, 8);
    assert(render(query(s)) =~= "INSERT INTO sync_time (id, height, timestamp) VALUES (0, :height, :timestamp) ON CONFLICT(id) DO UPDATE SET height=:height, timestamp=:timestamp WHERE id = 0"@);
}

/// The text of `SelectScriptPubkeys` is its structure, written out.
#[verifier::spinoff_prover]
#[verifier::rlimit(60)]
proof fn lemma_text_select_script_pubkeys(s: StatementView)
    requires
        s is SelectScriptPubkeys,
    ensures
        sql_text(s) == render(query(s)),
{
    reveal_strlit(" FROM ");
    reveal_strlit(" ORDER BY ");
    reveal_strlit("SELECT ");
    reveal_strlit("rowid");
    reveal_strlit("script");
    reveal_strlit("script_pubkeys");
    reveal_strlit("SELECT script FROM script_pubkeys ORDER BY rowid");
    reveal_with_fuel(join_list, 8);
    assert(render(query(s)) =~= "SELECT script FROM script_pubkeys ORDER BY rowid"@);
}

/// The text of `SelectScriptPubkeysByKeychain` is its structure, written out.
#[verifier::spinoff_prover]
#[verifier::rlimit(60)]
proof fn lemma_text_select_script_pubkeys_by_keychain(s: StatementView)
    requires
        s is SelectScriptPubkeysByKeychain,
    ensures
        sql_text(s) == render(query(s)),
{
    reveal_strlit(" FROM ");
    reveal_strlit(" ORDER BY ");
    reveal_strlit(" WHERE ");
    reveal_strlit(":");
    reveal_strlit("=");
    reveal_strlit("SELECT ");
    reveal_strlit("keychain");
    reveal_strlit("rowid");
    reveal_strlit("script");
    reveal_strlit("script_pubkeys");
    reveal_strlit("SELECT script FROM script_pubkeys WHERE keychain=:keychain ORDER BY rowid");
    reveal_with_fuel(join_list, 8);
    assert(render(query(s)) =~= "SELECT script FROM script_pubkeys WHERE keychain=:keychain ORDER BY rowid"@);
}

/// The text of `SelectScriptPubkeyByPath` is its structure, written out.
#[verifier::spinoff_prover]
#[verifier::rlimit(60)]
proof fn lemma_text_select_script_pubkey_by_path(s: StatementView)
    requires
        s is SelectScriptPubkeyByPath,
    ensures
        sql_text(s) == render(query(s)),
{
    reveal_strlit(" AND ");
    reveal_strlit(" FROM ");
    reveal_strlit(" ORDER BY ");
    reveal_strlit(" WHERE ");
    reveal_strlit(":");
    reveal_strlit("=");
    reveal_strlit("SELECT ");
    reveal_strlit("child");
    reveal_strlit("keychain");
    reveal_strlit("rowid");
    reveal_strlit("script");
    reveal_strlit("script_pubkeys");
    reveal_strlit("SELECT script FROM script_pubkeys WHERE keychain=:keychain AND child=:child ORDER BY rowid");
    reveal_with_fuel(join_list, 8);
    assert(render(query(s)) =~= "SELECT script FROM script_pubkeys WHERE keychain=:keychain AND child=:child ORDER BY rowid"@);
}

/// The text of `SelectScriptPubkeyByScript` is its structure, written out.
#[verifier::spinoff_prover]
#[verifier::rlimit(60)]
proof fn lemma_text_select_script_pubkey_by_script(s: StatementView)
    requires
        s is SelectScriptPubkeyByScript,
    ensures
        sql_text(s) == render(query(s)),
{
    reveal_strlit(" FROM ");
    reveal_strlit(" ORDER BY ");
    reveal_strlit(" WHERE ");
    reveal_strlit(", ");
    reveal_strlit(":");
    reveal_strlit("=");
    reveal_strlit("SELECT ");
    reveal_strlit("child");
    reveal_strlit("keychain");
    reveal_strlit("rowid");
    reveal_strlit("script");
    reveal_strlit("script_pubkeys");
    reveal_strlit("SELECT keychain, child FROM script_pubkeys WHERE script=:script ORDER BY rowid");
    reveal_with_fuel(join_list, 8);
    assert(render(query(s)) =~= "SELECT keychain, child FROM script_pubkeys WHERE script=:script ORDER BY rowid"@);
}

/// The text of `SelectUtxos` is its structure, written out.
#[verifier::spinoff_prover]
#[verifier::rlimit(60)]
proof fn lemma_text_select_utxos(s: StatementView)
    requires
        s is SelectUtxos,
    ensures
        sql_text(s) == render(query(s)),
{
    reveal_strlit(" FROM ");
    reveal_strlit(" ORDER BY ");
    reveal_strlit(", ");
    reveal_strlit("SELECT ");
    reveal_strlit("is_spent");
    reveal_strlit("keychain");
    reveal_strlit("rowid");
    reveal_strlit("script");
    reveal_strlit("txid");
    reveal_strlit("utxos");
    reveal_strlit("value");
    reveal_strlit("vout");
    reveal_strlit("SELECT value, keychain, vout, txid, script, is_spent FROM utxos ORDER BY rowid");
    reveal_with_fuel(join_list, 8);
    assert(render(query(s)) =~= "SELECT value, keychain, vout, txid, script, is_spent FROM utxos ORDER BY rowid"@);
}

/// The text of `SelectUtxoByOutpoint` is its structure, written out.
#[verifier::spinoff_prover]
#[verifier::rlimit(60)]
proof fn lemma_text_select_utxo_by_outpoint(s: StatementView)
    requires
        s is SelectUtxoByOutpoint,
    ensures
        sql_text(s) == render(query(s)),
{
    reveal_strlit(" AND ");
    reveal_strlit(" FROM ");
    reveal_strlit(" ORDER BY ");
    reveal_strlit(" WHERE ");
    reveal_strlit(", ");
    reveal_strlit(":");
    reveal_strlit("=");
    reveal_strlit("SELECT ");
    reveal_strlit("is_spent");
    reveal_strlit("keychain");
    reveal_strlit("rowid");
    reveal_strlit("script");
    reveal_strlit("txid");
    reveal_strlit("utxos");
    reveal_strlit("value");
    reveal_strlit("vout");
    reveal_strlit("SELECT value, keychain, script, is_spent FROM utxos WHERE txid=:txid AND vout=:vout ORDER BY rowid");
    reveal_with_fuel(join_list, 8);
    assert(render(query(s)) =~= "SELECT value, keychain, script, is_spent FROM utxos WHERE txid=:txid AND vout=:vout ORDER BY rowid"@);
}

/// The text of `SelectTransactions` is its structure, written out.
#[verifier::spinoff_prover]
#[verifier::rlimit(60)]
proof fn lemma_text_select_transactions(s: StatementView)
    requires
        s is SelectTransactions,
    ensures
        sql_text(s) == render(query(s)),
{
    reveal_strlit(" FROM ");
    reveal_strlit(" ORDER BY ");
    reveal_strlit("SELECT ");
    reveal_strlit("raw_tx");
    reveal_strlit("rowid");
    reveal_strlit("transactions");
    reveal_strlit("SELECT raw_tx FROM transactions ORDER BY rowid");
    reveal_with_fuel(join_list, 8);
    assert(render(query(s)) =~= "SELECT raw_tx FROM transactions ORDER BY rowid"@);
}

/// The text of `SelectTransactionByTxid` is its structure, written out.
#[verifier::spinoff_prover]
#[verifier::rlimit(60)]
proof fn lemma_text_select_transaction_by_txid(s: StatementView)
    requires
        s is SelectTransactionByTxid,
    ensures
        sql_text(s) == render(query(s)),
{
    reveal_strlit(" FROM ");
    reveal_strlit(" ORDER BY ");
    reveal_strlit(" WHERE ");
    reveal_strlit(":");
    reveal_strlit("=");
    reveal_strlit("SELECT ");
    reveal_strlit("raw_tx");
    reveal_strlit("rowid");
    reveal_strlit("transactions");
    reveal_strlit("txid");
    reveal_strlit("SELECT raw_tx FROM transactions WHERE txid=:txid ORDER BY rowid");
    reveal_with_fuel(join_list, 8);
    assert(render(query(s)) =~= "SELECT raw_tx FROM transactions WHERE txid=:txid ORDER BY rowid"@);
}

/// The text of `SelectTransactionDetailsWithRaw` is its structure, written out.
#[verifier::spinoff_prover]
#[verifier::rlimit(60)]
proof fn lemma_text_select_transaction_details_with_raw(s: StatementView)
    requires
        s is SelectTransactionDetailsWithRaw,
    ensures
        sql_text(s) == render(query(s)),
{
    reveal_strlit(" = ");
    reveal_strlit(" FROM ");
    reveal_strlit(" LEFT JOIN ");
    reveal_strlit(" ON ");
    reveal_strlit(" ORDER BY ");
    reveal_strlit(", ");
    reveal_strlit(".");
    reveal_strlit("=");
    reveal_strlit("SELECT ");
    reveal_strlit("fee");
    reveal_strlit("height");
    reveal_strlit("raw_tx");
    reveal_strlit("received");
    reveal_strlit("rowid");
    reveal_strlit("sent");
    reveal_strlit("timestamp");
    reveal_strlit("transaction_details");
    reveal_strlit("transactions");
    reveal_strlit("txid");
    reveal_strlit("SELECT transaction_details.txid, transaction_details.timestamp, transaction_details.received, transaction_details.sent, transaction_details.fee, transaction_details.height, transactions.raw_tx FROM transaction_details LEFT JOIN transactions ON transaction_details.txid = transactions.txid ORDER BY transaction_details.rowid, transactions.rowid");
    reveal_with_fuel(join_list, 8);
    assert(render(query(s)) =~= "SELECT transaction_details.txid, transaction_details.timestamp, transaction_details.received, transaction_details.sent, transaction_details.fee, transaction_details.height, transactions.raw_tx FROM transaction_details LEFT JOIN transactions ON transaction_details.txid = transactions.txid ORDER BY transaction_details.rowid, transactions.rowid"@);
}

/// The text of `SelectTransactionDetails` is its structure, written out.
#[verifier::spinoff_prover]
#[verifier::rlimit(60)]
proof fn lemma_text_select_transaction_details(s: StatementView)
    requires
        s is SelectTransactionDetails,
    ensures
        sql_text(s) == render(query(s)),
{
    reveal_strlit(" FROM ");
    reveal_strlit(" ORDER BY ");
    reveal_strlit(", ");
    reveal_strlit("SELECT ");
    reveal_strlit("fee");
    reveal_strlit("height");
    reveal_strlit("received");
    reveal_strlit("rowid");
    reveal_strlit("sent");
    reveal_strlit("timestamp");
    reveal_strlit("transaction_details");
    reveal_strlit("txid");
    reveal_strlit("SELECT txid, timestamp, received, sent, fee, height FROM transaction_details ORDER BY rowid");
    reveal_with_fuel(join_list, 8);
    assert(render(query(s)) =~= "SELECT txid, timestamp, received, sent, fee, height FROM transaction_details ORDER BY rowid"@);
}

/// The text of `SelectTransactionDetailsByTxid` is its structure, written out.
#[verifier::spinoff_prover]
#[verifier::rlimit(60)]
proof fn lemma_text_select_transaction_details_by_txid(s: StatementView)
    requires
        s is SelectTransactionDetailsByTxid,
    ensures
        sql_text(s) == render(query(s)),
{
    reveal_strlit(" = ");
    reveal_strlit(" FROM ");
    reveal_strlit(" LEFT JOIN ");
    reveal_strlit(" ON ");
    reveal_strlit(" ORDER BY ");
    reveal_strlit(" WHERE ");
    reveal_strlit(", ");
    reveal_strlit(".");
    reveal_strlit(":");
    reveal_strlit("=");
    reveal_strlit("SELECT ");
    reveal_strlit("fee");
    reveal_strlit("height");
    reveal_strlit("raw_tx");
    reveal_strlit("received");
    reveal_strlit("rowid");
    reveal_strlit("sent");
    reveal_strlit("timestamp");
    reveal_strlit("transaction_details");
    reveal_strlit("transactions");
    reveal_strlit("txid");
    reveal_strlit("SELECT transaction_details.timestamp, transaction_details.received, transaction_details.sent, transaction_details.fee, transaction_details.height, transactions.raw_tx FROM transaction_details LEFT JOIN transactions ON transaction_details.txid = transactions.txid WHERE transaction_details.txid=:txid ORDER BY transaction_details.rowid, transactions.rowid");
    reveal_with_fuel(join_list, 8);
    assert(render(query(s)) =~= "SELECT transaction_details.timestamp, transaction_details.received, transaction_details.sent, transaction_details.fee, transaction_details.height, transactions.raw_tx FROM transaction_details LEFT JOIN transactions ON transaction_details.txid = transactions.txid WHERE transaction_details.txid=:txid ORDER BY transaction_details.rowid, transactions.rowid"@);
}

/// The text of `SelectLastDerivationIndexByKeychain` is its structure, written out.
#[verifier::spinoff_prover]
#[verifier::rlimit(60)]
proof fn lemma_text_select_last_derivation_index_by_keychain(s: StatementView)
    requires
        s is SelectLastDerivationIndexByKeychain,
    ensures
        sql_text(s) == render(query(s)),
{
    reveal_strlit(" FROM ");
    reveal_strlit(" WHERE ");
    reveal_strlit(":");
    reveal_strlit("=");
    reveal_strlit("SELECT ");
    reveal_strlit("keychain");
    reveal_strlit("last_derivation_indices");
    reveal_strlit("value");
    reveal_strlit("SELECT value FROM last_derivation_indices WHERE keychain=:keychain");
    reveal_with_fuel(join_list, 8);
    assert(render(query(s)) =~= "SELECT value FROM last_derivation_indices WHERE keychain=:keychain"@);
}

/// The text of `SelectSyncTime` is its structure, written out.
#[verifier::spinoff_prover]
#[verifier::rlimit(60)]
proof fn lemma_text_select_sync_time(s: StatementView)
    requires
        s is SelectSyncTime,
    ensures
        sql_text(s) == render(query(s)),
{
    reveal_strlit(" = ");
    reveal_strlit(" FROM ");
    reveal_strlit(" WHERE ");
    reveal_strlit(", ");
    reveal_strlit("0");
    reveal_strlit("=");
    reveal_strlit("SELECT ");
    reveal_strlit("height");
    reveal_strlit("id");
    reveal_strlit("sync_time");
    reveal_strlit("timestamp");
    reveal_strlit("SELECT height, timestamp FROM sync_time WHERE id = 0");
    reveal_with_fuel(join_list, 8);
    assert(render(query(s)) =~= "SELECT height, timestamp FROM sync_time WHERE id = 0"@);
}

/// The text of `SelectChecksumByKeychain` is its structure, written out.
#[verifier::spinoff_prover]
#[verifier::rlimit(60)]
proof fn lemma_text_select_checksum_by_keychain(s: StatementView)
    requires
        s is SelectChecksumByKeychain,
    ensures
        sql_text(s) == render(query(s)),
{
    reveal_strlit(" FROM ");
    reveal_strlit(" ORDER BY ");
    reveal_strlit(" WHERE ");
    reveal_strlit(":");
    reveal_strlit("=");
    reveal_strlit("SELECT ");
    reveal_strlit("checksum");
    reveal_strlit("checksums");
    reveal_strlit("keychain");
    reveal_strlit("rowid");
    reveal_strlit("SELECT checksum FROM checksums WHERE keychain=:keychain ORDER BY rowid");
    reveal_with_fuel(join_list, 8);
    assert(render(query(s)) =~= "SELECT checksum FROM checksums WHERE keychain=:keychain ORDER BY rowid"@);
}

/// The text of `DeleteScriptPubkeyByPath` is its structure, written out.
#[verifier::spinoff_prover]
#[verifier::rlimit(60)]
proof fn lemma_text_delete_script_pubkey_by_path(s: StatementView)
    requires
        s is DeleteScriptPubkeyByPath,
    ensures
        sql_text(s) == render(query(s)),
{
    reveal_strlit(" AND ");
    reveal_strlit(" FROM ");
    reveal_strlit(" WHERE ");
    reveal_strlit(":");
    reveal_strlit("=");
    reveal_strlit("DELETE FROM ");
    reveal_strlit("child");
    reveal_strlit("keychain");
    reveal_strlit("script_pubkeys");
    reveal_strlit("DELETE FROM script_pubkeys WHERE keychain=:keychain AND child=:child");
    reveal_with_fuel(join_list, 8);
    assert(render(query(s)) =~= "DELETE FROM script_pubkeys WHERE keychain=:keychain AND child=:child"@);
}

/// The text of `DeleteScriptPubkeyByScript` is its structure, written out.
#[verifier::spinoff_prover]
#[verifier::rlimit(60)]
proof fn lemma_text_delete_script_pubkey_by_script(s: StatementView)
    requires
        s is DeleteScriptPubkeyByScript,
    ensures
        sql_text(s) == render(query(s)),
{
    reveal_strlit(" FROM ");
    reveal_strlit(" WHERE ");
    reveal_strlit(":");
    reveal_strlit("=");
    reveal_strlit("DELETE FROM ");
    reveal_strlit("script");
    reveal_strlit("script_pubkeys");
    reveal_strlit("DELETE FROM script_pubkeys WHERE script=:script");
    reveal_with_fuel(join_list, 8);
    assert(render(query(s)) =~= "DELETE FROM script_pubkeys WHERE script=:script"@);
}

/// The text of `DeleteUtxoByOutpoint` is its structure, written out.
#[verifier::spinoff_prover]
#[verifier::rlimit(60)]
proof fn lemma_text_delete_utxo_by_outpoint(s: StatementView)
    requires
        s is DeleteUtxoByOutpoint,
    ensures
        sql_text(s) == render(query(s)),
{
    reveal_strlit(" AND ");
    reveal_strlit(" FROM ");
    reveal_strlit(" WHERE ");
    reveal_strlit(":");
    reveal_strlit("=");
    reveal_strlit("DELETE FROM ");
    reveal_strlit("txid");
    reveal_strlit("utxos");
    reveal_strlit("vout");
    reveal_strlit("DELETE FROM utxos WHERE txid=:txid AND vout=:vout");
    reveal_with_fuel(join_list, 8);
    assert(render(query(s)) =~= "DELETE FROM utxos WHERE txid=:txid AND vout=:vout"@);
}

/// The text of `DeleteTransactionByTxid` is its structure, written out.
#[verifier::spinoff_prover]
#[verifier::rlimit(60)]
proof fn lemma_text_delete_transaction_by_txid(s: StatementView)
    requires
        s is DeleteTransactionByTxid,
    ensures
        sql_text(s) == render(query(s)),
{
    reveal_strlit(" FROM ");
    reveal_strlit(" WHERE ");
    reveal_strlit(":");
    reveal_strlit("=");
    reveal_strlit("DELETE FROM ");
    reveal_strlit("transactions");
    reveal_strlit("txid");
    reveal_strlit("DELETE FROM transactions WHERE txid=:txid");
    reveal_with_fuel(join_list, 8);
    assert(render(query(s)) =~= "DELETE FROM transactions WHERE txid=:txid"@);
}

/// The text of `DeleteTransactionDetailsByTxid` is its structure, written out.
#[verifier::spinoff_prover]
#[verifier::rlimit(60)]
proof fn lemma_text_delete_transaction_details_by_txid(s: StatementView)
    requires
        s is DeleteTransactionDetailsByTxid,
    ensures
        sql_text(s) == render(query(s)),
{
    reveal_strlit(" FROM ");
    reveal_strlit(" WHERE ");
    reveal_strlit(":");
    reveal_strlit("=");
    reveal_strlit("DELETE FROM ");
    reveal_strlit("transaction_details");
    reveal_strlit("txid");
    reveal_strlit("DELETE FROM transaction_details WHERE txid=:txid");
    reveal_with_fuel(join_list, 8);
    assert(render(query(s)) =~= "DELETE FROM transaction_details WHERE txid=:txid"@);
}

/// The text of `DeleteLastDerivationIndexByKeychain` is its structure, written out.
#[verifier::spinoff_prover]
#[verifier::rlimit(60)]
proof fn lemma_text_delete_last_derivation_index_by_keychain(s: StatementView)
    requires
        s is DeleteLastDerivationIndexByKeychain,
    ensures
        sql_text(s) == render(query(s)),
{
    reveal_strlit(" FROM ");
    reveal_strlit(" WHERE ");
    reveal_strlit(":");
    reveal_strlit("=");
    reveal_strlit("DELETE FROM ");
    reveal_strlit("keychain");
    reveal_strlit("last_derivation_indices");
    reveal_strlit("DELETE FROM last_derivation_indices WHERE keychain=:keychain");
    reveal_with_fuel(join_list, 8);
    assert(render(query(s)) =~= "DELETE FROM last_derivation_indices WHERE keychain=:keychain"@);
}

/// The text of `DeleteSyncTime` is its structure, written out.
#[verifier::spinoff_prover]
#[verifier::rlimit(60)]
proof fn lemma_text_delete_sync_time(s: StatementView)
    requires
        s is DeleteSyncTime,
    ensures
        sql_text(s) == render(query(s)),
{
    reveal_strlit(" = ");
    reveal_strlit(" FROM ");
    reveal_strlit(" WHERE ");
    reveal_strlit("0");
    reveal_strlit("=");
    reveal_strlit("DELETE FROM ");
    reveal_strlit("id");
    reveal_strlit("sync_time");
    reveal_strlit("DELETE FROM sync_time WHERE id = 0");
    reveal_with_fuel(join_list, 8);
    assert(render(query(s)) =~= "DELETE FROM sync_time WHERE id = 0"@);
}

/// The text of every statement is its structure, written out.
pub proof fn lemma_text_is_rendered(s: StatementView)
    ensures
        sql_text(s) == render(query(s)),
{
    match s {
        StatementView::InsertScriptPubkey { .. } => lemma_text_insert_script_pubkey(s),
        StatementView::InsertUtxo { .. } => lemma_text_insert_utxo(s),
        StatementView::InsertTransaction { .. } => lemma_text_insert_transaction(s),
        StatementView::UpdateTransaction { .. } => lemma_text_update_transaction(s),
        StatementView::InsertTransactionDetails { .. } => lemma_text_insert_transaction_details(s),
        StatementView::UpdateTransactionDetails { .. } => lemma_text_update_transaction_details(s),
        StatementView::InsertLastDerivationIndex { .. } => lemma_text_insert_last_derivation_index(s),
        StatementView::InsertChecksum { .. } => lemma_text_insert_checksum(s),
        StatementView::UpdateLastDerivationIndex { .. } => lemma_text_update_last_derivation_index(s),
        StatementView::UpdateSyncTime { .. } => lemma_text_update_sync_time(s),
        StatementView::SelectScriptPubkeys => lemma_text_select_script_pubkeys(s),
        StatementView::SelectScriptPubkeysByKeychain { .. } => lemma_text_select_script_pubkeys_by_keychain(s),
        StatementView::SelectScriptPubkeyByPath { .. } => lemma_text_select_script_pubkey_by_path(s),
        StatementView::SelectScriptPubkeyByScript { .. } => lemma_text_select_script_pubkey_by_script(s),
        StatementView::SelectUtxos => lemma_text_select_utxos(s),
        StatementView::SelectUtxoByOutpoint { .. } => lemma_text_select_utxo_by_outpoint(s),
        StatementView::SelectTransactions => lemma_text_select_transactions(s),
        StatementView::SelectTransactionByTxid { .. } => lemma_text_select_transaction_by_txid(s),
        StatementView::SelectTransactionDetailsWithRaw => lemma_text_select_transaction_details_with_raw(s),
        StatementView::SelectTransactionDetails => lemma_text_select_transaction_details(s),
        StatementView::SelectTransactionDetailsByTxid { .. } => lemma_text_select_transaction_details_by_txid(s),
        StatementView::SelectLastDerivationIndexByKeychain { .. } => lemma_text_select_last_derivation_index_by_keychain(s),
        StatementView::SelectSyncTime => lemma_text_select_sync_time(s),
        StatementView::SelectChecksumByKeychain { .. } => lemma_text_select_checksum_by_keychain(s),
        StatementView::DeleteScriptPubkeyByPath { .. } => lemma_text_delete_script_pubkey_by_path(s),
        StatementView::DeleteScriptPubkeyByScript { .. } => lemma_text_delete_script_pubkey_by_script(s),
        StatementView::DeleteUtxoByOutpoint { .. } => lemma_text_delete_utxo_by_outpoint(s),
        StatementView::DeleteTransactionByTxid { .. } => lemma_text_delete_transaction_by_txid(s),
        StatementView::DeleteTransactionDetailsByTxid { .. } => lemma_text_delete_transaction_details_by_txid(s),
        StatementView::DeleteLastDerivationIndexByKeychain { .. } => lemma_text_delete_last_derivation_index_by_keychain(s),
        StatementView::DeleteSyncTime => lemma_text_delete_sync_time(s),
    }
}

impl Statement {
    /// The SQL text of the statement.
    pub fn sql(&self) -> (r: &'static str)
        ensures
            r@ == sql_text(self@),
            r@ == render(query(self@)),
    {
        proof {
            lemma_text_is_rendered(self@);
        }
        match self {
            Statement::InsertScriptPubkey { .. } => "INSERT INTO script_pubkeys (keychain, child, script) VALUES (:keychain, :child, :script)",
            Statement::InsertUtxo { .. } => "INSERT INTO utxos (value, keychain, vout, txid, script, is_spent) VALUES (:value, :keychain, :vout, :txid, :script, :is_spent)",
            Statement::InsertTransaction { .. } => "INSERT INTO transactions (txid, raw_tx) VALUES (:txid, :raw_tx)",
            Statement::UpdateTransaction { .. } => "UPDATE transactions SET raw_tx=:raw_tx WHERE txid=:txid",
            Statement::InsertTransactionDetails { .. } => "INSERT INTO transaction_details (txid, timestamp, received, sent, fee, height) VALUES (:txid, :timestamp, :received, :sent, :fee, :height)",
            Statement::UpdateTransactionDetails { .. } => "UPDATE transaction_details SET timestamp=:timestamp, received=:received, sent=:sent, fee=:fee, height=:height WHERE txid=:txid",
            Statement::InsertLastDerivationIndex { .. } => "INSERT INTO last_derivation_indices (keychain, value) VALUES (:keychain, :value)",
            Statement::InsertChecksum { .. } => "INSERT INTO checksums (keychain, checksum) VALUES (:keychain, :checksum)",
            Statement::UpdateLastDerivationIndex { .. } => "INSERT INTO last_derivation_indices (keychain, value) VALUES (:keychain, :value) ON CONFLICT(keychain) DO UPDATE SET value=:value WHERE keychain=:keychain",
            Statement::UpdateSyncTime { .. } => "INSERT INTO sync_time (id, height, timestamp) VALUES (0, :height, :timestamp) ON CONFLICT(id) DO UPDATE SET height=:height, timestamp=:timestamp WHERE id = 0",
            Statement::SelectScriptPubkeys => "SELECT script FROM script_pubkeys ORDER BY rowid",
            Statement::SelectScriptPubkeysByKeychain { .. } => "SELECT script FROM script_pubkeys WHERE keychain=:keychain ORDER BY rowid",
            Statement::SelectScriptPubkeyByPath { .. } => "SELECT script FROM script_pubkeys WHERE keychain=:keychain AND child=:child ORDER BY rowid",
            Statement::SelectScriptPubkeyByScript { .. } => "SELECT keychain, child FROM script_pubkeys WHERE script=:script ORDER BY rowid",
            Statement::SelectUtxos => "SELECT value, keychain, vout, txid, script, is_spent FROM utxos ORDER BY rowid",
            Statement::SelectUtxoByOutpoint { .. } => "SELECT value, keychain, script, is_spent FROM utxos WHERE txid=:txid AND vout=:vout ORDER BY rowid",
            Statement::SelectTransactions => "SELECT raw_tx FROM transactions ORDER BY rowid",
            Statement::SelectTransactionByTxid { .. } => "SELECT raw_tx FROM transactions WHERE txid=:txid ORDER BY rowid",
            Statement::SelectTransactionDetailsWithRaw => "SELECT transaction_details.txid, transaction_details.timestamp, transaction_details.received, transaction_details.sent, transaction_details.fee, transaction_details.height, transactions.raw_tx FROM transaction_details LEFT JOIN transactions ON transaction_details.txid = transactions.txid ORDER BY transaction_details.rowid, transactions.rowid",
            Statement::SelectTransactionDetails => "SELECT txid, timestamp, received, sent, fee, height FROM transaction_details ORDER BY rowid",
            Statement::SelectTransactionDetailsByTxid { .. } => "SELECT transaction_details.timestamp, transaction_details.received, transaction_details.sent, transaction_details.fee, transaction_details.height, transactions.raw_tx FROM transaction_details LEFT JOIN transactions ON transaction_details.txid = transactions.txid WHERE transaction_details.txid=:txid ORDER BY transaction_details.rowid, transactions.rowid",
            Statement::SelectLastDerivationIndexByKeychain { .. } => "SELECT value FROM last_derivation_indices WHERE keychain=:keychain",
            Statement::SelectSyncTime => "SELECT height, timestamp FROM sync_time WHERE id = 0",
            Statement::SelectChecksumByKeychain { .. } => "SELECT checksum FROM checksums WHERE keychain=:keychain ORDER BY rowid",
            Statement::DeleteScriptPubkeyByPath { .. } => "DELETE FROM script_pubkeys WHERE keychain=:keychain AND child=:child",
            Statement::DeleteScriptPubkeyByScript { .. } => "DELETE FROM script_pubkeys WHERE script=:script",
            Statement::DeleteUtxoByOutpoint { .. } => "DELETE FROM utxos WHERE txid=:txid AND vout=:vout",
            Statement::DeleteTransactionByTxid { .. } => "DELETE FROM transactions WHERE txid=:txid",
            Statement::DeleteTransactionDetailsByTxid { .. } => "DELETE FROM transaction_details WHERE txid=:txid",
            Statement::DeleteLastDerivationIndexByKeychain { .. } => "DELETE FROM last_derivation_indices WHERE keychain=:keychain",
            Statement::DeleteSyncTime => "DELETE FROM sync_time WHERE id = 0",
        }
    }
}

/// The statement that opens a batch of writes.
pub fn begin_transaction_sql() -> (r: &'static str)
    ensures
        r@ == "BEGIN TRANSACTION"@,
{
    "BEGIN TRANSACTION"
}

/// The statement that commits a batch of writes.
pub fn commit_transaction_sql() -> (r: &'static str)
    ensures
        r@ == "COMMIT TRANSACTION"@,
{
    "COMMIT TRANSACTION"
}

} // verus!
