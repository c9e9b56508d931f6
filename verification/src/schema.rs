//! The schema of the store: the statements that build it, version by
//! version, and the protocol that brings a store up to the latest version.
use vstd::prelude::*;
use crate::sql_syntax::{
    col, join_list, render, render_schema, set_param, ColumnDef, Query, SchemaStatement,
};

verus! {

/// The number of schema statements; a store that has run them all is at
/// this version.
pub const MIGRATION_COUNT: usize = 21;

/// The schema statement that takes a store from version `i` to `i + 1`.
pub open spec fn migration_text(i: int) -> Seq<char> {
    if i == 0 {
        "CREATE TABLE version (version INTEGER)"@
    } else if i == 1 {
        "INSERT INTO version VALUES (1)"@
    } else if i == 2 {
        "CREATE TABLE script_pubkeys (keychain TEXT, child INTEGER, script BLOB);"@
    } else if i == 3 {
        "CREATE INDEX idx_keychain_child ON script_pubkeys(keychain, child);"@
    } else if i == 4 {
        "CREATE INDEX idx_script ON script_pubkeys(script);"@
    } else if i == 5 {
        "CREATE TABLE utxos (value INTEGER, keychain TEXT, vout INTEGER, txid BLOB, script BLOB);"@
    } else if i == 6 {
        "CREATE INDEX idx_txid_vout ON utxos(txid, vout);"@
    } else if i == 7 {
        "CREATE TABLE transactions (txid BLOB, raw_tx BLOB);"@
    } else if i == 8 {
        "CREATE INDEX idx_txid ON transactions(txid);"@
    } else if i == 9 {
        "CREATE TABLE transaction_details (txid BLOB, timestamp INTEGER, received INTEGER, sent INTEGER, fee INTEGER, height INTEGER, verified INTEGER DEFAULT 0);"@
    } else if i == 10 {
        "CREATE INDEX idx_txdetails_txid ON transaction_details(txid);"@
    } else if i == 11 {
        "CREATE TABLE last_derivation_indices (keychain TEXT, value INTEGER);"@
    } else if i == 12 {
        "CREATE UNIQUE INDEX idx_indices_keychain ON last_derivation_indices(keychain);"@
    } else if i == 13 {
        "CREATE TABLE checksums (keychain TEXT, checksum BLOB);"@
    } else if i == 14 {
        "CREATE INDEX idx_checksums_keychain ON checksums(keychain);"@
    } else if i == 15 {
        "CREATE TABLE sync_time (id INTEGER PRIMARY KEY, height INTEGER, timestamp INTEGER);"@
    } else if i == 16 {
        "ALTER TABLE transaction_details RENAME TO transaction_details_old;"@
    } else if i == 17 {
        "CREATE TABLE transaction_details (txid BLOB, timestamp INTEGER, received INTEGER, sent INTEGER, fee INTEGER, height INTEGER);"@
    } else if i == 18 {
        "INSERT INTO transaction_details SELECT txid, timestamp, received, sent, fee, height FROM transaction_details_old;"@
    } else if i == 19 {
        "DROP TABLE transaction_details_old;"@
    } else if i == 20 {
        "ALTER TABLE utxos ADD COLUMN is_spent;"@
    } else {
        Seq::empty()
    }
}

/// The structure of the schema statement that takes a store from version
/// `i` to `i + 1`, and whether its text ends with `;`.
pub open spec fn schema_statement(i: int) -> (SchemaStatement, bool) {
    if i == 0 {
        (SchemaStatement::CreateTable { name: "version"@, columns: seq![ColumnDef { name: "version"@, decl: "INTEGER"@ }] }, false)
    } else if i == 1 {
        (SchemaStatement::InsertValues { table: "version"@, values: seq![1nat] }, false)
    } else if i == 2 {
        (SchemaStatement::CreateTable { name: "script_pubkeys"@, columns: seq![ColumnDef { name: "keychain"@, decl: "TEXT"@ }, ColumnDef { name: "child"@, decl: "INTEGER"@ }, ColumnDef { name: "script"@, decl: "BLOB"@ }] }, true)
    } else if i == 3 {
        (SchemaStatement::CreateIndex { unique: false, name: "idx_keychain_child"@, table: "script_pubkeys"@, columns: seq!["keychain"@, "child"@] }, true)
    } else if i == 4 {
        (SchemaStatement::CreateIndex { unique: false, name: "idx_script"@, table: "script_pubkeys"@, columns: seq!["script"@] }, true)
    } else if i == 5 {
        (SchemaStatement::CreateTable { name: "utxos"@, columns: seq![ColumnDef { name: "value"@, decl: "INTEGER"@ }, ColumnDef { name: "keychain"@, decl: "TEXT"@ }, ColumnDef { name: "vout"@, decl: "INTEGER"@ }, ColumnDef { name: "txid"@, decl: "BLOB"@ }, ColumnDef { name: "script"@, decl: "BLOB"@ }] }, true)
    } else if i == 6 {
        (SchemaStatement::CreateIndex { unique: false, name: "idx_txid_vout"@, table: "utxos"@, columns: seq!["txid"@, "vout"@] }, true)
    } else if i == 7 {
        (SchemaStatement::CreateTable { name: "transactions"@, columns: seq![ColumnDef { name: "txid"@, decl: "BLOB"@ }, ColumnDef { name: "raw_tx"@, decl: "BLOB"@ }] }, true)
    } else if i == 8 {
        (SchemaStatement::CreateIndex { unique: false, name: "idx_txid"@, table: "transactions"@, columns: seq!["txid"@] }, true)
    } else if i == 9 {
        (SchemaStatement::CreateTable { name: "transaction_details"@, columns: seq![ColumnDef { name: "txid"@, decl: "BLOB"@ }, ColumnDef { name: "timestamp"@, decl: "INTEGER"@ }, ColumnDef { name: "received"@, decl: "INTEGER"@ }, ColumnDef { name: "sent"@, decl: "INTEGER"@ }, ColumnDef { name: "fee"@, decl: "INTEGER"@ }, ColumnDef { name: "height"@, decl: "INTEGER"@ }, ColumnDef { name: "verified"@, decl: "INTEGER DEFAULT 0"@ }] }, true)
    } else if i == 10 {
        (SchemaStatement::CreateIndex { unique: false, name: "idx_txdetails_txid"@, table: "transaction_details"@, columns: seq!["txid"@] }, true)
    } else if i == 11 {
        (SchemaStatement::CreateTable { name: "last_derivation_indices"@, columns: seq![ColumnDef { name: "keychain"@, decl: "TEXT"@ }, ColumnDef { name: "value"@, decl: "INTEGER"@ }] }, true)
    } else if i == 12 {
        (SchemaStatement::CreateIndex { unique: true, name: "idx_indices_keychain"@, table: "last_derivation_indices"@, columns: seq!["keychain"@] }, true)
    } else if i == 13 {
        (SchemaStatement::CreateTable { name: "checksums"@, columns: seq![ColumnDef { name: "keychain"@, decl: "TEXT"@ }, ColumnDef { name: "checksum"@, decl: "BLOB"@ }] }, true)
    } else if i == 14 {
        (SchemaStatement::CreateIndex { unique: false, name: "idx_checksums_keychain"@, table: "checksums"@, columns: seq!["keychain"@] }, true)
    } else if i == 15 {
        (SchemaStatement::CreateTable { name: "sync_time"@, columns: seq![ColumnDef { name: "id"@, decl: "INTEGER PRIMARY KEY"@ }, ColumnDef { name: "height"@, decl: "INTEGER"@ }, ColumnDef { name: "timestamp"@, decl: "INTEGER"@ }] }, true)
    } else if i == 16 {
        (SchemaStatement::RenameTable { from: "transaction_details"@, to: "transaction_details_old"@ }, true)
    } else if i == 17 {
        (SchemaStatement::CreateTable { name: "transaction_details"@, columns: seq![ColumnDef { name: "txid"@, decl: "BLOB"@ }, ColumnDef { name: "timestamp"@, decl: "INTEGER"@ }, ColumnDef { name: "received"@, decl: "INTEGER"@ }, ColumnDef { name: "sent"@, decl: "INTEGER"@ }, ColumnDef { name: "fee"@, decl: "INTEGER"@ }, ColumnDef { name: "height"@, decl: "INTEGER"@ }] }, true)
    } else if i == 18 {
        (SchemaStatement::InsertSelect { table: "transaction_details"@, columns: seq!["txid"@, "timestamp"@, "received"@, "sent"@, "fee"@, "height"@], from: "transaction_details_old"@ }, true)
    } else if i == 19 {
        (SchemaStatement::DropTable { name: "transaction_details_old"@ }, true)
    } else if i == 20 {
        (SchemaStatement::AddColumn { table: "utxos"@, column: "is_spent"@ }, true)
    } else {
        (SchemaStatement::DropTable { name: Seq::empty() }, false)
    }
}

/// The text of schema statement 0 is its structure, written out.
#[verifier::spinoff_prover]
proof fn lemma_schema_text_0()
    ensures
        migration_text(0) == render_schema(schema_statement(0).0, schema_statement(0).1),
{
    reveal_strlit(" ");
    reveal_strlit(" (");
    reveal_strlit("(");
    reveal_strlit(")");
    reveal_strlit("CREATE TABLE ");
    reveal_strlit("INTEGER");
    reveal_strlit("version");
    reveal_strlit("CREATE TABLE version (version INTEGER)");
    reveal_with_fuel(join_list, 8);
    assert(render_schema(schema_statement(0).0, schema_statement(0).1) =~= "CREATE TABLE version (version INTEGER)"@);
}

/// The text of schema statement 1 is its structure, written out.
#[verifier::spinoff_prover]
proof fn lemma_schema_text_1()
    ensures
        migration_text(1) == render_schema(schema_statement(1).0, schema_statement(1).1),
{
    reveal_strlit(" ");
    reveal_strlit(" (");
    reveal_strlit(" VALUES (");
    reveal_strlit("(");
    reveal_strlit(")");
    reveal_strlit("1");
    reveal_strlit("INSERT INTO ");
    reveal_strlit("version");
    reveal_strlit("INSERT INTO version VALUES (1)");
    reveal_with_fuel(join_list, 8);
    assert(render_schema(schema_statement(1).0, schema_statement(1).1) =~= "INSERT INTO version VALUES (1)"@);
}

/// The text of schema statement 2 is its structure, written out.
#[verifier::spinoff_prover]
proof fn lemma_schema_text_2()
    ensures
        migration_text(2) == render_schema(schema_statement(2).0, schema_statement(2).1),
{
    reveal_strlit(" ");
    reveal_strlit(" (");
    reveal_strlit("(");
    reveal_strlit(")");
    reveal_strlit(", ");
    reveal_strlit(";");
    reveal_strlit("BLOB");
    reveal_strlit("CREATE TABLE ");
    reveal_strlit("INTEGER");
    reveal_strlit("TEXT");
    reveal_strlit("child");
    reveal_strlit("keychain");
    reveal_strlit("script");
    reveal_strlit("script_pubkeys");
    reveal_strlit("CREATE TABLE script_pubkeys (keychain TEXT, child INTEGER, script BLOB);");
    reveal_with_fuel(join_list, 8);
    assert(render_schema(schema_statement(2).0, schema_statement(2).1) =~= "CREATE TABLE script_pubkeys (keychain TEXT, child INTEGER, script BLOB);"@);
}

/// The text of schema statement 3 is its structure, written out.
#[verifier::spinoff_prover]
proof fn lemma_schema_text_3()
    ensures
        migration_text(3) == render_schema(schema_statement(3).0, schema_statement(3).1),
{
    reveal_strlit(" ");
    reveal_strlit(" ON ");
    reveal_strlit("(");
    reveal_strlit(")");
    reveal_strlit(", ");
    reveal_strlit(";");
    reveal_strlit("CREATE INDEX ");
    reveal_strlit("child");
    reveal_strlit("idx_keychain_child");
    reveal_strlit("keychain");
    reveal_strlit("script_pubkeys");
    reveal_strlit("CREATE INDEX idx_keychain_child ON script_pubkeys(keychain, child);");
    reveal_with_fuel(join_list, 8);
    assert(render_schema(schema_statement(3).0, schema_statement(3).1) =~= "CREATE INDEX idx_keychain_child ON script_pubkeys(keychain, child);"@);
}

/// The text of schema statement 4 is its structure, written out.
#[verifier::spinoff_prover]
proof fn lemma_schema_text_4()
    ensures
        migration_text(4) == render_schema(schema_statement(4).0, schema_statement(4).1),
{
    reveal_strlit(" ");
    reveal_strlit(" ON ");
    reveal_strlit("(");
    reveal_strlit(")");
    reveal_strlit(";");
    reveal_strlit("CREATE INDEX ");
    reveal_strlit("idx_script");
    reveal_strlit("script");
    reveal_strlit("script_pubkeys");
    reveal_strlit("CREATE INDEX idx_script ON script_pubkeys(script);");
    reveal_with_fuel(join_list, 8);
    assert(render_schema(schema_statement(4).0, schema_statement(4).1) =~= "CREATE INDEX idx_script ON script_pubkeys(script);"@);
}

/// The text of schema statement 5 is its structure, written out.
#[verifier::spinoff_prover]
proof fn lemma_schema_text_5()
    ensures
        migration_text(5) == render_schema(schema_statement(5).0, schema_statement(5).1),
{
    reveal_strlit(" ");
    reveal_strlit(" (");
    reveal_strlit("(");
    reveal_strlit(")");
    reveal_strlit(", ");
    reveal_strlit(";");
    reveal_strlit("BLOB");
    reveal_strlit("CREATE TABLE ");
    reveal_strlit("INTEGER");
    reveal_strlit("TEXT");
    reveal_strlit("keychain");
    reveal_strlit("script");
    reveal_strlit("txid");
    reveal_strlit("utxos");
    reveal_strlit("value");
    reveal_strlit("vout");
    reveal_strlit("CREATE TABLE utxos (value INTEGER, keychain TEXT, vout INTEGER, txid BLOB, script BLOB);");
    reveal_with_fuel(join_list, 8);
    assert(render_schema(schema_statement(5).0, schema_statement(5).1) =~= "CREATE TABLE utxos (value INTEGER, keychain TEXT, vout INTEGER, txid BLOB, script BLOB);"@);
}

/// The text of schema statement 6 is its structure, written out.
#[verifier::spinoff_prover]
proof fn lemma_schema_text_6()
    ensures
        migration_text(6) == render_schema(schema_statement(6).0, schema_statement(6).1),
{
    reveal_strlit(" ");
    reveal_strlit(" ON ");
    reveal_strlit("(");
    reveal_strlit(")");
    reveal_strlit(", ");
    reveal_strlit(";");
    reveal_strlit("CREATE INDEX ");
    reveal_strlit("idx_txid_vout");
    reveal_strlit("txid");
    reveal_strlit("utxos");
    reveal_strlit("vout");
    reveal_strlit("CREATE INDEX idx_txid_vout ON utxos(txid, vout);");
    reveal_with_fuel(join_list, 8);
    assert(render_schema(schema_statement(6).0, schema_statement(6).1) =~= "CREATE INDEX idx_txid_vout ON utxos(txid, vout);"@);
}

/// The text of schema statement 7 is its structure, written out.
#[verifier::spinoff_prover]
proof fn lemma_schema_text_7()
    ensures
        migration_text(7) == render_schema(schema_statement(7).0, schema_statement(7).1),
{
    reveal_strlit(" ");
    reveal_strlit(" (");
    reveal_strlit("(");
    reveal_strlit(")");
    reveal_strlit(", ");
    reveal_strlit(";");
    reveal_strlit("BLOB");
    reveal_strlit("CREATE TABLE ");
    reveal_strlit("raw_tx");
    reveal_strlit("transactions");
    reveal_strlit("txid");
    reveal_strlit("CREATE TABLE transactions (txid BLOB, raw_tx BLOB);");
    reveal_with_fuel(join_list, 8);
    assert(render_schema(schema_statement(7).0, schema_statement(7).1) =~= "CREATE TABLE transactions (txid BLOB, raw_tx BLOB);"@);
}

/// The text of schema statement 8 is its structure, written out.
#[verifier::spinoff_prover]
proof fn lemma_schema_text_8()
    ensures
        migration_text(8) == render_schema(schema_statement(8).0, schema_statement(8).1),
{
    reveal_strlit(" ");
    reveal_strlit(" ON ");
    reveal_strlit("(");
    reveal_strlit(")");
    reveal_strlit(";");
    reveal_strlit("CREATE INDEX ");
    reveal_strlit("idx_txid");
    reveal_strlit("transactions");
    reveal_strlit("txid");
    reveal_strlit("CREATE INDEX idx_txid ON transactions(txid);");
    reveal_with_fuel(join_list, 8);
    assert(render_schema(schema_statement(8).0, schema_statement(8).1) =~= "CREATE INDEX idx_txid ON transactions(txid);"@);
}

/// The text of schema statement 9 is its structure, written out.
#[verifier::spinoff_prover]
proof fn lemma_schema_text_9()
    ensures
        migration_text(9) == render_schema(schema_statement(9).0, schema_statement(9).1),
{
    reveal_strlit(" ");
    reveal_strlit(" (");
    reveal_strlit("(");
    reveal_strlit(")");
    reveal_strlit(", ");
    reveal_strlit("0");
    reveal_strlit(";");
    reveal_strlit("BLOB");
    reveal_strlit("CREATE TABLE ");
    reveal_strlit("INTEGER");
    reveal_strlit("INTEGER DEFAULT 0");
    reveal_strlit("fee");
    reveal_strlit("height");
    reveal_strlit("received");
    reveal_strlit("sent");
    reveal_strlit("timestamp");
    reveal_strlit("transaction_details");
    reveal_strlit("txid");
    reveal_strlit("verified");
    reveal_strlit("CREATE TABLE transaction_details (txid BLOB, timestamp INTEGER, received INTEGER, sent INTEGER, fee INTEGER, height INTEGER, verified INTEGER DEFAULT 0);");
    reveal_with_fuel(join_list, 8);
    assert(render_schema(schema_statement(9).0, schema_statement(9).1) =~= "CREATE TABLE transaction_details (txid BLOB, timestamp INTEGER, received INTEGER, sent INTEGER, fee INTEGER, height INTEGER, verified INTEGER DEFAULT 0);"@);
}

/// The text of schema statement 10 is its structure, written out.
#[verifier::spinoff_prover]
proof fn lemma_schema_text_10()
    ensures
        migration_text(10) == render_schema(schema_statement(10).0, schema_statement(10).1),
{
    reveal_strlit(" ");
    reveal_strlit(" ON ");
    reveal_strlit("(");
    reveal_strlit(")");
    reveal_strlit(";");
    reveal_strlit("CREATE INDEX ");
    reveal_strlit("idx_txdetails_txid");
    reveal_strlit("transaction_details");
    reveal_strlit("txid");
    reveal_strlit("CREATE INDEX idx_txdetails_txid ON transaction_details(txid);");
    reveal_with_fuel(join_list, 8);
    assert(render_schema(schema_statement(10).0, schema_statement(10).1) =~= "CREATE INDEX idx_txdetails_txid ON transaction_details(txid);"@);
}

/// The text of schema statement 11 is its structure, written out.
#[verifier::spinoff_prover]
proof fn lemma_schema_text_11()
    ensures
        migration_text(11) == render_schema(schema_statement(11).0, schema_statement(11).1),
{
    reveal_strlit(" ");
    reveal_strlit(" (");
    reveal_strlit("(");
    reveal_strlit(")");
    reveal_strlit(", ");
    reveal_strlit(";");
    reveal_strlit("CREATE TABLE ");
    reveal_strlit("INTEGER");
    reveal_strlit("TEXT");
    reveal_strlit("keychain");
    reveal_strlit("last_derivation_indices");
    reveal_strlit("value");
    reveal_strlit("CREATE TABLE last_derivation_indices (keychain TEXT, value INTEGER);");
    reveal_with_fuel(join_list, 8);
    assert(render_schema(schema_statement(11).0, schema_statement(11).1) =~= "CREATE TABLE last_derivation_indices (keychain TEXT, value INTEGER);"@);
}

/// The text of schema statement 12 is its structure, written out.
#[verifier::spinoff_prover]
proof fn lemma_schema_text_12()
    ensures
        migration_text(12) == render_schema(schema_statement(12).0, schema_statement(12).1),
{
    reveal_strlit(" ");
    reveal_strlit(" ON ");
    reveal_strlit("(");
    reveal_strlit(")");
    reveal_strlit(";");
    reveal_strlit("CREATE UNIQUE INDEX ");
    reveal_strlit("idx_indices_keychain");
    reveal_strlit("keychain");
    reveal_strlit("last_derivation_indices");
    reveal_strlit("CREATE UNIQUE INDEX idx_indices_keychain ON last_derivation_indices(keychain);");
    reveal_with_fuel(join_list, 8);
    assert(render_schema(schema_statement(12).0, schema_statement(12).1) =~= "CREATE UNIQUE INDEX idx_indices_keychain ON last_derivation_indices(keychain);"@);
}

/// The text of schema statement 13 is its structure, written out.
#[verifier::spinoff_prover]
proof fn lemma_schema_text_13()
    ensures
        migration_text(13) == render_schema(schema_statement(13).0, schema_statement(13).1),
{
    reveal_strlit(" ");
    reveal_strlit(" (");
    reveal_strlit("(");
    reveal_strlit(")");
    reveal_strlit(", ");
    reveal_strlit(";");
    reveal_strlit("BLOB");
    reveal_strlit("CREATE TABLE ");
    reveal_strlit("TEXT");
    reveal_strlit("checksum");
    reveal_strlit("checksums");
    reveal_strlit("keychain");
    reveal_strlit("CREATE TABLE checksums (keychain TEXT, checksum BLOB);");
    reveal_with_fuel(join_list, 8);
    assert(render_schema(schema_statement(13).0, schema_statement(13).1) =~= "CREATE TABLE checksums (keychain TEXT, checksum BLOB);"@);
}

/// The text of schema statement 14 is its structure, written out.
#[verifier::spinoff_prover]
proof fn lemma_schema_text_14()
    ensures
        migration_text(14) == render_schema(schema_statement(14).0, schema_statement(14).1),
{
    reveal_strlit(" ");
    reveal_strlit(" ON ");
    reveal_strlit("(");
    reveal_strlit(")");
    reveal_strlit(";");
    reveal_strlit("CREATE INDEX ");
    reveal_strlit("checksums");
    reveal_strlit("idx_checksums_keychain");
    reveal_strlit("keychain");
    reveal_strlit("CREATE INDEX idx_checksums_keychain ON checksums(keychain);");
    reveal_with_fuel(join_list, 8);
    assert(render_schema(schema_statement(14).0, schema_statement(14).1) =~= "CREATE INDEX idx_checksums_keychain ON checksums(keychain);"@);
}

/// The text of schema statement 15 is its structure, written out.
#[verifier::spinoff_prover]
proof fn lemma_schema_text_15()
    ensures
        migration_text(15) == render_schema(schema_statement(15).0, schema_statement(15).1),
{
    reveal_strlit(" ");
    reveal_strlit(" (");
    reveal_strlit("(");
    reveal_strlit(")");
    reveal_strlit(", ");
    reveal_strlit(";");
    reveal_strlit("CREATE TABLE ");
    reveal_strlit("INTEGER");
    reveal_strlit("INTEGER PRIMARY KEY");
    reveal_strlit("height");
    reveal_strlit("id");
    reveal_strlit("sync_time");
    reveal_strlit("timestamp");
    reveal_strlit("CREATE TABLE sync_time (id INTEGER PRIMARY KEY, height INTEGER, timestamp INTEGER);");
    reveal_with_fuel(join_list, 8);
    assert(render_schema(schema_statement(15).0, schema_statement(15).1) =~= "CREATE TABLE sync_time (id INTEGER PRIMARY KEY, height INTEGER, timestamp INTEGER);"@);
}

/// The text of schema statement 16 is its structure, written out.
#[verifier::spinoff_prover]
proof fn lemma_schema_text_16()
    ensures
        migration_text(16) == render_schema(schema_statement(16).0, schema_statement(16).1),
{
    reveal_strlit(" ");
    reveal_strlit(" RENAME TO ");
    reveal_strlit(";");
    reveal_strlit("ALTER TABLE ");
    reveal_strlit("transaction_details");
    reveal_strlit("transaction_details_old");
    reveal_strlit("ALTER TABLE transaction_details RENAME TO transaction_details_old;");
    reveal_with_fuel(join_list, 8);
    assert(render_schema(schema_statement(16).0, schema_statement(16).1) =~= "ALTER TABLE transaction_details RENAME TO transaction_details_old;"@);
}

/// The text of schema statement 17 is its structure, written out.
#[verifier::spinoff_prover]
proof fn lemma_schema_text_17()
    ensures
        migration_text(17) == render_schema(schema_statement(17).0, schema_statement(17).1),
{
    reveal_strlit(" ");
    reveal_strlit(" (");
    reveal_strlit("(");
    reveal_strlit(")");
    reveal_strlit(", ");
    reveal_strlit(";");
    reveal_strlit("BLOB");
    reveal_strlit("CREATE TABLE ");
    reveal_strlit("INTEGER");
    reveal_strlit("fee");
    reveal_strlit("height");
    reveal_strlit("received");
    reveal_strlit("sent");
    reveal_strlit("timestamp");
    reveal_strlit("transaction_details");
    reveal_strlit("txid");
    reveal_strlit("CREATE TABLE transaction_details (txid BLOB, timestamp INTEGER, received INTEGER, sent INTEGER, fee INTEGER, height INTEGER);");
    reveal_with_fuel(join_list, 8);
    assert(render_schema(schema_statement(17).0, schema_statement(17).1) =~= "CREATE TABLE transaction_details (txid BLOB, timestamp INTEGER, received INTEGER, sent INTEGER, fee INTEGER, height INTEGER);"@);
}

/// The text of schema statement 18 is its structure, written out.
#[verifier::spinoff_prover]
proof fn lemma_schema_text_18()
    ensures
        migration_text(18) == render_schema(schema_statement(18).0, schema_statement(18).1),
{
    reveal_strlit(" ");
    reveal_strlit(" FROM ");
    reveal_strlit(" SELECT ");
    reveal_strlit(", ");
    reveal_strlit(";");
    reveal_strlit("INSERT INTO ");
    reveal_strlit("fee");
    reveal_strlit("height");
    reveal_strlit("received");
    reveal_strlit("sent");
    reveal_strlit("timestamp");
    reveal_strlit("transaction_details");
    reveal_strlit("transaction_details_old");
    reveal_strlit("txid");
    reveal_strlit("INSERT INTO transaction_details SELECT txid, timestamp, received, sent, fee, height FROM transaction_details_old;");
    reveal_with_fuel(join_list, 8);
    assert(render_schema(schema_statement(18).0, schema_statement(18).1) =~= "INSERT INTO transaction_details SELECT txid, timestamp, received, sent, fee, height FROM transaction_details_old;"@);
}

/// The text of schema statement 19 is its structure, written out.
#[verifier::spinoff_prover]
proof fn lemma_schema_text_19()
    ensures
        migration_text(19) == render_schema(schema_statement(19).0, schema_statement(19).1),
{
    reveal_strlit(" ");
    reveal_strlit(";");
    reveal_strlit("DROP TABLE ");
    reveal_strlit("transaction_details_old");
    reveal_strlit("DROP TABLE transaction_details_old;");
    reveal_with_fuel(join_list, 8);
    assert(render_schema(schema_statement(19).0, schema_statement(19).1) =~= "DROP TABLE transaction_details_old;"@);
}

/// The text of schema statement 20 is its structure, written out.
#[verifier::spinoff_prover]
proof fn lemma_schema_text_20()
    ensures
        migration_text(20) == render_schema(schema_statement(20).0, schema_statement(20).1),
{
    reveal_strlit(" ");
    reveal_strlit(" ADD COLUMN ");
    reveal_strlit(";");
    reveal_strlit("ALTER TABLE ");
    reveal_strlit("is_spent");
    reveal_strlit("utxos");
    reveal_strlit("ALTER TABLE utxos ADD COLUMN is_spent;");
    reveal_with_fuel(join_list, 8);
    assert(render_schema(schema_statement(20).0, schema_statement(20).1) =~= "ALTER TABLE utxos ADD COLUMN is_spent;"@);
}

/// The text of every schema statement is its structure, written out.
pub proof fn lemma_schema_text(i: int)
    requires
        0 <= i < 21,
    ensures
        migration_text(i) == render_schema(schema_statement(i).0, schema_statement(i).1),
{
    if i == 0 {
        lemma_schema_text_0();
    } else if i == 1 {
        lemma_schema_text_1();
    } else if i == 2 {
        lemma_schema_text_2();
    } else if i == 3 {
        lemma_schema_text_3();
    } else if i == 4 {
        lemma_schema_text_4();
    } else if i == 5 {
        lemma_schema_text_5();
    } else if i == 6 {
        lemma_schema_text_6();
    } else if i == 7 {
        lemma_schema_text_7();
    } else if i == 8 {
        lemma_schema_text_8();
    } else if i == 9 {
        lemma_schema_text_9();
    } else if i == 10 {
        lemma_schema_text_10();
    } else if i == 11 {
        lemma_schema_text_11();
    } else if i == 12 {
        lemma_schema_text_12();
    } else if i == 13 {
        lemma_schema_text_13();
    } else if i == 14 {
        lemma_schema_text_14();
    } else if i == 15 {
        lemma_schema_text_15();
    } else if i == 16 {
        lemma_schema_text_16();
    } else if i == 17 {
        lemma_schema_text_17();
    } else if i == 18 {
        lemma_schema_text_18();
    } else if i == 19 {
        lemma_schema_text_19();
    } else if i == 20 {
        lemma_schema_text_20();
    }
}

/// The schema statement that takes a store from version `i` to `i + 1`.
pub fn migration_sql(i: usize) -> (r: &'static str)
    requires
        i < MIGRATION_COUNT,
    ensures
        r@ == migration_text(i as int),
        r@ == render_schema(schema_statement(i as int).0, schema_statement(i as int).1),
{
    proof {
        lemma_schema_text(i as int);
    }
    match i {
        0 => "CREATE TABLE version (version INTEGER)",
        1 => "INSERT INTO version VALUES (1)",
        2 => "CREATE TABLE script_pubkeys (keychain TEXT, child INTEGER, script BLOB);",
        3 => "CREATE INDEX idx_keychain_child ON script_pubkeys(keychain, child);",
        4 => "CREATE INDEX idx_script ON script_pubkeys(script);",
        5 => "CREATE TABLE utxos (value INTEGER, keychain TEXT, vout INTEGER, txid BLOB, script BLOB);",
        6 => "CREATE INDEX idx_txid_vout ON utxos(txid, vout);",
        7 => "CREATE TABLE transactions (txid BLOB, raw_tx BLOB);",
        8 => "CREATE INDEX idx_txid ON transactions(txid);",
        9 => "CREATE TABLE transaction_details (txid BLOB, timestamp INTEGER, received INTEGER, sent INTEGER, fee INTEGER, height INTEGER, verified INTEGER DEFAULT 0);",
        10 => "CREATE INDEX idx_txdetails_txid ON transaction_details(txid);",
        11 => "CREATE TABLE last_derivation_indices (keychain TEXT, value INTEGER);",
        12 => "CREATE UNIQUE INDEX idx_indices_keychain ON last_derivation_indices(keychain);",
        13 => "CREATE TABLE checksums (keychain TEXT, checksum BLOB);",
        14 => "CREATE INDEX idx_checksums_keychain ON checksums(keychain);",
        15 => "CREATE TABLE sync_time (id INTEGER PRIMARY KEY, height INTEGER, timestamp INTEGER);",
        16 => "ALTER TABLE transaction_details RENAME TO transaction_details_old;",
        17 => "CREATE TABLE transaction_details (txid BLOB, timestamp INTEGER, received INTEGER, sent INTEGER, fee INTEGER, height INTEGER);",
        18 => "INSERT INTO transaction_details SELECT txid, timestamp, received, sent, fee, height FROM transaction_details_old;",
        19 => "DROP TABLE transaction_details_old;",
        20 => "ALTER TABLE utxos ADD COLUMN is_spent;",
        _ => "",
    }
}

/// The query of the recorded schema version.
/// The query of the recorded version: the `version` column of every row of
/// the table `version`.
pub open spec fn version_query() -> Query {
    Query::Select {
        columns: seq![col("version"@)],
        from: "version"@,
        join: None,
        conds: Seq::empty(),
        order: Seq::empty(),
    }
}

/// The statement that records the version: every row of the table
/// `version` takes the parameter `version`.
pub open spec fn version_update() -> Query {
    Query::Update { table: "version"@, sets: seq![set_param("version"@)], conds: Seq::empty() }
}

pub fn select_version_sql() -> (r: &'static str)
    ensures
        r@ == "SELECT version FROM version"@,
        r@ == render(version_query()),
{
    proof {
        reveal_strlit("SELECT version FROM version");
        reveal_strlit("SELECT ");
        reveal_strlit(" FROM ");
        reveal_strlit("version");
        reveal_with_fuel(join_list, 2);
        assert(render(version_query()) =~= "SELECT version FROM version"@);
    }
    "SELECT version FROM version"
}

/// The statement that records the schema version.
pub fn update_version_sql() -> (r: &'static str)
    ensures
        r@ == "UPDATE version SET version=:version"@,
        r@ == render(version_update()),
{
    proof {
        reveal_strlit("UPDATE version SET version=:version");
        reveal_strlit("UPDATE ");
        reveal_strlit(" SET ");
        reveal_strlit("=");
        reveal_strlit(":");
        reveal_strlit("version");
        reveal_with_fuel(join_list, 2);
        assert(render(version_update()) =~= "UPDATE version SET version=:version"@);
    }
    "UPDATE version SET version=:version"
}

/// The outcome of looking up the recorded schema version.
#[derive(Debug)]
pub enum VersionLookup {
    /// Preparing the query failed with `error`; `failure_message` is
    /// SQLite's message where `error` is an SQLite failure that carries one.
    PrepareFailed { error: rusqlite::Error, failure_message: Option<String> },
    /// The query ran and gave the version of its first row, or no row, or
    /// failed while running or reading the row.
    Queried(Result<Option<i32>, rusqlite::Error>),
}

/// The recorded schema version.  A store without a version table is at
/// version 0, as is one whose table holds no row; a failure to prepare the
/// query counts as version 0 too, unless it is an SQLite failure with a
/// message other than the one for the missing table.
pub fn get_schema_version(lookup: VersionLookup) -> (r: Result<i32, rusqlite::Error>)
    ensures
        match lookup {
            VersionLookup::PrepareFailed { error, failure_message } => match failure_message {
                Some(m) => if m@ == "no such table: version"@ {
                    r == Ok::<i32, rusqlite::Error>(0)
                } else {
                    r == Err::<i32, rusqlite::Error>(error)
                },
                None => r == Ok::<i32, rusqlite::Error>(0),
            },
            VersionLookup::Queried(q) => match q {
                Ok(Some(v)) => r == Ok::<i32, rusqlite::Error>(v),
                Ok(None) => r == Ok::<i32, rusqlite::Error>(0),
                Err(e) => r == Err::<i32, rusqlite::Error>(e),
            },
        },
{
    match lookup {
        VersionLookup::PrepareFailed { error, failure_message } => match failure_message {
            Some(m) => {
                let missing_table = "no such table: version".to_owned();
                if m == missing_table {
                    Ok(0)
                } else {
                    Err(error)
                }
            },
            None => Ok(0),
        },
        VersionLookup::Queried(q) => match q {
            Ok(Some(v)) => Ok(v),
            Ok(None) => Ok(0),
            Err(e) => Err(e),
        },
    }
}

/// Why a migration failed.
#[derive(Debug)]
pub enum MigrationError {
    /// SQLite failed: recording the new version, or opening the store.
    Sqlite(rusqlite::Error),
    /// The recorded version is below 0 or above `MIGRATION_COUNT`.
    UnsupportedVersion(i32),
}

/// The kind of a `MigrationError`.
pub enum MigrationErrorKind {
    Sqlite,
    UnsupportedVersion(i32),
}

impl View for MigrationError {
    type V = MigrationErrorKind;

    open spec fn view(&self) -> MigrationErrorKind {
        match self {
            MigrationError::Sqlite(_) => MigrationErrorKind::Sqlite,
            MigrationError::UnsupportedVersion(v) => MigrationErrorKind::UnsupportedVersion(*v),
        }
    }
}

/// Where a migration stands.
#[derive(Debug)]
pub enum Migration {
    /// The schema statement that takes the store from version `next` to
    /// the one after runs; the store is at version `next`.
    Running { next: usize },
    /// The new version is being recorded.
    RecordingVersion,
    /// The migration has ended.
    Finished,
}

/// What the caller does next for a migration.
#[derive(Debug)]
pub enum MigrationAction {
    /// Run this schema statement and say whether it succeeded.
    Run(&'static str),
    /// Record this version and hand back the outcome.
    RecordVersion(i32),
    /// The migration has ended.
    Finish(Result<(), MigrationError>),
}

/// The mathematical value of a `Migration`.
pub enum MigrationView {
    Running { next: nat },
    RecordingVersion,
    Finished,
}

/// The mathematical value of a `MigrationAction`.
pub enum MigrationActionView {
    Run(Seq<char>),
    RecordVersion(int),
    Finish(Result<(), MigrationErrorKind>),
}

impl View for Migration {
    type V = MigrationView;

    open spec fn view(&self) -> MigrationView {
        match self {
            Migration::Running { next } => MigrationView::Running { next: *next as nat },
            Migration::RecordingVersion => MigrationView::RecordingVersion,
            Migration::Finished => MigrationView::Finished,
        }
    }
}

impl View for MigrationAction {
    type V = MigrationActionView;

    open spec fn view(&self) -> MigrationActionView {
        match self {
            MigrationAction::Run(s) => MigrationActionView::Run(s@),
            MigrationAction::RecordVersion(v) => MigrationActionView::RecordVersion(*v as int),
            MigrationAction::Finish(r) => MigrationActionView::Finish(
                match r {
                    Ok(()) => Ok(()),
                    Err(e) => Err(e@),
                },
            ),
        }
    }
}

/// The first step of migrating a store found at `version`: nothing to do
/// at the latest version, the schema statement of `version` otherwise.
pub open spec fn migration_start_spec(version: int) -> (MigrationView, MigrationActionView) {
    if version < 0 || version > MIGRATION_COUNT {
        (MigrationView::Finished, MigrationActionView::Finish(Err(MigrationErrorKind::UnsupportedVersion(version as i32))))
    } else if version == MIGRATION_COUNT {
        (MigrationView::Finished, MigrationActionView::Finish(Ok(())))
    } else {
        (MigrationView::Running { next: version as nat }, MigrationActionView::Run(migration_text(version)))
    }
}

/// The step after a schema statement ran (`ok`) or failed: the next
/// statement, or, after the last one or at the first failure, the recording
/// of the version reached.  A migration that is not running (or is past the
/// last statement, which `start` never gives) has nothing left to do.
pub open spec fn migration_after_run_spec(m: MigrationView, ok: bool) -> (MigrationView, MigrationActionView) {
    match m {
        MigrationView::Running { next } => if next >= MIGRATION_COUNT {
            (MigrationView::Finished, MigrationActionView::Finish(Ok(())))
        } else if !ok {
            (MigrationView::RecordingVersion, MigrationActionView::RecordVersion(next as int))
        } else if next + 1 == MIGRATION_COUNT {
            (MigrationView::RecordingVersion, MigrationActionView::RecordVersion(next + 1 as int))
        } else {
            (MigrationView::Running { next: next + 1 }, MigrationActionView::Run(migration_text(next + 1 as int)))
        },
        _ => (MigrationView::Finished, MigrationActionView::Finish(Ok(()))),
    }
}

/// The step after the version was recorded (`ok`) or not.
pub open spec fn migration_after_record_spec(ok: bool) -> (MigrationView, MigrationActionView) {
    if ok {
        (MigrationView::Finished, MigrationActionView::Finish(Ok(())))
    } else {
        (MigrationView::Finished, MigrationActionView::Finish(Err(MigrationErrorKind::Sqlite)))
    }
}

impl Migration {
    /// Starts migrating a store found at `version`.
    pub fn start(version: i32) -> (s: (Migration, MigrationAction))
        ensures
            (s.0@, s.1@) == migration_start_spec(version as int),
    {
        if version < 0 || version as usize > MIGRATION_COUNT {
            (Migration::Finished, MigrationAction::Finish(Err(MigrationError::UnsupportedVersion(version))))
        } else if version as usize == MIGRATION_COUNT {
            (Migration::Finished, MigrationAction::Finish(Ok(())))
        } else {
            let next = version as usize;
            (Migration::Running { next }, MigrationAction::Run(migration_sql(next)))
        }
    }

    /// Hands a running migration the outcome of its schema statement.
    pub fn after_run(self, ok: bool) -> (s: (Migration, MigrationAction))
        ensures
            (s.0@, s.1@) == migration_after_run_spec(self@, ok),
    {
        match self {
            Migration::Running { next } => {
                if next >= MIGRATION_COUNT {
                    return (Migration::Finished, MigrationAction::Finish(Ok(())));
                }
                if !ok {
                    (Migration::RecordingVersion, MigrationAction::RecordVersion(next as i32))
                } else if next + 1 == MIGRATION_COUNT {
                    (Migration::RecordingVersion, MigrationAction::RecordVersion((next + 1) as i32))
                } else {
                    (Migration::Running { next: next + 1 }, MigrationAction::Run(migration_sql(next + 1)))
                }
            },
            _ => (Migration::Finished, MigrationAction::Finish(Ok(()))),
        }
    }

    /// Hands a migration the outcome of recording its version.
    pub fn after_record(self, outcome: Result<(), rusqlite::Error>) -> (s: (Migration, MigrationAction))
        ensures
            (s.0@, s.1@) == migration_after_record_spec(outcome is Ok),
            outcome matches Err(e) ==> s.1 == MigrationAction::Finish(Err(MigrationError::Sqlite(e))),
    {
        match outcome {
            Ok(()) => (Migration::Finished, MigrationAction::Finish(Ok(()))),
            Err(e) => (Migration::Finished, MigrationAction::Finish(Err(MigrationError::Sqlite(e)))),
        }
    }
}

} // verus!
