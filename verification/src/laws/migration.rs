//! Laws of schema migrations.
use vstd::prelude::*;
use crate::sql_syntax::Value;
use crate::schema::{
    migration_after_run_spec, migration_start_spec, migration_text, schema_statement,
    MigrationActionView, MigrationView, MIGRATION_COUNT,
};
use crate::sql_syntax::{cell, copied_row, eval_schema, SqlTable};
use crate::laws::statements::lemma_names_differ;

verus! {

/// The step a migration from `version` reaches after its first `k`
/// statements all succeeded.
pub open spec fn after_successes(version: int, k: nat) -> (MigrationView, MigrationActionView)
    decreases k,
{
    if k == 0 {
        migration_start_spec(version)
    } else {
        migration_after_run_spec(after_successes(version, (k - 1) as nat).0, true)
    }
}

/// A store at the latest version needs no migration.
pub proof fn law_migration_at_latest()
    ensures
        migration_start_spec(MIGRATION_COUNT as int) == (
            MigrationView::Finished,
            MigrationActionView::Finish(Ok(())),
        ),
{
}

/// A migration from `version` runs the schema statements of `version` and
/// of each later version in turn, as long as they succeed; once the last one
/// has, it records the latest version.
pub proof fn law_migration_runs_in_order(version: int, k: nat)
    requires
        0 <= version < MIGRATION_COUNT,
        version + k <= MIGRATION_COUNT,
    ensures
        version + k < MIGRATION_COUNT ==> after_successes(version, k) == (
            MigrationView::Running { next: (version + k) as nat },
            MigrationActionView::Run(migration_text(version + k)),
        ),
        version + k == MIGRATION_COUNT ==> after_successes(version, k) == (
            MigrationView::RecordingVersion,
            MigrationActionView::RecordVersion(MIGRATION_COUNT as int),
        ),
    decreases k,
{
    if k > 0 {
        law_migration_runs_in_order(version, (k - 1) as nat);
    }
}

/// At the first schema statement that fails, a migration records the
/// version reached before it: the one it started from plus the statements
/// that succeeded.
pub proof fn law_migration_stops_at_failure(version: int, k: nat)
    requires
        0 <= version < MIGRATION_COUNT,
        version + k < MIGRATION_COUNT,
    ensures
        migration_after_run_spec(after_successes(version, k).0, false) == (
            MigrationView::RecordingVersion,
            MigrationActionView::RecordVersion(version + k),
        ),
{
    law_migration_runs_in_order(version, k);
}

/// The schema statements from `from` up to `to`, run in order against a
/// database of tables by name; `None` where one of them fails.
pub open spec fn run_schema(from: int, to: int, db: Map<Seq<char>, SqlTable>) -> Option<
    Map<Seq<char>, SqlTable>,
>
    decreases to - from,
{
    if to <= from {
        Some(db)
    } else {
        match run_schema(from, to - 1, db) {
            Some(d) => eval_schema(schema_statement(to - 1).0, d),
            None => None,
        }
    }
}

/// The columns that details keep from version 17 on.
pub open spec fn details_columns() -> Seq<Seq<char>> {
    seq!["txid"@, "timestamp"@, "received"@, "sent"@, "fee"@, "height"@]
}

/// The schema statements that rebuild the table of details (from version
/// 16 to version 20) keep every row of details, in order, with the value
/// of each of its columns, and drop only the column they leave out; no
/// other table changes.
pub proof fn law_migration_keeps_details(db: Map<Seq<char>, SqlTable>)
    requires
        db.contains_key("transaction_details"@),
        db["transaction_details"@].columns == details_columns().push("verified"@),
        !db.contains_key("transaction_details_old"@),
    ensures
        ({
            let old = db["transaction_details"@];
            run_schema(16, 20, db) matches Some(after) && {
                &&& after.contains_key("transaction_details"@)
                &&& !after.contains_key("transaction_details_old"@)
                &&& after["transaction_details"@].columns == details_columns()
                &&& after["transaction_details"@].rows.len() == old.rows.len()
                &&& forall|i: int, c: Seq<char>|
                    0 <= i < old.rows.len() && details_columns().contains(c) ==> #[trigger] cell(
                        after["transaction_details"@].rows[i],
                        c,
                    ) == cell(old.rows[i], c)
                &&& forall|k: Seq<char>|
                    k != "transaction_details"@ && k != "transaction_details_old"@ ==> (
                    #[trigger] after.contains_key(k) == db.contains_key(k) && (db.contains_key(k)
                        ==> after[k] == db[k]))
            }
        }),
{
    lemma_names_differ();
    reveal_with_fuel(run_schema, 5);
    reveal_with_fuel(copied_row, 7);
    let td = "transaction_details"@;
    let old_name = "transaction_details_old"@;
    assert(td != old_name) by {
        reveal_strlit("transaction_details");
        reveal_strlit("transaction_details_old");
    }
    let old = db[td];
    let cols = details_columns();
    let db1 = db.remove(td).insert(old_name, old);
    assert(run_schema(16, 17, db) == Some(db1));
    let db2 = db1.insert(td, SqlTable { columns: cols, rows: Seq::empty() });
    assert(schema_statement(17).0 matches crate::sql_syntax::SchemaStatement::CreateTable { name, columns }
        && columns.map_values(|c: crate::sql_syntax::ColumnDef| c.name) =~= cols);
    assert(run_schema(16, 18, db) == Some(db2));
    let copied = old.rows.map_values(|r: Map<Seq<char>, Value>| copied_row(cols, cols, r));
    let db3 = db2.insert(td, SqlTable { columns: cols, rows: Seq::<Map<Seq<char>, Value>>::empty() + copied });
    assert(run_schema(16, 19, db) == Some(db3));
    let db4 = db3.remove(old_name);
    assert(run_schema(16, 20, db) == Some(db4));
    assert(cols.drop_last() =~= seq!["txid"@, "timestamp"@, "received"@, "sent"@, "fee"@]);
    assert(seq!["txid"@, "timestamp"@, "received"@, "sent"@, "fee"@].drop_last() =~= seq![
        "txid"@,
        "timestamp"@,
        "received"@,
        "sent"@,
    ]);
    assert(seq!["txid"@, "timestamp"@, "received"@, "sent"@].drop_last() =~= seq!["txid"@, "timestamp"@, "received"@]);
    assert(seq!["txid"@, "timestamp"@, "received"@].drop_last() =~= seq!["txid"@, "timestamp"@]);
    assert(seq!["txid"@, "timestamp"@].drop_last() =~= seq!["txid"@]);
    assert(seq!["txid"@].drop_last() =~= Seq::<Seq<char>>::empty());
    assert forall|i: int, c: Seq<char>|
        0 <= i < old.rows.len() && cols.contains(c) implies #[trigger] cell(db4[td].rows[i], c) == cell(
        old.rows[i],
        c,
    ) by {
        assert(db4[td].rows[i] == copied_row(cols, cols, old.rows[i]));
        let j = choose|j: int| 0 <= j < cols.len() && cols[j] == c;
    }
}

/// Every schema statement other than those that rebuild the table of
/// details keeps the rows of every table there was, where it succeeds;
/// the one that records the first version changes only the table of the
/// version.
pub proof fn law_schema_statement_keeps_rows(i: int, db: Map<Seq<char>, SqlTable>)
    requires
        0 <= i < 21,
        !(16 <= i <= 19),
    ensures
        eval_schema(schema_statement(i).0, db) matches Some(after) ==> forall|k: Seq<char>|
            #[trigger] db.contains_key(k) && (i != 1 || k != "version"@) ==> after.contains_key(k)
                && after[k].rows == db[k].rows,
{
}

} // verus!
