//! The part of SQL that the store writes, as data: each statement's
//! structure, how it is written out as text, and what it means over rows of
//! column values.  A statement's text is tied to its structure by
//! `render`, and its structure to what the store's model says it does by
//! the laws in `laws::statements`.
use vstd::prelude::*;

verus! {

/// A value of a column or of a parameter.
pub enum Value {
    Null,
    Int(int),
    Text(Seq<char>),
    Blob(Seq<u8>),
}

/// A column, with the table it is taken from where the statement names it.
pub struct Column {
    pub table: Option<Seq<char>>,
    pub name: Seq<char>,
}

/// An operand of a comparison or an assignment.
pub enum Operand {
    Column(Column),
    /// A parameter, bound by name.
    Param(Seq<char>),
    /// A number written in the text: 0 or 1.
    Number(nat),
}

/// `left = right`; `spaced` says whether the text puts spaces round `=`.
pub struct Equality {
    pub left: Operand,
    pub right: Operand,
    pub spaced: bool,
}

/// `LEFT JOIN table ON on`.
pub struct Join {
    pub table: Seq<char>,
    pub on: Equality,
}

/// `ON CONFLICT(key) DO UPDATE SET sets WHERE conds`.
pub struct Upsert {
    pub key: Seq<char>,
    pub sets: Seq<(Seq<char>, Operand)>,
    pub conds: Seq<Equality>,
}

/// A statement of the part of SQL that the store writes.
pub enum Query {
    /// `SELECT columns FROM from [LEFT JOIN ..] [WHERE conds] [ORDER BY order]`.
    Select {
        columns: Seq<Column>,
        from: Seq<char>,
        join: Option<Join>,
        conds: Seq<Equality>,
        order: Seq<Column>,
    },
    /// `INSERT INTO table (columns) VALUES (values) [ON CONFLICT ..]`.
    Insert { table: Seq<char>, columns: Seq<Seq<char>>, values: Seq<Operand>, upsert: Option<Upsert> },
    /// `UPDATE table SET sets WHERE conds`.
    Update { table: Seq<char>, sets: Seq<(Seq<char>, Operand)>, conds: Seq<Equality> },
    /// `DELETE FROM table WHERE conds`.
    Delete { table: Seq<char>, conds: Seq<Equality> },
}

// ---------------------------------------------------------------------
// Text.

/// Items written one after the other, with `sep` between each two.
pub open spec fn join_list(items: Seq<Seq<char>>, sep: Seq<char>) -> Seq<char>
    decreases items.len(),
{
    if items.len() == 0 {
        Seq::empty()
    } else if items.len() == 1 {
        items[0]
    } else {
        join_list(items.drop_last(), sep) + sep + items.last()
    }
}

/// The text of a column.
pub open spec fn render_column(c: Column) -> Seq<char> {
    match c.table {
        Some(t) => t + "."@ + c.name,
        None => c.name,
    }
}

/// The text of a number.
pub open spec fn render_number(n: nat) -> Seq<char> {
    if n == 0 {
        "0"@
    } else {
        "1"@
    }
}

/// The text of an operand.
pub open spec fn render_operand(o: Operand) -> Seq<char> {
    match o {
        Operand::Column(c) => render_column(c),
        Operand::Param(p) => ":"@ + p,
        Operand::Number(n) => render_number(n),
    }
}

/// The text of an equality.
pub open spec fn render_equality(e: Equality) -> Seq<char> {
    render_operand(e.left) + (if e.spaced {
        " = "@
    } else {
        "="@
    }) + render_operand(e.right)
}

/// The text of the conditions of a `WHERE`, joined by `AND`.
pub open spec fn render_conds(conds: Seq<Equality>) -> Seq<char> {
    join_list(conds.map_values(|e: Equality| render_equality(e)), " AND "@)
}

/// The text of the assignments of a `SET`.
pub open spec fn render_sets(sets: Seq<(Seq<char>, Operand)>) -> Seq<char> {
    join_list(sets.map_values(|a: (Seq<char>, Operand)| a.0 + "="@ + render_operand(a.1)), ", "@)
}

/// ` WHERE conds`, or nothing where there is no condition.
pub open spec fn render_where(conds: Seq<Equality>) -> Seq<char> {
    if conds.len() == 0 {
        Seq::empty()
    } else {
        " WHERE "@ + render_conds(conds)
    }
}

/// The text of a statement.
pub open spec fn render(q: Query) -> Seq<char> {
    match q {
        Query::Select { columns, from, join, conds, order } => "SELECT "@ + join_list(
            columns.map_values(|c: Column| render_column(c)),
            ", "@,
        ) + " FROM "@ + from + match join {
            Some(j) => " LEFT JOIN "@ + j.table + " ON "@ + render_equality(j.on),
            None => Seq::empty(),
        } + render_where(conds) + if order.len() == 0 {
            Seq::empty()
        } else {
            " ORDER BY "@ + join_list(order.map_values(|c: Column| render_column(c)), ", "@)
        },
        Query::Insert { table, columns, values, upsert } => "INSERT INTO "@ + table + " ("@ + join_list(
            columns,
            ", "@,
        ) + ") VALUES ("@ + join_list(values.map_values(|o: Operand| render_operand(o)), ", "@) + ")"@
            + match upsert {
            Some(u) => " ON CONFLICT("@ + u.key + ") DO UPDATE SET "@ + render_sets(u.sets) + render_where(
                u.conds,
            ),
            None => Seq::empty(),
        },
        Query::Update { table, sets, conds } => "UPDATE "@ + table + " SET "@ + render_sets(sets)
            + render_where(conds),
        Query::Delete { table, conds } => "DELETE FROM "@ + table + render_where(conds),
    }
}

// ---------------------------------------------------------------------
// Parts that the store's statements are made of.

/// A column named without its table.
pub open spec fn col(name: Seq<char>) -> Column {
    Column { table: None, name }
}

/// A column named with its table.
pub open spec fn qcol(table: Seq<char>, name: Seq<char>) -> Column {
    Column { table: Some(table), name }
}

/// `name=:name`: the column equals the parameter of the same name.
pub open spec fn eq_param(name: Seq<char>) -> Equality {
    Equality { left: Operand::Column(col(name)), right: Operand::Param(name), spaced: false }
}

/// `name=:name` in a `SET`: the column takes the parameter of the same name.
pub open spec fn set_param(name: Seq<char>) -> (Seq<char>, Operand) {
    (name, Operand::Param(name))
}

// ---------------------------------------------------------------------
// Meaning.  A row is its values by column name; a table is its rows in
// the order they were written (by rowid); a database is its tables by
// name.  Parameters are bound by name.

/// The value of column `c` among the rows in view, a row of each table by
/// name; `from` is the table a column without a table comes from.  A column
/// of a table with no row in view (the missing side of a left join) is
/// `NULL`.
pub open spec fn column_value(
    view: Map<Seq<char>, Map<Seq<char>, Value>>,
    from: Seq<char>,
    c: Column,
) -> Value {
    let t = match c.table {
        Some(t) => t,
        None => from,
    };
    if view.contains_key(t) && view[t].contains_key(c.name) {
        view[t][c.name]
    } else {
        Value::Null
    }
}

/// The value of an operand.
pub open spec fn operand_value(
    view: Map<Seq<char>, Map<Seq<char>, Value>>,
    from: Seq<char>,
    params: Map<Seq<char>, Value>,
    o: Operand,
) -> Value {
    match o {
        Operand::Column(c) => column_value(view, from, c),
        Operand::Param(p) => if params.contains_key(p) {
            params[p]
        } else {
            Value::Null
        },
        Operand::Number(n) => Value::Int(n as int),
    }
}

/// SQL's `=`: both sides are known and equal.
pub open spec fn equality_holds(
    view: Map<Seq<char>, Map<Seq<char>, Value>>,
    from: Seq<char>,
    params: Map<Seq<char>, Value>,
    e: Equality,
) -> bool {
    let a = operand_value(view, from, params, e.left);
    let b = operand_value(view, from, params, e.right);
    &&& !(a is Null)
    &&& !(b is Null)
    &&& a == b
}

/// Every condition holds.
pub open spec fn conds_hold(
    view: Map<Seq<char>, Map<Seq<char>, Value>>,
    from: Seq<char>,
    params: Map<Seq<char>, Value>,
    conds: Seq<Equality>,
) -> bool
    decreases conds.len(),
{
    if conds.len() == 0 {
        true
    } else {
        conds_hold(view, from, params, conds.drop_last()) && equality_holds(view, from, params, conds.last())
    }
}

/// A row of table `table` alone in view.
pub open spec fn alone(table: Seq<char>, row: Map<Seq<char>, Value>) -> Map<Seq<char>, Map<Seq<char>, Value>> {
    map![table => row]
}

/// The values of `columns`, in order.
pub open spec fn project(
    view: Map<Seq<char>, Map<Seq<char>, Value>>,
    from: Seq<char>,
    columns: Seq<Column>,
) -> Seq<Value> {
    columns.map_values(|c: Column| column_value(view, from, c))
}

/// The rows of a query of one table, in the order of the table.
pub open spec fn select_rows(
    rows: Seq<Map<Seq<char>, Value>>,
    from: Seq<char>,
    columns: Seq<Column>,
    conds: Seq<Equality>,
    params: Map<Seq<char>, Value>,
) -> Seq<Seq<Value>> {
    rows.filter_map(
        |r: Map<Seq<char>, Value>| if conds_hold(alone(from, r), from, params, conds) {
            Some(project(alone(from, r), from, columns))
        } else {
            None
        },
    )
}

/// The rows that the left join of `left` with the table `j` gives: one
/// for each row of `j` that meets the join's condition, in order, or, where
/// there is none, one without a row of `j`; of those, the rows for which
/// `conds` hold.
pub open spec fn joined_rows(
    left: Map<Seq<char>, Value>,
    rights: Seq<Map<Seq<char>, Value>>,
    from: Seq<char>,
    j: Join,
    columns: Seq<Column>,
    conds: Seq<Equality>,
    params: Map<Seq<char>, Value>,
) -> Seq<Seq<Value>> {
    let both = |r: Map<Seq<char>, Value>| map![from => left, j.table => r];
    let matched = rights.filter_map(
        |r: Map<Seq<char>, Value>| if equality_holds(both(r), from, params, j.on) {
            Some(both(r))
        } else {
            None
        },
    );
    let views = if matched.len() == 0 {
        seq![alone(from, left)]
    } else {
        matched
    };
    views.filter_map(
        |v: Map<Seq<char>, Map<Seq<char>, Value>>| if conds_hold(v, from, params, conds) {
            Some(project(v, from, columns))
        } else {
            None
        },
    )
}

/// The rows of a left join query, in the order of the left table, then of
/// the joined one.
pub open spec fn join_select_rows(
    lefts: Seq<Map<Seq<char>, Value>>,
    rights: Seq<Map<Seq<char>, Value>>,
    from: Seq<char>,
    j: Join,
    columns: Seq<Column>,
    conds: Seq<Equality>,
    params: Map<Seq<char>, Value>,
) -> Seq<Seq<Value>>
    decreases lefts.len(),
{
    if lefts.len() == 0 {
        Seq::empty()
    } else {
        join_select_rows(lefts.drop_last(), rights, from, j, columns, conds, params) + joined_rows(
            lefts.last(),
            rights,
            from,
            j,
            columns,
            conds,
            params,
        )
    }
}

/// A row with the assignments of a `SET` made, each to the value of its
/// operand in the row as it was.
pub open spec fn assign(
    row: Map<Seq<char>, Value>,
    table: Seq<char>,
    params: Map<Seq<char>, Value>,
    sets: Seq<(Seq<char>, Operand)>,
) -> Map<Seq<char>, Value>
    decreases sets.len(),
{
    if sets.len() == 0 {
        row
    } else {
        assign(row, table, params, sets.drop_last()).insert(
            sets.last().0,
            operand_value(alone(table, row), table, params, sets.last().1),
        )
    }
}

/// The row that an insert writes: each column listed with the value of its
/// operand.
pub open spec fn inserted_row(
    columns: Seq<Seq<char>>,
    values: Seq<Operand>,
    params: Map<Seq<char>, Value>,
) -> Map<Seq<char>, Value>
    decreases columns.len(),
{
    if columns.len() == 0 || values.len() == 0 {
        Map::empty()
    } else {
        inserted_row(columns.drop_last(), values.drop_last(), params).insert(
            columns.last(),
            operand_value(Map::empty(), Seq::empty(), params, values.last()),
        )
    }
}

/// The rows of a table after inserting `row` with `ON CONFLICT(key) DO
/// UPDATE`: where a row has the same known value of `key`, the rows of that
/// value for which the conditions hold take the assignments; otherwise
/// `row` is added after the others.
pub open spec fn upserted_rows(
    rows: Seq<Map<Seq<char>, Value>>,
    row: Map<Seq<char>, Value>,
    table: Seq<char>,
    u: Upsert,
    params: Map<Seq<char>, Value>,
) -> Seq<Map<Seq<char>, Value>> {
    let k = if row.contains_key(u.key) {
        row[u.key]
    } else {
        Value::Null
    };
    let clash = |r: Map<Seq<char>, Value>| !(k is Null) && r.contains_key(u.key) && r[u.key] == k;
    if exists|i: int| 0 <= i < rows.len() && clash(#[trigger] rows[i]) {
        rows.map_values(
            |r: Map<Seq<char>, Value>| if clash(r) && conds_hold(alone(table, r), table, params, u.conds) {
                assign(r, table, params, u.sets)
            } else {
                r
            },
        )
    } else {
        rows.push(row)
    }
}

/// Whether a query's order is the order in which its rows were written:
/// `ORDER BY rowid`, for a join the rowid of the left table then of the
/// joined one; a query with no order is read as in that order too.
pub open spec fn ordered_as_written(from: Seq<char>, join: Option<Join>, order: Seq<Column>) -> bool {
    ||| order.len() == 0
    ||| (join is None && order == seq![col("rowid"@)])
    ||| (join matches Some(j) && order == seq![qcol(from, "rowid"@), qcol(j.table, "rowid"@)])
}

/// What a statement does to a database, and the rows it gives; `None` for
/// a statement outside what this meaning covers (a table the database
/// lacks, an order other than that in which the rows were written).
pub open spec fn eval(
    q: Query,
    db: Map<Seq<char>, Seq<Map<Seq<char>, Value>>>,
    params: Map<Seq<char>, Value>,
) -> Option<(Map<Seq<char>, Seq<Map<Seq<char>, Value>>>, Seq<Seq<Value>>)> {
    match q {
        Query::Select { columns, from, join, conds, order } => if !db.contains_key(from)
            || !ordered_as_written(from, join, order) {
            None
        } else {
            match join {
                None => Some((db, select_rows(db[from], from, columns, conds, params))),
                Some(j) => if db.contains_key(j.table) {
                    Some((db, join_select_rows(db[from], db[j.table], from, j, columns, conds, params)))
                } else {
                    None
                },
            }
        },
        Query::Insert { table, columns, values, upsert } => if !db.contains_key(table) {
            None
        } else {
            let row = inserted_row(columns, values, params);
            match upsert {
                None => Some((db.insert(table, db[table].push(row)), Seq::empty())),
                Some(u) => Some((db.insert(table, upserted_rows(db[table], row, table, u, params)), Seq::empty())),
            }
        },
        Query::Update { table, sets, conds } => if !db.contains_key(table) {
            None
        } else {
            Some(
                (
                    db.insert(
                        table,
                        db[table].map_values(
                            |r: Map<Seq<char>, Value>| if conds_hold(alone(table, r), table, params, conds) {
                                assign(r, table, params, sets)
                            } else {
                                r
                            },
                        ),
                    ),
                    Seq::empty(),
                ),
            )
        },
        Query::Delete { table, conds } => if !db.contains_key(table) {
            None
        } else {
            Some(
                (
                    db.insert(
                        table,
                        db[table].filter_map(
                            |r: Map<Seq<char>, Value>| if conds_hold(alone(table, r), table, params, conds) {
                                None
                            } else {
                                Some(r)
                            },
                        ),
                    ),
                    Seq::empty(),
                ),
            )
        },
    }
}

// ---------------------------------------------------------------------
// Schema statements.

/// A column of a `CREATE TABLE`: its name, then what declares its type.
pub struct ColumnDef {
    pub name: Seq<char>,
    pub decl: Seq<char>,
}

/// A statement that builds or changes the schema.
pub enum SchemaStatement {
    /// `CREATE TABLE name (columns)`.
    CreateTable { name: Seq<char>, columns: Seq<ColumnDef> },
    /// `CREATE [UNIQUE] INDEX name ON table(columns)`.
    CreateIndex { unique: bool, name: Seq<char>, table: Seq<char>, columns: Seq<Seq<char>> },
    /// `INSERT INTO table VALUES (values)`.
    InsertValues { table: Seq<char>, values: Seq<nat> },
    /// `ALTER TABLE from RENAME TO to`.
    RenameTable { from: Seq<char>, to: Seq<char> },
    /// `INSERT INTO table SELECT columns FROM from`.
    InsertSelect { table: Seq<char>, columns: Seq<Seq<char>>, from: Seq<char> },
    /// `DROP TABLE name`.
    DropTable { name: Seq<char> },
    /// `ALTER TABLE table ADD COLUMN column`.
    AddColumn { table: Seq<char>, column: Seq<char> },
}

/// The text of a schema statement, with a closing `;` where `terminated`.
pub open spec fn render_schema(st: SchemaStatement, terminated: bool) -> Seq<char> {
    (match st {
        SchemaStatement::CreateTable { name, columns } => "CREATE TABLE "@ + name + " ("@ + join_list(
            columns.map_values(|c: ColumnDef| c.name + " "@ + c.decl),
            ", "@,
        ) + ")"@,
        SchemaStatement::CreateIndex { unique, name, table, columns } => (if unique {
            "CREATE UNIQUE INDEX "@
        } else {
            "CREATE INDEX "@
        }) + name + " ON "@ + table + "("@ + join_list(columns, ", "@) + ")"@,
        SchemaStatement::InsertValues { table, values } => "INSERT INTO "@ + table + " VALUES ("@ + join_list(
            values.map_values(|n: nat| render_number(n)),
            ", "@,
        ) + ")"@,
        SchemaStatement::RenameTable { from, to } => "ALTER TABLE "@ + from + " RENAME TO "@ + to,
        SchemaStatement::InsertSelect { table, columns, from } => "INSERT INTO "@ + table + " SELECT "@
            + join_list(columns, ", "@) + " FROM "@ + from,
        SchemaStatement::DropTable { name } => "DROP TABLE "@ + name,
        SchemaStatement::AddColumn { table, column } => "ALTER TABLE "@ + table + " ADD COLUMN "@ + column,
    }) + if terminated {
        ";"@
    } else {
        Seq::empty()
    }
}

/// A table with its columns in order and its rows in the order written.
pub struct SqlTable {
    pub columns: Seq<Seq<char>>,
    pub rows: Seq<Map<Seq<char>, Value>>,
}

/// The value of a column of a row; `NULL` where the row holds none.
pub open spec fn cell(row: Map<Seq<char>, Value>, column: Seq<char>) -> Value {
    if row.contains_key(column) {
        row[column]
    } else {
        Value::Null
    }
}

/// The row that `INSERT INTO .. SELECT` writes for `row`: the `i`-th
/// column of the table takes the value of the `i`-th column selected.
pub open spec fn copied_row(
    targets: Seq<Seq<char>>,
    sources: Seq<Seq<char>>,
    row: Map<Seq<char>, Value>,
) -> Map<Seq<char>, Value>
    decreases targets.len(),
{
    if targets.len() == 0 || sources.len() == 0 {
        Map::empty()
    } else {
        copied_row(targets.drop_last(), sources.drop_last(), row).insert(
            targets.last(),
            cell(row, sources.last()),
        )
    }
}

/// The row of `INSERT INTO .. VALUES`: the `i`-th column takes the `i`-th
/// number.
pub open spec fn values_row(columns: Seq<Seq<char>>, values: Seq<nat>) -> Map<Seq<char>, Value>
    decreases columns.len(),
{
    if columns.len() == 0 || values.len() == 0 {
        Map::empty()
    } else {
        values_row(columns.drop_last(), values.drop_last()).insert(
            columns.last(),
            Value::Int(values.last() as int),
        )
    }
}

/// What a schema statement does to a database of tables by name; `None`
/// where it fails (a table that it needs is missing, one it makes is
/// there, or the columns do not match).
pub open spec fn eval_schema(st: SchemaStatement, db: Map<Seq<char>, SqlTable>) -> Option<
    Map<Seq<char>, SqlTable>,
> {
    match st {
        SchemaStatement::CreateTable { name, columns } => if db.contains_key(name) {
            None
        } else {
            Some(
                db.insert(
                    name,
                    SqlTable { columns: columns.map_values(|c: ColumnDef| c.name), rows: Seq::empty() },
                ),
            )
        },
        SchemaStatement::CreateIndex { table, .. } => if db.contains_key(table) {
            Some(db)
        } else {
            None
        },
        SchemaStatement::InsertValues { table, values } => if db.contains_key(table)
            && values.len() == db[table].columns.len() {
            Some(
                db.insert(
                    table,
                    SqlTable {
                        rows: db[table].rows.push(values_row(db[table].columns, values)),
                        ..db[table]
                    },
                ),
            )
        } else {
            None
        },
        SchemaStatement::RenameTable { from, to } => if db.contains_key(from) && !db.contains_key(to) {
            Some(db.remove(from).insert(to, db[from]))
        } else {
            None
        },
        SchemaStatement::InsertSelect { table, columns, from } => if db.contains_key(table)
            && db.contains_key(from) && columns.len() == db[table].columns.len() {
            Some(
                db.insert(
                    table,
                    SqlTable {
                        rows: db[table].rows + db[from].rows.map_values(
                            |r: Map<Seq<char>, Value>| copied_row(db[table].columns, columns, r),
                        ),
                        ..db[table]
                    },
                ),
            )
        } else {
            None
        },
        SchemaStatement::DropTable { name } => if db.contains_key(name) {
            Some(db.remove(name))
        } else {
            None
        },
        SchemaStatement::AddColumn { table, column } => if db.contains_key(table) {
            Some(db.insert(table, SqlTable { columns: db[table].columns.push(column), ..db[table] }))
        } else {
            None
        },
    }
}

} // verus!
