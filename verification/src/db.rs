//! The schema of the store and how an older store is brought up to it.
//!
//! A table is created with its current layout when it does not exist. A
//! table that exists is only ever extended: every column that the current
//! layout has gained since the first one is added when it is missing, and
//! nothing is dropped, renamed or retyped.

use crate::sql::{error_text, execute, open_connection, query_rows, store_message, SqlValue};
use crate::utils::join_path;
use rusqlite::{Connection, Error};
use vstd::prelude::*;

verus! {

/// File name of the store inside the application's data directory.
pub const STORE_FILE: &'static str = "oopslauncher.db";

/// Creates the table of items in its current layout.
pub const CREATE_FILES: &'static str =
    "CREATE TABLE IF NOT EXISTS files (
            id TEXT PRIMARY KEY,
            name TEXT NOT NULL,
            display_name TEXT NOT NULL DEFAULT '',
            path TEXT NOT NULL,
            size INTEGER,
            type TEXT,
            icon TEXT,
            content TEXT,
            category TEXT NOT NULL DEFAULT 'main',
            open_count INTEGER DEFAULT 0,
            created_at INTEGER
        )";

/// Creates the table of categories in its current layout.
pub const CREATE_CATEGORIES: &'static str =
    "CREATE TABLE IF NOT EXISTS categories (
            id TEXT PRIMARY KEY,
            parent_id TEXT,
            name TEXT NOT NULL,
            icon TEXT,
            sort_order INTEGER NOT NULL DEFAULT 0
        )";

/// Lists the columns of the table of items, one row a column.
pub const FILES_COLUMNS: &'static str = "PRAGMA table_info(files)";

/// Lists the columns of the table of categories, one row a column.
pub const CATEGORIES_COLUMNS: &'static str = "PRAGMA table_info(categories)";

/// One column that a table has gained, with the statement that adds it.
#[derive(Debug, Clone, Copy, PartialEq, Eq)]
pub struct ColumnAddition {
    /// The name of the column.
    pub column: &'static str,
    /// The statement that adds it, with a constant default where it needs
    /// one.
    pub statement: &'static str,
}

/// The value of a [`ColumnAddition`].
pub ghost struct Addition {
    pub column: Seq<char>,
    pub statement: Seq<char>,
}

impl View for ColumnAddition {
    type V = Addition;

    open spec fn view(&self) -> Addition {
        Addition { column: self.column@, statement: self.statement@ }
    }
}

impl DeepView for ColumnAddition {
    type V = Addition;

    open spec fn deep_view(&self) -> Addition {
        self@
    }
}

/// The columns that `files` has gained since its first layout, oldest first.
pub open spec fn files_additions() -> Seq<Addition> {
    seq![
        Addition {
            column: "category"@,
            statement: "ALTER TABLE files ADD COLUMN category TEXT NOT NULL DEFAULT 'main'"@,
        },
        Addition {
            column: "open_count"@,
            statement: "ALTER TABLE files ADD COLUMN open_count INTEGER DEFAULT 0"@,
        },
        Addition { column: "content"@, statement: "ALTER TABLE files ADD COLUMN content TEXT"@ },
        Addition {
            column: "display_name"@,
            statement: "ALTER TABLE files ADD COLUMN display_name TEXT NOT NULL DEFAULT ''"@,
        },
        Addition {
            column: "created_at"@,
            statement: "ALTER TABLE files ADD COLUMN created_at INTEGER"@,
        },
    ]
}

/// The columns that `categories` has gained since its first layout, oldest
/// first.
pub open spec fn categories_additions() -> Seq<Addition> {
    seq![
        Addition {
            column: "parent_id"@,
            statement: "ALTER TABLE categories ADD COLUMN parent_id TEXT"@,
        },
        Addition { column: "icon"@, statement: "ALTER TABLE categories ADD COLUMN icon TEXT"@ },
        Addition {
            column: "sort_order"@,
            statement: "ALTER TABLE categories ADD COLUMN sort_order INTEGER NOT NULL DEFAULT 0"@,
        },
    ]
}

/// The additions that a table with the columns `existing` still lacks, in
/// their own order.
pub open spec fn pending(additions: Seq<Addition>, existing: Seq<Seq<char>>) -> Seq<Addition> {
    additions.filter(|a: Addition| !existing.contains(a.column))
}

/// The names of the columns that a list of additions adds.
pub open spec fn columns_of(additions: Seq<Addition>) -> Seq<Seq<char>> {
    additions.map_values(|a: Addition| a.column)
}

/// The columns of a table after the pending additions have been made: what
/// it had, followed by what it lacked.
pub open spec fn migrated(additions: Seq<Addition>, existing: Seq<Seq<char>>) -> Seq<Seq<char>> {
    existing + columns_of(pending(additions, existing))
}

/// Whether a table with the columns `existing` has every added column.
pub open spec fn up_to_date(additions: Seq<Addition>, existing: Seq<Seq<char>>) -> bool {
    forall|i: int| 0 <= i < additions.len() ==> existing.contains(#[trigger] additions[i].column)
}

/// The columns that `files` has gained, as values to work with.
pub fn files_additions_list() -> (list: Vec<ColumnAddition>)
    ensures
        list.deep_view() == files_additions(),
{
    let list = vec![
        ColumnAddition {
            column: "category",
            statement: "ALTER TABLE files ADD COLUMN category TEXT NOT NULL DEFAULT 'main'",
        },
        ColumnAddition {
            column: "open_count",
            statement: "ALTER TABLE files ADD COLUMN open_count INTEGER DEFAULT 0",
        },
        ColumnAddition { column: "content", statement: "ALTER TABLE files ADD COLUMN content TEXT" },
        ColumnAddition {
            column: "display_name",
            statement: "ALTER TABLE files ADD COLUMN display_name TEXT NOT NULL DEFAULT ''",
        },
        ColumnAddition {
            column: "created_at",
            statement: "ALTER TABLE files ADD COLUMN created_at INTEGER",
        },
    ];
    assert(list.deep_view() =~= files_additions());
    list
}

/// The columns that `categories` has gained, as values to work with.
pub fn categories_additions_list() -> (list: Vec<ColumnAddition>)
    ensures
        list.deep_view() == categories_additions(),
{
    let list = vec![
        ColumnAddition {
            column: "parent_id",
            statement: "ALTER TABLE categories ADD COLUMN parent_id TEXT",
        },
        ColumnAddition { column: "icon", statement: "ALTER TABLE categories ADD COLUMN icon TEXT" },
        ColumnAddition {
            column: "sort_order",
            statement: "ALTER TABLE categories ADD COLUMN sort_order INTEGER NOT NULL DEFAULT 0",
        },
    ];
    assert(list.deep_view() =~= categories_additions());
    list
}

/// Whether `name` is one of `existing`.
pub fn has_column(existing: &Vec<String>, name: &str) -> (found: bool)
    ensures
        found == existing.deep_view().contains(name@),
{
    let wanted = String::from_str(name);
    let mut i: usize = 0;
    while i < existing.len()
        invariant
            i <= existing.len(),
            wanted@ == name@,
            forall|j: int| 0 <= j < i ==> existing.deep_view()[j] != name@,
        decreases existing.len() - i,
    {
        if existing[i] == wanted {
            assert(existing.deep_view()[i as int] == name@);
            return true;
        }
        i = i + 1;
    }
    false
}

/// Selects the additions that a table with the columns `existing` lacks.
pub fn plan_migration(additions: &Vec<ColumnAddition>, existing: &Vec<String>) -> (plan: Vec<
    ColumnAddition,
>)
    ensures
        plan.deep_view() == pending(additions.deep_view(), existing.deep_view()),
{
    let mut plan: Vec<ColumnAddition> = Vec::new();
    let ghost all = additions.deep_view();
    let ghost cols = existing.deep_view();
    let ghost lacks = |a: Addition| !cols.contains(a.column);
    let mut i: usize = 0;
    while i < additions.len()
        invariant
            i <= additions.len(),
            all == additions.deep_view(),
            cols == existing.deep_view(),
            lacks == (|a: Addition| !cols.contains(a.column)),
            plan.deep_view() == all.take(i as int).filter(lacks),
        decreases additions.len() - i,
    {
        let addition = additions[i];
        let found = has_column(existing, addition.column);
        proof {
            reveal(Seq::filter);
            let upto = all.take(i + 1);
            assert(upto.drop_last() =~= all.take(i as int));
            assert(upto.last() == addition@);
            assert(lacks(addition@) == !found);
        }
        if !found {
            let ghost before = plan.deep_view();
            plan.push(addition);
            assert(plan.deep_view() =~= before.push(addition@));
        }
        i = i + 1;
    }
    assert(all.take(i as int) =~= all);
    plan
}

/// The column name that one row of `PRAGMA table_info` carries: its second
/// value, when the row could be read and that value is a text.
pub open spec fn column_name(row: Result<Vec<SqlValue>, Error>) -> Option<Seq<char>> {
    match row {
        Ok(values) => if values.len() > 1 {
            match values[1] {
                SqlValue::Text(name) => Some(name@),
                _ => None,
            }
        } else {
            None
        },
        Err(_) => None,
    }
}

/// The column names among the rows of `PRAGMA table_info`, in order.
pub open spec fn names_in(rows: Seq<Result<Vec<SqlValue>, Error>>) -> Seq<Seq<char>> {
    rows.filter_map(|row: Result<Vec<SqlValue>, Error>| column_name(row))
}

/// The column names among the rows of `PRAGMA table_info`, in order. A row
/// that could not be read, or that carries no name, is passed over.
pub fn column_names(rows: &Vec<Result<Vec<SqlValue>, Error>>) -> (names: Vec<String>)
    ensures
        names.deep_view() == names_in(rows@),
{
    let mut names: Vec<String> = Vec::new();
    let ghost name_of = |row: Result<Vec<SqlValue>, Error>| column_name(row);
    let mut i: usize = 0;
    while i < rows.len()
        invariant
            i <= rows.len(),
            name_of == (|row: Result<Vec<SqlValue>, Error>| column_name(row)),
            names.deep_view() == rows@.take(i as int).filter_map(name_of),
        decreases rows.len() - i,
    {
        proof {
            let upto = rows@.take(i + 1);
            assert(upto.drop_last() =~= rows@.take(i as int));
            assert(upto.last() == rows@[i as int]);
        }
        let ghost before = names.deep_view();
        match &rows[i] {
            Ok(values) => {
                if values.len() > 1 {
                    match &values[1] {
                        SqlValue::Text(name) => {
                            names.push(name.clone());
                            assert(names.deep_view() =~= before + seq![name@]);
                        },
                        _ => {},
                    }
                }
            },
            Err(_) => {},
        }
        i = i + 1;
    }
    assert(rows@.take(i as int) =~= rows@);
    names
}

/// Reads the column names of one table through its `PRAGMA table_info`
/// statement.
fn table_columns(conn: &Connection, pragma: &str) -> (r: Result<Vec<String>, String>)
    ensures
        r matches Err(message) ==> store_message(message@),
{
    let mut stmt = match conn.prepare(pragma) {
        Ok(stmt) => stmt,
        Err(e) => {
            return Err(error_text(&e));
        },
    };
    match query_rows(&mut stmt, 2) {
        Ok(rows) => Ok(column_names(&rows)),
        Err(e) => Err(error_text(&e)),
    }
}

/// Runs one statement of the schema.
fn run_schema_statement(conn: &Connection, statement: &str) -> (r: Result<(), String>)
    ensures
        r matches Err(message) ==> store_message(message@),
{
    let none: Vec<SqlValue> = Vec::new();
    match execute(conn, statement, &none) {
        Ok(_) => Ok(()),
        Err(e) => Err(error_text(&e)),
    }
}

/// Adds to one table the columns that it lacks, oldest first, and stops at
/// the first statement that fails.
fn extend_table(conn: &Connection, pragma: &str, additions: &Vec<ColumnAddition>) -> (r: Result<
    (),
    String,
>)
    ensures
        r matches Err(message) ==> store_message(message@),
{
    let existing = match table_columns(conn, pragma) {
        Ok(existing) => existing,
        Err(e) => {
            return Err(e);
        },
    };
    let plan = plan_migration(additions, &existing);
    let mut i: usize = 0;
    while i < plan.len()
        invariant
            i <= plan.len(),
        decreases plan.len() - i,
    {
        match run_schema_statement(conn, plan[i].statement) {
            Ok(()) => {},
            Err(e) => {
                return Err(e);
            },
        }
        i = i + 1;
    }
    Ok(())
}

/// Brings the schema of an open store up to the current layout: creates the
/// two tables where they are missing, then adds to each the columns it lacks
/// (see [`plan_migration`]). Run on every open; on a store that is up to date
/// it changes nothing. The first statement that fails ends it, and the
/// error is the store's message for that statement: no other error comes.
pub fn init_database(conn: &Connection) -> (r: Result<(), String>)
    ensures
        r matches Err(message) ==> store_message(message@),
{
    match run_schema_statement(conn, CREATE_FILES) {
        Ok(()) => {},
        Err(e) => {
            return Err(e);
        },
    }
    match run_schema_statement(conn, CREATE_CATEGORIES) {
        Ok(()) => {},
        Err(e) => {
            return Err(e);
        },
    }
    match extend_table(conn, CATEGORIES_COLUMNS, &categories_additions_list()) {
        Ok(()) => {},
        Err(e) => {
            return Err(e);
        },
    }
    extend_table(conn, FILES_COLUMNS, &files_additions_list())
}

/// Opens the store file inside `data_dir`, creating it when it is missing,
/// and brings its schema up to date. Every call opens a connection of its
/// own; it closes when the handle is dropped. The directory has to exist.
/// Every error is the store's message, of the open or of the schema
/// statement that failed.
pub fn get_db_connection(data_dir: &str) -> (r: Result<Connection, String>)
    ensures
        r matches Err(message) ==> store_message(message@),
{
    let path = join_path(data_dir, STORE_FILE);
    let conn = match open_connection(path.as_str()) {
        Ok(conn) => conn,
        Err(e) => {
            return Err(error_text(&e));
        },
    };
    match init_database(&conn) {
        Ok(()) => Ok(conn),
        Err(e) => Err(e),
    }
}

/// Bringing a store up to date that already is: nothing is pending, so no
/// statement runs, no column is added a second time and none is lost.
pub proof fn lemma_up_to_date_is_left_alone(additions: Seq<Addition>, existing: Seq<Seq<char>>)
    requires
        up_to_date(additions, existing),
    ensures
        pending(additions, existing) == Seq::<Addition>::empty(),
        migrated(additions, existing) == existing,
{
    let lacks = |a: Addition| !existing.contains(a.column);
    let rest = additions.filter(lacks);
    if rest.len() > 0 {
        additions.lemma_filter_pred(lacks, 0);
        assert(rest.contains(rest[0]));
        additions.lemma_filter_contains_rev(lacks, rest[0]);
        let i = choose|i: int| 0 <= i < additions.len() && additions[i] == rest[0];
        assert(existing.contains(additions[i].column));
    }
    assert(rest =~= Seq::<Addition>::empty());
    assert(migrated(additions, existing) =~= existing);
}

/// Only what is missing is added: no pending addition names a column that
/// the table has.
pub proof fn lemma_pending_are_missing(additions: Seq<Addition>, existing: Seq<Seq<char>>)
    ensures
        forall|j: int|
            0 <= j < pending(additions, existing).len() ==> !existing.contains(
                #[trigger] pending(additions, existing)[j].column,
            ),
{
    let lacks = |a: Addition| !existing.contains(a.column);
    assert forall|j: int| 0 <= j < pending(additions, existing).len() implies !existing.contains(
        #[trigger] pending(additions, existing)[j].column,
    ) by {
        additions.lemma_filter_pred(lacks, j);
    }
}

/// The upgrade of an older store: after the pending additions the table has
/// every column that the layout has gained, and the columns it had are still
/// there, in their places.
pub proof fn lemma_migration_completes(additions: Seq<Addition>, existing: Seq<Seq<char>>)
    ensures
        up_to_date(additions, migrated(additions, existing)),
        migrated(additions, existing).take(existing.len() as int) == existing,
{
    let lacks = |a: Addition| !existing.contains(a.column);
    let rest = additions.filter(lacks);
    let after = migrated(additions, existing);
    assert forall|i: int| 0 <= i < additions.len() implies after.contains(
        #[trigger] additions[i].column,
    ) by {
        let column = additions[i].column;
        if existing.contains(column) {
            let k = choose|k: int| 0 <= k < existing.len() && existing[k] == column;
            assert(after[k] == column);
        } else {
            additions.lemma_filter_contains(lacks, i);
            let j = choose|j: int| 0 <= j < rest.len() && rest[j] == additions[i];
            assert(columns_of(rest)[j] == column);
            assert(after[existing.len() + j] == column);
        }
    }
    assert(after.take(existing.len() as int) =~= existing);
}

/// Bringing a store up to date twice is the same as doing it once.
pub proof fn lemma_migration_is_idempotent(additions: Seq<Addition>, existing: Seq<Seq<char>>)
    ensures
        pending(additions, migrated(additions, existing)) == Seq::<Addition>::empty(),
        migrated(additions, migrated(additions, existing)) == migrated(additions, existing),
{
    lemma_migration_completes(additions, existing);
    lemma_up_to_date_is_left_alone(additions, migrated(additions, existing));
}

/// A table that has none of the added columns gains all of them, in order.
pub proof fn lemma_none_present_adds_all(additions: Seq<Addition>, existing: Seq<Seq<char>>)
    requires
        forall|i: int| 0 <= i < additions.len() ==> !existing.contains(#[trigger] additions[i].column),
    ensures
        pending(additions, existing) == additions,
    decreases additions.len(),
{
    reveal(Seq::filter);
    if additions.len() > 0 {
        let front = additions.drop_last();
        assert forall|i: int| 0 <= i < front.len() implies !existing.contains(
            #[trigger] front[i].column,
        ) by {
            assert(front[i] == additions[i]);
        }
        lemma_none_present_adds_all(front, existing);
        assert(!existing.contains(additions[additions.len() - 1].column));
        assert(front.push(additions.last()) =~= additions);
    }
}

/// The columns of `files` in its first layout.
pub open spec fn first_files_layout() -> Seq<Seq<char>> {
    seq!["id"@, "name"@, "path"@, "size"@, "type"@, "icon"@]
}

/// A store whose `files` table still has its first layout gains every later
/// column, in the order in which the layout gained them.
pub proof fn lemma_first_layout_gains_every_addition()
    ensures
        pending(files_additions(), first_files_layout()) == files_additions(),
        migrated(files_additions(), first_files_layout()) == first_files_layout() + seq![
            "category"@,
            "open_count"@,
            "content"@,
            "display_name"@,
            "created_at"@,
        ],
{
    reveal_strlit("id");
    reveal_strlit("name");
    reveal_strlit("path");
    reveal_strlit("size");
    reveal_strlit("type");
    reveal_strlit("icon");
    reveal_strlit("category");
    reveal_strlit("open_count");
    reveal_strlit("content");
    reveal_strlit("display_name");
    reveal_strlit("created_at");
    let first = first_files_layout();
    let additions = files_additions();
    assert forall|i: int| 0 <= i < additions.len() implies !first.contains(
        #[trigger] additions[i].column,
    ) by {
        assert(additions[i].column.len() >= 7);
        assert forall|k: int| 0 <= k < first.len() implies first[k] != additions[i].column by {
            assert(first[k].len() <= 4);
        }
    }
    lemma_none_present_adds_all(additions, first);
    assert(columns_of(additions) =~= seq![
        "category"@,
        "open_count"@,
        "content"@,
        "display_name"@,
        "created_at"@,
    ]);
}

} // verus!
