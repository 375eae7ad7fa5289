//! Categories: how they are written to the store and read back, renamed
//! and deleted.
//!
//! With categories nothing is passed over: the first category that cannot be
//! written fails the save, and nothing of the batch is kept; the first row
//! that cannot be read fails the load.

use crate::commands::file::{
    is_text_or_null, optional_text, read_optional_text, text_or_null, text_param,
};
use crate::models::{Category, Group};
use crate::sql::{
    bindable, connection_of, error_text, execute, execute_prepared, is_text_of, query_rows,
    store_message, SqlData, SqlValue,
};
use rusqlite::{Connection, Error, Transaction};
use vstd::prelude::*;

verus! {

/// Deletes every stored category.
pub const CLEAR_CATEGORIES: &'static str = "DELETE FROM categories";

/// Writes the row of one category; a stored row with the same identifier
/// is replaced.
pub const INSERT_CATEGORY: &'static str =
    "INSERT OR REPLACE INTO categories (id, parent_id, name, icon, sort_order) VALUES (?, ?, ?, ?, ?)";

/// Reads every stored category, by ascending sort order.
pub const SELECT_CATEGORIES: &'static str =
    "SELECT id, parent_id, name, icon, sort_order FROM categories ORDER BY sort_order ASC";

/// Gives one category another name.
pub const RENAME_CATEGORY: &'static str = "UPDATE categories SET name = ? WHERE id = ?";

/// Deletes one category.
pub const DELETE_CATEGORY: &'static str = "DELETE FROM categories WHERE id = ?";

/// Deletes the items of one category.
pub const DELETE_CATEGORY_FILES: &'static str = "DELETE FROM files WHERE category = ?";

/// Number of values in the row of a category.
pub const CATEGORY_ROW_WIDTH: usize = 5;

/// What a load reports for a row that the store read but that is no
/// category.
pub const MALFORMED_CATEGORY: &'static str = "a row of the categories table is not a category";

/// The row that is written for a category.
pub open spec fn category_row(group: Group) -> Seq<SqlData> {
    seq![
        SqlData::Text(group.id),
        text_or_null(group.parent_id),
        SqlData::Text(group.name),
        text_or_null(group.icon),
        SqlData::Integer(group.sort_order as i64),
    ]
}

/// Whether a row has the shape of a category's row: five values, each of
/// the storage class of its column, the last one within 32 bits.
pub open spec fn is_category_row(row: Seq<SqlData>) -> bool {
    &&& row.len() == CATEGORY_ROW_WIDTH
    &&& row[0] is Text
    &&& is_text_or_null(row[1])
    &&& row[2] is Text
    &&& is_text_or_null(row[3])
    &&& row[4] is Integer
    &&& i32::MIN <= row[4]->Integer_0 <= i32::MAX
}

/// The category that a row stands for; `None` for a row of another shape.
pub open spec fn row_category(row: Seq<SqlData>) -> Option<Group> {
    if is_category_row(row) {
        Some(
            Group {
                id: row[0]->Text_0,
                parent_id: optional_text(row[1]),
                name: row[2]->Text_0,
                icon: optional_text(row[3]),
                sort_order: row[4]->Integer_0 as i32,
            },
        )
    } else {
        None
    }
}

/// The category that one row of a query stands for; `None` for a row that
/// the store could not read or that has another shape.
pub open spec fn read_category(row: Result<Vec<SqlValue>, Error>) -> Option<Group> {
    match row {
        Ok(values) => row_category(values.deep_view()),
        Err(_) => None,
    }
}

/// Whether the first `n` rows of a query are all categories.
pub open spec fn all_categories(rows: Seq<Result<Vec<SqlValue>, Error>>, n: int) -> bool {
    forall|i: int| 0 <= i < n ==> (#[trigger] read_category(rows[i])) is Some
}

/// The categories that the rows of a query stand for, row by row.
pub open spec fn categories_in(rows: Seq<Result<Vec<SqlValue>, Error>>) -> Seq<Group> {
    Seq::new(rows.len(), |i: int| read_category(rows[i])->Some_0)
}

/// Whether `message` is what a load reports for the row `row`, which is no
/// category: the store's own message where it could not read the row, the
/// library's where the row has another shape.
pub open spec fn reports(row: Result<Vec<SqlValue>, Error>, message: String) -> bool {
    match row {
        Ok(_) => message@ == MALFORMED_CATEGORY@,
        Err(e) => is_text_of(e, message),
    }
}

/// Builds the row of a category.
pub fn category_params(category: &Category) -> (params: Vec<SqlValue>)
    ensures
        params.deep_view() == category_row(category@),
        bindable(params.deep_view()),
{
    let params = vec![
        SqlValue::Text(category.id.clone()),
        text_param(&category.parent_id),
        SqlValue::Text(category.name.clone()),
        text_param(&category.icon),
        SqlValue::Integer(category.sort_order as i64),
    ];
    assert(params.deep_view() =~= category_row(category@));
    params
}

/// Reads a category from a row; `None` for a row of another shape.
pub fn category_from_row(values: &Vec<SqlValue>) -> (r: Option<Category>)
    ensures
        match r {
            Some(category) => row_category(values.deep_view()) == Some(category@),
            None => row_category(values.deep_view()) is None,
        },
{
    if values.len() != CATEGORY_ROW_WIDTH {
        return None;
    }
    let ghost row = values.deep_view();
    assert(forall|i: int| 0 <= i < 5 ==> row[i] == #[trigger] values[i]@);
    let id = match &values[0] {
        SqlValue::Text(t) => t.clone(),
        _ => {
            return None;
        },
    };
    let parent_id = match read_optional_text(&values[1]) {
        Some(t) => t,
        None => {
            return None;
        },
    };
    let name = match &values[2] {
        SqlValue::Text(t) => t.clone(),
        _ => {
            return None;
        },
    };
    let icon = match read_optional_text(&values[3]) {
        Some(t) => t,
        None => {
            return None;
        },
    };
    let sort_order: i32 = match &values[4] {
        SqlValue::Integer(n) => {
            if *n < -2147483648 || *n > 2147483647 {
                return None;
            }
            *n as i32
        },
        _ => {
            return None;
        },
    };
    Some(Category { id, parent_id, name, icon, sort_order })
}

/// The categories that the rows of a query stand for, in the order of the
/// rows, if every row is a category. Else the load fails at the first row
/// that is none, with the message for that row (see [`reports`]).
pub fn categories_from_rows(rows: &Vec<Result<Vec<SqlValue>, Error>>) -> (r: Result<
    Vec<Category>,
    String,
>)
    ensures
        match r {
            Ok(categories) => all_categories(rows@, rows.len() as int) && categories.deep_view()
                == categories_in(rows@),
            Err(message) => exists|k: int|
                0 <= k < rows.len() && all_categories(rows@, k) && read_category(rows@[k]) is None
                    && reports(rows@[k], message),
        },
{
    let mut categories: Vec<Category> = Vec::new();
    let mut i: usize = 0;
    while i < rows.len()
        invariant
            i <= rows.len(),
            all_categories(rows@, i as int),
            categories.len() == i,
            forall|j: int|
                0 <= j < i ==> (#[trigger] categories[j])@ == read_category(rows@[j])->Some_0,
        decreases rows.len() - i,
    {
        match &rows[i] {
            Ok(values) => {
                match category_from_row(values) {
                    Some(category) => {
                        categories.push(category);
                    },
                    None => {
                        let message = String::from_str(MALFORMED_CATEGORY);
                        assert(reports(rows@[i as int], message));
                        return Err(message);
                    },
                }
            },
            Err(e) => {
                let message = error_text(e);
                assert(reports(rows@[i as int], message));
                return Err(message);
            },
        }
        i = i + 1;
    }
    assert(categories.deep_view() =~= categories_in(rows@));
    Ok(categories)
}

/// Writes the row of every category of the batch through one prepared
/// statement, and stops at the first one that the store refuses.
fn insert_categories(tx: &Transaction<'_>, categories: &Vec<Category>) -> (r: Result<(), String>)
    ensures
        r matches Err(message) ==> store_message(message@),
{
    let mut stmt = match connection_of(tx).prepare(INSERT_CATEGORY) {
        Ok(stmt) => stmt,
        Err(e) => {
            return Err(error_text(&e));
        },
    };
    let mut i: usize = 0;
    while i < categories.len()
        invariant
            i <= categories.len(),
        decreases categories.len() - i,
    {
        let params = category_params(&categories[i]);
        match execute_prepared(&mut stmt, &params) {
            Ok(_) => {},
            Err(e) => {
                return Err(error_text(&e));
            },
        }
        i = i + 1;
    }
    Ok(())
}

/// Replaces the stored categories by `categories`, in one transaction:
/// every row is deleted, then one row is written for each category (see
/// [`category_row`]). An empty list leaves the table empty. Of two
/// categories with the same identifier the later one stays.
///
/// The first failure, of the transaction or of a single row, ends the
/// save with the store's message for it, and the store is as it was before
/// the call. No other error comes.
pub fn save_categories_to_db(conn: &mut Connection, categories: Vec<Category>) -> (r: Result<
    (),
    String,
>)
    ensures
        r matches Err(message) ==> store_message(message@),
{
    let tx = match conn.transaction() {
        Ok(tx) => tx,
        Err(e) => {
            return Err(error_text(&e));
        },
    };
    let none: Vec<SqlValue> = Vec::new();
    match execute(connection_of(&tx), CLEAR_CATEGORIES, &none) {
        Ok(_) => {},
        Err(e) => {
            return Err(error_text(&e));
        },
    }
    match insert_categories(&tx, &categories) {
        Ok(()) => {},
        Err(e) => {
            return Err(e);
        },
    }
    match tx.commit() {
        Ok(()) => Ok(()),
        Err(e) => Err(error_text(&e)),
    }
}

/// Loads every stored category, by ascending sort order. A query that
/// cannot be prepared or run fails with the store's message; the first row
/// that is no category fails the load with the message for that row (see
/// [`categories_from_rows`]). No other error comes.
pub fn load_categories_from_db(conn: &Connection) -> (r: Result<Vec<Category>, String>)
    ensures
        r matches Err(message) ==> store_message(message@) || message@ == MALFORMED_CATEGORY@,
{
    let mut stmt = match conn.prepare(SELECT_CATEGORIES) {
        Ok(stmt) => stmt,
        Err(e) => {
            return Err(error_text(&e));
        },
    };
    match query_rows(&mut stmt, CATEGORY_ROW_WIDTH) {
        Ok(rows) => categories_from_rows(&rows),
        Err(e) => Err(error_text(&e)),
    }
}

/// The values bound to the statement that renames a category: the new
/// name, then the identifier.
pub fn rename_params(id: String, new_name: String) -> (params: Vec<SqlValue>)
    ensures
        params.deep_view() == seq![SqlData::Text(new_name@), SqlData::Text(id@)],
        bindable(params.deep_view()),
{
    let params = vec![SqlValue::Text(new_name), SqlValue::Text(id)];
    assert(params.deep_view() =~= seq![SqlData::Text(new_name@), SqlData::Text(id@)]);
    params
}

/// The value bound to the statements that delete a category and its
/// items: the identifier.
pub fn delete_params(id: &String) -> (params: Vec<SqlValue>)
    ensures
        params.deep_view() == seq![SqlData::Text(id@)],
        bindable(params.deep_view()),
{
    let params = vec![SqlValue::Text(id.clone())];
    assert(params.deep_view() =~= seq![SqlData::Text(id@)]);
    params
}

/// Gives the category `id` the name `new_name`. A category that does not
/// exist is no error: no row changes. A statement that fails gives the
/// store's message, and no other error comes.
pub fn rename_category_in_db(conn: &Connection, id: String, new_name: String) -> (r: Result<
    (),
    String,
>)
    ensures
        r matches Err(message) ==> store_message(message@),
{
    let params = rename_params(id, new_name);
    match execute(conn, RENAME_CATEGORY, &params) {
        Ok(_) => Ok(()),
        Err(e) => Err(error_text(&e)),
    }
}

/// Deletes the category `id` and, in the same transaction, every item
/// whose category is `id`; items of other categories are not touched. The
/// first failure ends it with the store's message, and the store is as it
/// was before the call. No other error comes.
pub fn delete_category_from_db(conn: &mut Connection, id: String) -> (r: Result<(), String>)
    ensures
        r matches Err(message) ==> store_message(message@),
{
    let tx = match conn.transaction() {
        Ok(tx) => tx,
        Err(e) => {
            return Err(error_text(&e));
        },
    };
    let params = delete_params(&id);
    match execute(connection_of(&tx), DELETE_CATEGORY, &params) {
        Ok(_) => {},
        Err(e) => {
            return Err(error_text(&e));
        },
    }
    match execute(connection_of(&tx), DELETE_CATEGORY_FILES, &params) {
        Ok(_) => {},
        Err(e) => {
            return Err(error_text(&e));
        },
    }
    match tx.commit() {
        Ok(()) => Ok(()),
        Err(e) => Err(error_text(&e)),
    }
}

/// Writing a category and reading its row back gives the category, every
/// field as it was.
pub proof fn lemma_category_round_trip(group: Group)
    ensures
        row_category(category_row(group)) == Some(group),
{
    let n = group.sort_order;
    assert((n as i64) as i32 == n) by (bit_vector);
    assert(i32::MIN <= (n as i64) <= i32::MAX) by (bit_vector);
    let row = category_row(group);
    assert(optional_text(row[1]) == group.parent_id);
    assert(optional_text(row[3]) == group.icon);
}

} // verus!
