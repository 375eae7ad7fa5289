//! Items: how they are written to the store and read back.
//!
//! Saving replaces the whole collection in one transaction. A single item
//! that cannot be written (its path cannot be made absolute, or the store
//! refuses the row) is passed over and the rest of the batch goes on; only
//! a failure of the transaction itself fails the save, and then nothing of
//! it is kept. Loading passes over a row that cannot be read in the same
//! way. Nothing is passed over in silence: a save and a load both say what
//! they left out and why, for the host to log.

use crate::models::{FileInfo, Item};
use crate::sql::{
    bindable, connection_of, error_text, execute, execute_prepared, query_rows, store_message,
    SqlData, SqlValue,
};
use crate::utils::{texts_of, to_abs_path, PathProbe};
use rusqlite::{Connection, Error, Transaction};
use vstd::prelude::*;

verus! {

/// The category of an item that names none.
pub const DEFAULT_CATEGORY: &'static str = "main";

/// Deletes every stored item.
pub const CLEAR_FILES: &'static str = "DELETE FROM files";

/// Writes the row of one item; a stored row with the same identifier is
/// replaced.
pub const INSERT_FILE: &'static str =
    "INSERT OR REPLACE INTO files (id, name, display_name, path, size, type, icon, content, category, open_count, created_at) VALUES (?, ?, ?, ?, ?, ?, ?, ?, ?, ?, ?)";

/// Reads every stored item, most used first.
pub const SELECT_FILES: &'static str =
    "SELECT id, name, display_name, path, size, type, icon, content, category, open_count, created_at FROM files ORDER BY open_count DESC";

/// Number of values in the row of an item.
pub const FILE_ROW_WIDTH: usize = 11;

/// An item to save, with what the host found out about its path.
#[derive(Debug)]
pub struct FileToSave {
    /// The item as the caller gave it.
    pub file: FileInfo,
    /// What the host found out about `file.path`.
    pub probe: PathProbe,
}

/// Why an item of a batch was passed over.
#[derive(Debug, Clone, Copy, PartialEq, Eq)]
pub enum SkipCause {
    /// Its path could not be made absolute.
    PathUnresolved,
    /// The store refused its row.
    RowRefused,
}

/// An item of a batch that was passed over.
#[derive(Debug, Clone, PartialEq, Eq)]
pub struct SkippedFile {
    /// The name of the item.
    pub name: String,
    /// At which step it was passed over.
    pub cause: SkipCause,
    /// The message of the step that failed.
    pub reason: String,
}

/// The value of a [`SkippedFile`].
pub ghost struct Skip {
    pub name: Seq<char>,
    pub cause: SkipCause,
    pub reason: Seq<char>,
}

impl View for SkippedFile {
    type V = Skip;

    open spec fn view(&self) -> Skip {
        Skip { name: self.name@, cause: self.cause, reason: self.reason@ }
    }
}

impl DeepView for SkippedFile {
    type V = Skip;

    open spec fn deep_view(&self) -> Skip {
        self@
    }
}

/// The items that a load returns, and what it says of the rows it passed
/// over.
#[derive(Debug, Clone, PartialEq, Eq)]
pub struct LoadedFiles {
    /// The items, most used first.
    pub files: Vec<FileInfo>,
    /// One message for every row that is no item, in the order of the rows.
    pub unreadable: Vec<String>,
}

/// What a load says of a row that the store read but that is no item.
pub const MALFORMED_FILE: &'static str = "a row of the files table is not an item";

/// The value that stands for an optional text in a row.
pub open spec fn text_or_null(text: Option<Seq<char>>) -> SqlData {
    match text {
        Some(t) => SqlData::Text(t),
        None => SqlData::Null,
    }
}

/// The value that stands for an optional integer in a row.
pub open spec fn integer_or_null(n: Option<i64>) -> SqlData {
    match n {
        Some(v) => SqlData::Integer(v),
        None => SqlData::Null,
    }
}

/// The category under which an item is stored.
pub open spec fn category_or_default(category: Option<Seq<char>>) -> Seq<char> {
    match category {
        Some(c) => c,
        None => DEFAULT_CATEGORY@,
    }
}

/// The usage counter with which an item is stored.
pub open spec fn count_or_zero(open_count: Option<u64>) -> u64 {
    match open_count {
        Some(n) => n,
        None => 0,
    }
}

/// The item as it is at rest once saved under the absolute path `path`:
/// category and usage counter are always set.
pub open spec fn stored(item: Item, path: Seq<char>) -> Item {
    Item {
        path,
        category: Some(category_or_default(item.category)),
        open_count: Some(count_or_zero(item.open_count)),
        ..item
    }
}

/// The row that is written for an item saved under the absolute path
/// `path`. The two unsigned numbers are stored as the signed 64-bit
/// integers with the same bits.
pub open spec fn file_row(item: Item, path: Seq<char>) -> Seq<SqlData> {
    seq![
        SqlData::Text(item.id),
        SqlData::Text(item.name),
        SqlData::Text(item.display_name),
        SqlData::Text(path),
        SqlData::Integer(item.size as i64),
        SqlData::Text(item.file_type),
        SqlData::Text(item.icon),
        text_or_null(item.content),
        SqlData::Text(category_or_default(item.category)),
        SqlData::Integer(count_or_zero(item.open_count) as i64),
        integer_or_null(item.created_at),
    ]
}

/// Whether a value can be read as an optional text.
pub open spec fn is_text_or_null(v: SqlData) -> bool {
    v is Text || v is Null
}

/// Whether a value can be read as an optional integer.
pub open spec fn is_integer_or_null(v: SqlData) -> bool {
    v is Integer || v is Null
}

/// The optional text that a value stands for.
pub open spec fn optional_text(v: SqlData) -> Option<Seq<char>> {
    match v {
        SqlData::Text(t) => Some(t),
        _ => None,
    }
}

/// The optional integer that a value stands for.
pub open spec fn optional_integer(v: SqlData) -> Option<i64> {
    match v {
        SqlData::Integer(n) => Some(n),
        _ => None,
    }
}

/// Whether a row has the shape of an item's row: eleven values, each of the
/// storage class of its column.
pub open spec fn is_file_row(row: Seq<SqlData>) -> bool {
    &&& row.len() == FILE_ROW_WIDTH
    &&& row[0] is Text
    &&& row[1] is Text
    &&& row[2] is Text
    &&& row[3] is Text
    &&& row[4] is Integer
    &&& row[5] is Text
    &&& row[6] is Text
    &&& is_text_or_null(row[7])
    &&& row[8] is Text
    &&& row[9] is Integer
    &&& is_integer_or_null(row[10])
}

/// The item that a row stands for; `None` for a row of another shape.
pub open spec fn row_file(row: Seq<SqlData>) -> Option<Item> {
    if is_file_row(row) {
        Some(
            Item {
                id: row[0]->Text_0,
                name: row[1]->Text_0,
                display_name: row[2]->Text_0,
                path: row[3]->Text_0,
                size: row[4]->Integer_0 as u64,
                file_type: row[5]->Text_0,
                icon: row[6]->Text_0,
                content: optional_text(row[7]),
                category: Some(row[8]->Text_0),
                open_count: Some(row[9]->Integer_0 as u64),
                created_at: optional_integer(row[10]),
            },
        )
    } else {
        None
    }
}

/// The item that one row of a query stands for; `None` for a row that the
/// store could not read or that has another shape.
pub open spec fn read_file(row: Result<Vec<SqlValue>, Error>) -> Option<Item> {
    match row {
        Ok(values) => row_file(values.deep_view()),
        Err(_) => None,
    }
}

/// The items among the rows of a query, in the order of the rows.
pub open spec fn files_in(rows: Seq<Result<Vec<SqlValue>, Error>>) -> Seq<Item> {
    rows.filter_map(|row: Result<Vec<SqlValue>, Error>| read_file(row))
}

/// Whether `message` is what a load says of the row `row`, which is no
/// item: the store's own message where it could not read the row, the
/// library's where the row has another shape.
pub open spec fn explains_row(row: Result<Vec<SqlValue>, Error>, message: String) -> bool {
    match row {
        Ok(_) => message@ == MALFORMED_FILE@,
        Err(e) => crate::sql::is_text_of(e, message),
    }
}

/// Whether `messages` holds one message for every row of `rows` that is no
/// item, in the order of the rows, and nothing else.
pub open spec fn explain_rows(messages: Seq<String>, rows: Seq<Result<Vec<SqlValue>, Error>>) -> bool
    decreases rows.len(),
{
    if rows.len() == 0 {
        messages.len() == 0
    } else if read_file(rows.last()) is Some {
        explain_rows(messages, rows.drop_last())
    } else {
        messages.len() > 0 && explains_row(rows.last(), messages.last()) && explain_rows(
            messages.drop_last(),
            rows.drop_last(),
        )
    }
}

/// What became of one item of a batch: the absolute path that was found for
/// it, or why none was; and, where its row was handed to the store, the
/// store's count or its message.
pub ghost struct ItemOutcome {
    pub path: Result<Seq<char>, Seq<char>>,
    pub written: Option<Result<usize, Seq<char>>>,
}

/// The characters of what the store said of a row.
pub open spec fn answer_of(written: Option<Result<usize, String>>) -> Option<
    Result<usize, Seq<char>>,
> {
    match written {
        Some(Ok(n)) => Some(Ok(n)),
        Some(Err(message)) => Some(Err(message@)),
        None => None,
    }
}

/// What a save says of an item, from what became of it: an item without an
/// absolute path is passed over for its path, one whose row the store
/// refused for its row, each with the reason; nothing is said of any other.
pub open spec fn skip_of(entry: FileToSave, outcome: ItemOutcome) -> Option<Skip> {
    match (outcome.path, outcome.written) {
        (Err(reason), _) => Some(
            Skip { name: entry.file.name@, cause: SkipCause::PathUnresolved, reason },
        ),
        (Ok(_), Some(Err(message))) => Some(
            Skip { name: entry.file.name@, cause: SkipCause::RowRefused, reason: message },
        ),
        _ => None,
    }
}

/// What a save says of a batch, from what became of its items: what it
/// says of each, in the order of the batch.
pub open spec fn skips_of(batch: Seq<FileToSave>, outcomes: Seq<ItemOutcome>) -> Seq<Skip>
    decreases batch.len(),
{
    if batch.len() == 0 {
        Seq::empty()
    } else {
        let before = skips_of(batch.drop_last(), outcomes.drop_last());
        match skip_of(batch.last(), outcomes.last()) {
            Some(skip) => before.push(skip),
            None => before,
        }
    }
}

/// Whether `outcome` can be what became of `entry` in a save: a path is
/// missing only for want of a working directory, with the host's reason;
/// the row of an item is handed to the store exactly where its path was
/// found; a refusal is the store's message.
pub open spec fn can_become(entry: FileToSave, outcome: ItemOutcome) -> bool {
    match outcome.path {
        Err(reason) => {
            &&& outcome.written is None
            &&& entry.probe.cwd matches Err(given) && given@ == reason
        },
        Ok(_) => {
            &&& outcome.written is Some
            &&& outcome.written matches Some(Err(message)) ==> store_message(message)
        },
    }
}

/// Whether `outcomes` can be what became of the items of `batch`, one by
/// one.
pub open spec fn can_happen(batch: Seq<FileToSave>, outcomes: Seq<ItemOutcome>) -> bool {
    &&& outcomes.len() == batch.len()
    &&& forall|i: int| 0 <= i < batch.len() ==> can_become(batch[i], #[trigger] outcomes[i])
}

/// The value that is written for an optional text.
pub(crate) fn text_param(text: &Option<String>) -> (v: SqlValue)
    ensures
        v@ == text_or_null(crate::models::text_of(*text)),
{
    match text {
        Some(t) => SqlValue::Text(t.clone()),
        None => SqlValue::Null,
    }
}

/// Builds the row of an item that is saved under the absolute path `path`.
pub fn file_params(file: &FileInfo, path: String) -> (params: Vec<SqlValue>)
    ensures
        params.deep_view() == file_row(file@, path@),
        bindable(params.deep_view()),
{
    let category = match &file.category {
        Some(c) => c.clone(),
        None => String::from_str(DEFAULT_CATEGORY),
    };
    let open_count: u64 = match file.open_count {
        Some(n) => n,
        None => 0,
    };
    let created_at = match file.created_at {
        Some(t) => SqlValue::Integer(t),
        None => SqlValue::Null,
    };
    let params = vec![
        SqlValue::Text(file.id.clone()),
        SqlValue::Text(file.name.clone()),
        SqlValue::Text(file.display_name.clone()),
        SqlValue::Text(path),
        SqlValue::Integer(#[verifier::truncate] (file.size as i64)),
        SqlValue::Text(file.file_type.clone()),
        SqlValue::Text(file.icon.clone()),
        text_param(&file.content),
        SqlValue::Text(category),
        SqlValue::Integer(#[verifier::truncate] (open_count as i64)),
        created_at,
    ];
    assert(params.deep_view() =~= file_row(file@, path@));
    params
}

fn read_text(v: &SqlValue) -> (r: Option<String>)
    ensures
        match r {
            Some(t) => v@ == SqlData::Text(t@),
            None => !(v@ is Text),
        },
{
    match v {
        SqlValue::Text(t) => Some(t.clone()),
        _ => None,
    }
}

fn read_integer(v: &SqlValue) -> (r: Option<i64>)
    ensures
        match r {
            Some(n) => v@ == SqlData::Integer(n),
            None => !(v@ is Integer),
        },
{
    match v {
        SqlValue::Integer(n) => Some(*n),
        _ => None,
    }
}

/// Reads an optional text: `Some(None)` for a null, `None` for a value
/// that is neither a text nor a null.
pub(crate) fn read_optional_text(v: &SqlValue) -> (r: Option<Option<String>>)
    ensures
        match r {
            Some(t) => is_text_or_null(v@) && crate::models::text_of(t) == optional_text(v@),
            None => !is_text_or_null(v@),
        },
{
    match v {
        SqlValue::Text(t) => Some(Some(t.clone())),
        SqlValue::Null => Some(None),
        _ => None,
    }
}

fn read_optional_integer(v: &SqlValue) -> (r: Option<Option<i64>>)
    ensures
        match r {
            Some(n) => is_integer_or_null(v@) && n == optional_integer(v@),
            None => !is_integer_or_null(v@),
        },
{
    match v {
        SqlValue::Integer(n) => Some(Some(*n)),
        SqlValue::Null => Some(None),
        _ => None,
    }
}

/// Reads an item from a row; `None` for a row of another shape. The two
/// unsigned numbers are the stored integers' bits.
pub fn file_from_row(values: &Vec<SqlValue>) -> (r: Option<FileInfo>)
    ensures
        match r {
            Some(file) => row_file(values.deep_view()) == Some(file@),
            None => row_file(values.deep_view()) is None,
        },
{
    if values.len() != FILE_ROW_WIDTH {
        return None;
    }
    let ghost row = values.deep_view();
    assert(forall|i: int| 0 <= i < 11 ==> row[i] == #[trigger] values[i]@);
    let id = match read_text(&values[0]) {
        Some(t) => t,
        None => {
            return None;
        },
    };
    let name = match read_text(&values[1]) {
        Some(t) => t,
        None => {
            return None;
        },
    };
    let display_name = match read_text(&values[2]) {
        Some(t) => t,
        None => {
            return None;
        },
    };
    let path = match read_text(&values[3]) {
        Some(t) => t,
        None => {
            return None;
        },
    };
    let size = match read_integer(&values[4]) {
        Some(n) => n,
        None => {
            return None;
        },
    };
    let file_type = match read_text(&values[5]) {
        Some(t) => t,
        None => {
            return None;
        },
    };
    let icon = match read_text(&values[6]) {
        Some(t) => t,
        None => {
            return None;
        },
    };
    let content = match read_optional_text(&values[7]) {
        Some(t) => t,
        None => {
            return None;
        },
    };
    let category = match read_text(&values[8]) {
        Some(t) => t,
        None => {
            return None;
        },
    };
    let open_count = match read_integer(&values[9]) {
        Some(n) => n,
        None => {
            return None;
        },
    };
    let created_at = match read_optional_integer(&values[10]) {
        Some(n) => n,
        None => {
            return None;
        },
    };
    Some(
        FileInfo {
            id,
            name,
            display_name,
            path,
            size: #[verifier::truncate] (size as u64),
            file_type,
            icon,
            content,
            category: Some(category),
            open_count: Some(#[verifier::truncate] (open_count as u64)),
            created_at,
        },
    )
}

/// The items among the rows of a query, in the order of the rows. A row
/// that the store could not read, or that has another shape, is passed over.
pub fn files_from_rows(rows: &Vec<Result<Vec<SqlValue>, Error>>) -> (files: Vec<FileInfo>)
    ensures
        files.deep_view() == files_in(rows@),
{
    let mut files: Vec<FileInfo> = Vec::new();
    let ghost read = |row: Result<Vec<SqlValue>, Error>| read_file(row);
    let mut i: usize = 0;
    while i < rows.len()
        invariant
            i <= rows.len(),
            read == (|row: Result<Vec<SqlValue>, Error>| read_file(row)),
            files.deep_view() == rows@.take(i as int).filter_map(read),
        decreases rows.len() - i,
    {
        proof {
            let upto = rows@.take(i + 1);
            assert(upto.drop_last() =~= rows@.take(i as int));
            assert(upto.last() == rows@[i as int]);
        }
        let ghost before = files.deep_view();
        match &rows[i] {
            Ok(values) => {
                match file_from_row(values) {
                    Some(file) => {
                        files.push(file);
                        assert(files.deep_view() =~= before + seq![file@]);
                    },
                    None => {},
                }
            },
            Err(_) => {},
        }
        i = i + 1;
    }
    assert(rows@.take(i as int) =~= rows@);
    files
}

/// What a load says of the rows that are no items: one message a row, in
/// the order of the rows.
pub fn unreadable_rows(rows: &Vec<Result<Vec<SqlValue>, Error>>) -> (messages: Vec<String>)
    ensures
        explain_rows(messages@, rows@),
{
    let mut messages: Vec<String> = Vec::new();
    let mut i: usize = 0;
    while i < rows.len()
        invariant
            i <= rows.len(),
            explain_rows(messages@, rows@.take(i as int)),
        decreases rows.len() - i,
    {
        proof {
            let upto = rows@.take(i + 1);
            assert(upto.drop_last() =~= rows@.take(i as int));
            assert(upto.last() == rows@[i as int]);
        }
        let ghost before = messages@;
        match &rows[i] {
            Ok(values) => {
                match file_from_row(values) {
                    Some(_) => {},
                    None => {
                        messages.push(String::from_str(MALFORMED_FILE));
                        assert(messages@.drop_last() =~= before);
                    },
                }
            },
            Err(e) => {
                messages.push(error_text(e));
                assert(messages@.drop_last() =~= before);
            },
        }
        i = i + 1;
    }
    assert(rows@.take(i as int) =~= rows@);
    messages
}

/// What a save says of one item: `path` is what making its path absolute
/// came to, and `written` what the store said of its row, where the row was
/// handed to it (see [`skip_of`]).
pub fn skip_for(
    entry: &FileToSave,
    path: &Result<String, String>,
    written: &Option<Result<usize, String>>,
) -> (skip: Option<SkippedFile>)
    ensures
        skip.deep_view() == skip_of(
            *entry,
            ItemOutcome { path: texts_of(*path), written: answer_of(*written) },
        ),
{
    match path {
        Err(reason) => Some(
            SkippedFile {
                name: entry.file.name.clone(),
                cause: SkipCause::PathUnresolved,
                reason: reason.clone(),
            },
        ),
        Ok(_) => match written {
            Some(Err(message)) => Some(
                SkippedFile {
                    name: entry.file.name.clone(),
                    cause: SkipCause::RowRefused,
                    reason: message.clone(),
                },
            ),
            _ => None,
        },
    }
}

/// Writes the row of every item of the batch through one prepared
/// statement. An item whose path cannot be made absolute, or whose row the
/// store refuses, is passed over and the batch goes on; only a statement
/// that cannot be prepared fails.
fn insert_files(tx: &Transaction<'_>, files: &Vec<FileToSave>) -> (r: Result<
    Vec<SkippedFile>,
    String,
>)
    ensures
        r matches Ok(skipped) ==> exists|outcomes: Seq<ItemOutcome>|
            can_happen(files@, outcomes) && skipped.deep_view() == #[trigger] skips_of(
                files@,
                outcomes,
            ),
        r matches Err(message) ==> store_message(message@),
{
    let mut stmt = match connection_of(tx).prepare(INSERT_FILE) {
        Ok(stmt) => stmt,
        Err(e) => {
            return Err(error_text(&e));
        },
    };
    let mut skipped: Vec<SkippedFile> = Vec::new();
    let ghost mut outcomes: Seq<ItemOutcome> = Seq::empty();
    let mut i: usize = 0;
    while i < files.len()
        invariant
            i <= files.len(),
            can_happen(files@.take(i as int), outcomes),
            skipped.deep_view() == skips_of(files@.take(i as int), outcomes),
        decreases files.len() - i,
    {
        let entry = &files[i];
        let path = to_abs_path(entry.file.path.as_str(), &entry.probe);
        let written = match &path {
            Ok(found) => {
                let params = file_params(&entry.file, found.clone());
                match execute_prepared(&mut stmt, &params) {
                    Ok(count) => Some(Ok(count)),
                    Err(e) => Some(Err(error_text(&e))),
                }
            },
            Err(_) => None,
        };
        let ghost outcome = ItemOutcome { path: texts_of(path), written: answer_of(written) };
        let ghost before = skipped.deep_view();
        let ghost earlier = outcomes;
        match skip_for(entry, &path, &written) {
            Some(skip) => {
                skipped.push(skip);
                assert(skipped.deep_view() =~= before.push(skip@));
            },
            None => {},
        }
        proof {
            outcomes = outcomes.push(outcome);
            let upto = files@.take(i + 1);
            assert(upto.drop_last() =~= files@.take(i as int));
            assert(upto.last() == files@[i as int]);
            assert(outcomes.drop_last() =~= earlier);
            assert(can_become(*entry, outcome));
            assert forall|j: int| 0 <= j < upto.len() implies can_become(
                upto[j],
                #[trigger] outcomes[j],
            ) by {
                if j < i {
                    assert(outcomes[j] == earlier[j]);
                    assert(upto[j] == files@.take(i as int)[j]);
                }
            }
        }
        i = i + 1;
    }
    assert(files@.take(i as int) =~= files@);
    Ok(skipped)
}

/// Replaces the stored items by `files`, in one transaction: every row is
/// deleted, then one row is written for each item, with its path made
/// absolute (see [`to_abs_path`]) and its defaults filled in (see
/// [`file_row`]). An empty list leaves the table empty. Of two items
/// with the same identifier the later one stays.
///
/// An item that cannot be written is passed over, and the save returns
/// what it says of the batch (see [`skips_of`]): one entry for every item
/// it passed over and for no other, in the order of the batch, each with
/// the reason: the host's where the path had no working directory, the
/// store's message where the row was refused. Where the transaction cannot
/// be begun, the table cannot be emptied, the statement cannot be prepared
/// or the commit fails, the store's message is returned, and no other error
/// comes; the store is then as it was before the call.
pub fn save_files_to_db(conn: &mut Connection, files: Vec<FileToSave>) -> (r: Result<
    Vec<SkippedFile>,
    String,
>)
    ensures
        r matches Ok(skipped) ==> exists|outcomes: Seq<ItemOutcome>|
            can_happen(files@, outcomes) && skipped.deep_view() == #[trigger] skips_of(
                files@,
                outcomes,
            ),
        r matches Err(message) ==> store_message(message@),
{
    let tx = match conn.transaction() {
        Ok(tx) => tx,
        Err(e) => {
            return Err(error_text(&e));
        },
    };
    let none: Vec<SqlValue> = Vec::new();
    match execute(connection_of(&tx), CLEAR_FILES, &none) {
        Ok(_) => {},
        Err(e) => {
            return Err(error_text(&e));
        },
    }
    let skipped = match insert_files(&tx, &files) {
        Ok(skipped) => skipped,
        Err(e) => {
            return Err(e);
        },
    };
    match tx.commit() {
        Ok(()) => Ok(skipped),
        Err(e) => Err(error_text(&e)),
    }
}

/// Whether an item is as items are at rest: category and usage counter set.
pub open spec fn at_rest(item: Item) -> bool {
    item.category is Some && item.open_count is Some
}

/// Every item read from rows is as items are at rest.
pub proof fn lemma_read_files_are_at_rest(rows: Seq<Result<Vec<SqlValue>, Error>>)
    ensures
        forall|i: int| 0 <= i < files_in(rows).len() ==> at_rest(#[trigger] files_in(rows)[i]),
{
    let read = |row: Result<Vec<SqlValue>, Error>| read_file(row);
    let items = files_in(rows);
    assert forall|i: int| 0 <= i < items.len() implies at_rest(#[trigger] items[i]) by {
        assert(items.contains(items[i]));
        rows.lemma_filter_map_contains(read, items[i]);
    }
}

/// Loads every stored item, most used first; items with the same usage
/// counter come in the order the store gives them. A row that cannot be read
/// as an item is passed over (see [`files_from_rows`]) and a message is
/// returned for it (see [`unreadable_rows`]); a query that cannot be
/// prepared or run fails with the store's message, and no other error
/// comes. Every item returned has its category and its usage counter set.
pub fn load_files_from_db(conn: &Connection) -> (r: Result<LoadedFiles, String>)
    ensures
        r matches Ok(loaded) ==> exists|rows: Seq<Result<Vec<SqlValue>, Error>>|
            loaded.files.deep_view() == files_in(rows) && explain_rows(loaded.unreadable@, rows),
        r matches Ok(loaded) ==> forall|i: int|
            0 <= i < loaded.files.len() ==> at_rest(#[trigger] loaded.files.deep_view()[i]),
        r matches Err(message) ==> store_message(message@),
{
    let mut stmt = match conn.prepare(SELECT_FILES) {
        Ok(stmt) => stmt,
        Err(e) => {
            return Err(error_text(&e));
        },
    };
    match query_rows(&mut stmt, FILE_ROW_WIDTH) {
        Ok(rows) => {
            let files = files_from_rows(&rows);
            let unreadable = unreadable_rows(&rows);
            proof {
                lemma_read_files_are_at_rest(rows@);
                assert(files.deep_view() == files_in(rows@) && explain_rows(unreadable@, rows@));
            }
            Ok(LoadedFiles { files, unreadable })
        },
        Err(e) => Err(error_text(&e)),
    }
}

/// Writing an item and reading its row back gives the item as it is at
/// rest: every field as it was given, the path as it was made absolute, the
/// category and the usage counter with their defaults filled in.
pub proof fn lemma_row_round_trip(item: Item, path: Seq<char>)
    ensures
        row_file(file_row(item, path)) == Some(stored(item, path)),
{
    let size = item.size;
    let count = count_or_zero(item.open_count);
    assert((size as i64) as u64 == size) by (bit_vector);
    assert((count as i64) as u64 == count) by (bit_vector);
}

/// An item saved without a category is at rest in the default category; one
/// saved with a category keeps it.
pub proof fn lemma_default_category(item: Item, path: Seq<char>)
    ensures
        item.category is None ==> stored(item, path).category == Some(DEFAULT_CATEGORY@),
        item.category is Some ==> stored(item, path).category == item.category,
        file_row(item, path)[8] == SqlData::Text(stored(item, path).category->Some_0),
{
}

/// What is at rest is saved as it is: saving an item that was read back
/// writes the same row again.
pub proof fn lemma_stored_is_stable(item: Item, path: Seq<char>)
    ensures
        stored(stored(item, path), path) == stored(item, path),
        file_row(stored(item, path), path) == file_row(item, path),
{
}

} // verus!
