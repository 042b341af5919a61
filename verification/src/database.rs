use vstd::prelude::*;
use crate::error::DbError;
use crate::requests::{self, Request, RequestView};
use crate::sqlite::{self, Answer};
use crate::statements;
use crate::text::{normalize_tag_name, normalized_tag, trimmed};
use crate::todo::{TodoItem, attach_tags, fits_storage, narrow_i32, narrow_u64, narrow_u8, narrow_usize};

pub use crate::sqlite::Database;

verus! {

/// `after` is `before` followed by further answers.
pub open spec fn grows(before: Seq<Answer>, after: Seq<Answer>) -> bool {
    after == before + after.skip(before.len() as int)
}

/// Reading the ten `todos` columns of one row gave the answers `s`, and
/// `item` is that row: each field is the value of its own column (id 0,
/// title 1, description 2, priority 5, order index 6, creation date 7,
/// change date 8, deletion date 9); the item is completed exactly when the
/// completed column (3) is nonzero and read-only exactly when the read-only
/// column (4) is nonzero.
pub open spec fn item_row_reads(s: Seq<Answer>, item: TodoItem) -> bool {
    &&& s.len() == 10
    &&& s[0] matches Answer::Int(k, v) && k == 0 && v == item.id
    &&& s[1] == Answer::Text(1, item.title@)
    &&& s[2] == Answer::Text(2, item.description@)
    &&& s[3] matches Answer::Int(k, v) && k == 3 && item.completed == (v != 0)
    &&& s[4] matches Answer::Int(k, v) && k == 4 && item.readonly == (v != 0)
    &&& s[5] matches Answer::Int(k, v) && k == 5 && v == item.priority
    &&& s[6] matches Answer::Int(k, v) && k == 6 && v == item.order_index
    &&& s[7] matches Answer::Int(k, v) && k == 7 && v == item.creation_date
    &&& s[8] matches Answer::Int(k, v) && k == 8 && v == item.changed_date
    &&& s[9] matches Answer::OptInt(k, v) && k == 9 && match v {
        Some(d) => item.deletion_date matches Some(e) && e == d,
        None => item.deletion_date is None,
    }
}

/// A query handed out one more row, with the answers `s`: that a row came,
/// then its ten columns, which hold `item` (`item_row_reads`).
pub open spec fn todo_row(s: Seq<Answer>, item: TodoItem) -> bool {
    &&& s.len() == 11
    &&& s[0] == Answer::Row
    &&& item_row_reads(s.drop_first(), item)
}

/// A query over the `todos` columns handed out the rows of `items` in
/// order, with the answers `s`: eleven answers per item (`todo_row`).
pub open spec fn todo_rows_prefix(s: Seq<Answer>, items: Seq<TodoItem>) -> bool {
    &&& s.len() == 11 * items.len()
    &&& forall|i: int| 0 <= i < items.len() ==> todo_row(s.subrange(11 * i, 11 * i + 11), #[trigger] items[i])
}

/// A query over the `todos` columns handed out exactly the rows of `items`,
/// in order, with the answers `s`, and then had no more rows.
pub open spec fn todo_rows_read(s: Seq<Answer>, items: Seq<TodoItem>) -> bool {
    &&& s.len() >= 1
    &&& todo_rows_prefix(s.drop_last(), items)
    &&& s.last() == Answer::Done
}

/// The answers a query over one text column gives when it hands out rows
/// holding `texts`, in order: for each, that a row came and its text.
pub open spec fn text_rows(texts: Seq<Seq<char>>) -> Seq<Answer>
    decreases texts.len(),
{
    if texts.len() == 0 {
        seq![]
    } else {
        text_rows(texts.drop_last()) + seq![Answer::Row, Answer::Text(0, texts.last())]
    }
}

/// The texts of a list of names.
pub open spec fn name_texts(tags: Seq<String>) -> Seq<Seq<char>> {
    tags.map_values(|s: String| s@)
}

/// A query over one text column handed out exactly the texts of `v`, in
/// order, and then had no more rows: the answers read are `text_rows` of them
/// and `Done`.
pub open spec fn texts_read(before: Seq<Answer>, after: Seq<Answer>, v: Seq<String>) -> bool {
    after == before + text_rows(name_texts(v)).push(Answer::Done)
}

/// The answers the tag queries of a load read when they handed out the tag
/// lists `lists`, one query per list, in order.
pub open spec fn tag_lists_read(lists: Seq<Seq<String>>) -> Seq<Answer>
    decreases lists.len(),
{
    if lists.len() == 0 {
        seq![]
    } else {
        tag_lists_read(lists.drop_last()) + text_rows(name_texts(lists.last())).push(Answer::Done)
    }
}

/// The tag lists of `items`, in order.
pub open spec fn item_tags(items: Seq<TodoItem>) -> Seq<Seq<String>> {
    items.map_values(|t: TodoItem| t.tags@)
}

/// A load read the rows of `items` with the answers between `before` and
/// `after`: first the rows of its query, which hold the items' fields
/// (`todo_rows_read`), then, for each item in order, the tag names its tag
/// query handed out, which are the item's tags.
pub open spec fn items_loaded(before: Seq<Answer>, after: Seq<Answer>, items: Seq<TodoItem>) -> bool {
    let rows = after.subrange(before.len() as int, (before.len() + 11 * items.len() + 1) as int);
    &&& after == before + rows + tag_lists_read(item_tags(items))
    &&& todo_rows_read(rows, items)
}

/// The lookup of a tag id read one row whose first column is `t`.
pub open spec fn lookup_found(before: Seq<Answer>, after: Seq<Answer>, t: i64) -> bool {
    after == before + seq![Answer::Row, Answer::Int(0, t)]
}

/// The only answer read is the rowid of the latest INSERT, and `id` is that
/// rowid.
pub open spec fn rowid_read(before: Seq<Answer>, after: Seq<Answer>, id: usize) -> bool {
    &&& after.len() == before.len() + 1
    &&& after.drop_last() == before
    &&& after.last() matches Answer::RowId(rowid) && id == rowid as usize
}

/// Hands `req` to SQLite to run it.
fn run(db: &mut Database, req: &Request) -> (r: Result<usize, DbError>)
    ensures
        final(db)@ == old(db)@.push(req@),
        final(db).reads() == old(db).reads(),
        r matches Err(e) ==> e is Sqlite,
{
    match sqlite::execute(db, req) {
        Ok(n) => Ok(n),
        Err(e) => Err(DbError::Sqlite(e)),
    }
}

/// Runs `req` and hands back `Ok(())` when SQLite did.
fn run_unit(db: &mut Database, req: &Request) -> (r: Result<(), DbError>)
    ensures
        final(db)@ == old(db)@.push(req@),
        final(db).reads() == old(db).reads(),
        r matches Err(e) ==> e is Sqlite,
{
    match run(db, req) {
        Ok(_) => Ok(()),
        Err(e) => Err(e),
    }
}

/// Opens the database at `db_path` and creates the `todos`, `tags` and
/// `todo_tags` tables where they do not exist yet.
pub fn init_database(db_path: &str) -> (r: Result<Database, DbError>)
    ensures
        r matches Ok(db) ==> db@ == requests::setup_reqs() && db.reads() == Seq::<Answer>::empty(),
        r matches Err(e) ==> e is Sqlite,
{
    let mut db = match sqlite::open_database(db_path) {
        Ok(d) => d,
        Err(e) => return Err(DbError::Sqlite(e)),
    };
    match run_unit(&mut db, &requests::plain_request(statements::CREATE_TODOS_TABLE)) {
        Ok(()) => {},
        Err(e) => return Err(e),
    }
    match run_unit(&mut db, &requests::plain_request(statements::CREATE_TAGS_TABLE)) {
        Ok(()) => {},
        Err(e) => return Err(e),
    }
    match run_unit(&mut db, &requests::plain_request(statements::CREATE_TODO_TAGS_TABLE)) {
        Ok(()) => {},
        Err(e) => return Err(e),
    }
    assert(db@ =~= requests::setup_reqs());
    Ok(db)
}

/// Reads one row of the ten `todos` columns, column by column, narrowing
/// each integer to its field as soon as it is read: the first column that
/// SQLite cannot read or whose integer does not fit ends the row. The item
/// has no tags yet; each of its fields is its own column (`item_row_reads`).
fn read_todo_row(row: &rusqlite::Row, log: &mut sqlite::Log) -> (r: Result<TodoItem, DbError>)
    ensures
        final(log).sent() == old(log).sent(),
        r matches Err(e) ==> e is Sqlite || e is ColumnOutOfRange,
        r matches Ok(item) ==> fits_storage(item) && item.tags@.len() == 0 && grows(
            old(log).reads(),
            final(log).reads(),
        ) && item_row_reads(final(log).reads().skip(old(log).reads().len() as int), item),
{
    let ghost start = log.reads();
    let raw_id: i64 = match sqlite::column_i64(row, 0, log) {
        Ok(v) => v,
        Err(e) => return Err(DbError::Sqlite(e)),
    };
    let id: usize = match narrow_usize(raw_id, 0) {
        Ok(v) => v,
        Err(e) => return Err(e),
    };
    let title = match sqlite::column_text(row, 1, log) {
        Ok(v) => v,
        Err(e) => return Err(DbError::Sqlite(e)),
    };
    let description = match sqlite::column_text(row, 2, log) {
        Ok(v) => v,
        Err(e) => return Err(DbError::Sqlite(e)),
    };
    let raw_completed: i64 = match sqlite::column_i64(row, 3, log) {
        Ok(v) => v,
        Err(e) => return Err(DbError::Sqlite(e)),
    };
    let completed: i32 = match narrow_i32(raw_completed, 3) {
        Ok(v) => v,
        Err(e) => return Err(e),
    };
    let raw_readonly: i64 = match sqlite::column_i64(row, 4, log) {
        Ok(v) => v,
        Err(e) => return Err(DbError::Sqlite(e)),
    };
    let readonly: i32 = match narrow_i32(raw_readonly, 4) {
        Ok(v) => v,
        Err(e) => return Err(e),
    };
    let raw_priority: i64 = match sqlite::column_i64(row, 5, log) {
        Ok(v) => v,
        Err(e) => return Err(DbError::Sqlite(e)),
    };
    let priority: u8 = match narrow_u8(raw_priority, 5) {
        Ok(v) => v,
        Err(e) => return Err(e),
    };
    let raw_order_index: i64 = match sqlite::column_i64(row, 6, log) {
        Ok(v) => v,
        Err(e) => return Err(DbError::Sqlite(e)),
    };
    let order_index: i32 = match narrow_i32(raw_order_index, 6) {
        Ok(v) => v,
        Err(e) => return Err(e),
    };
    let raw_creation: i64 = match sqlite::column_i64(row, 7, log) {
        Ok(v) => v,
        Err(e) => return Err(DbError::Sqlite(e)),
    };
    let creation_date: u64 = match narrow_u64(raw_creation, 7) {
        Ok(v) => v,
        Err(e) => return Err(e),
    };
    let raw_changed: i64 = match sqlite::column_i64(row, 8, log) {
        Ok(v) => v,
        Err(e) => return Err(DbError::Sqlite(e)),
    };
    let changed_date: u64 = match narrow_u64(raw_changed, 8) {
        Ok(v) => v,
        Err(e) => return Err(e),
    };
    let raw_deletion: Option<i64> = match sqlite::column_opt_i64(row, 9, log) {
        Ok(v) => v,
        Err(e) => return Err(DbError::Sqlite(e)),
    };
    let deletion_date: Option<u64> = match raw_deletion {
        Some(d) => match narrow_u64(d, 9) {
            Ok(v) => Some(v),
            Err(e) => return Err(e),
        },
        None => None,
    };
    proof {
        let cols = seq![
            Answer::Int(0, raw_id),
            Answer::Text(1, title@),
            Answer::Text(2, description@),
            Answer::Int(3, raw_completed),
            Answer::Int(4, raw_readonly),
            Answer::Int(5, raw_priority),
            Answer::Int(6, raw_order_index),
            Answer::Int(7, raw_creation),
            Answer::Int(8, raw_changed),
            Answer::OptInt(9, raw_deletion),
        ];
        assert(log.reads() =~= start + cols);
        assert(log.reads().skip(start.len() as int) =~= cols);
    }
    Ok(
        TodoItem {
            id,
            title,
            description,
            completed: completed != 0,
            readonly: readonly != 0,
            priority,
            order_index,
            creation_date,
            changed_date,
            deletion_date,
            tags: Vec::new(),
        },
    )
}

/// Runs the query `req` over the ten `todos` columns and reads the rows in
/// the order the query gives them, stopping at the first row that does not
/// read; the items have no tags yet. On success the items are exactly the
/// rows the query handed out, in order (`todo_rows_read`).
#[verifier::loop_isolation(false)]
fn query_todos(db: &mut Database, req: &Request) -> (r: Result<Vec<TodoItem>, DbError>)
    ensures
        final(db)@ == old(db)@.push(req@),
        r matches Err(e) ==> e is Sqlite || e is ColumnOutOfRange,
        r matches Ok(v) ==> (forall|i: int| 0 <= i < v.len() ==> fits_storage(#[trigger] v@[i]))
            && (forall|i: int| 0 <= i < v.len() ==> (#[trigger] v@[i]).tags@.len() == 0) && grows(
            old(db).reads(),
            final(db).reads(),
        ) && todo_rows_read(final(db).reads().skip(old(db).reads().len() as int), v@),
{
    let ghost start = db.reads();
    let mut q = match sqlite::prepare(&db.handle, &mut db.log, req) {
        Ok(q) => q,
        Err(e) => return Err(DbError::Sqlite(e)),
    };
    let mut rows = match sqlite::query(&mut q) {
        Ok(r) => r,
        Err(e) => return Err(DbError::Sqlite(e)),
    };
    let mut todos: Vec<TodoItem> = Vec::new();
    let ghost mut rs: Seq<Answer> = Seq::empty();
    loop
        invariant
            forall|i: int| 0 <= i < todos.len() ==> fits_storage(#[trigger] todos@[i]),
            forall|i: int| 0 <= i < todos.len() ==> (#[trigger] todos@[i]).tags@.len() == 0,
            db@ == old(db)@.push(req@),
            db.reads() == start + rs,
            todo_rows_prefix(rs, todos@),
        decreases usize::MAX - todos.len(),
    {
        let row = match sqlite::next_row(&mut rows, &mut db.log) {
            Ok(Some(row)) => row,
            Ok(None) => break,
            Err(e) => return Err(DbError::Sqlite(e)),
        };
        let ghost before = db.reads();
        let item = match read_todo_row(row, &mut db.log) {
            Ok(item) => item,
            Err(e) => return Err(e),
        };
        proof {
            let cols = db.reads().skip(before.len() as int);
            let rs2 = rs.push(Answer::Row) + cols;
            let items2 = todos@.push(item);
            assert(db.reads() =~= start + rs2);
            assert(item_row_reads(cols, item));
            assert(rs2.subrange(11 * todos.len(), 11 * todos.len() + 11).drop_first() =~= cols);
            assert forall|i: int| 0 <= i < items2.len() implies todo_row(
                rs2.subrange(11 * i, 11 * i + 11),
                #[trigger] items2[i],
            ) by {
                if i < todos.len() {
                    assert(rs2.subrange(11 * i, 11 * i + 11) =~= rs.subrange(11 * i, 11 * i + 11));
                    assert(items2[i] == todos@[i]);
                }
            }
            assert(todo_rows_prefix(rs2, items2));
            rs = rs2;
        }
        todos.push(item);
        assert(todos.len() <= usize::MAX);
    }
    proof {
        let all = rs.push(Answer::Done);
        assert(db.reads() =~= start + all);
        assert(db.reads().skip(start.len() as int) =~= all);
        assert(all.drop_last() =~= rs);
    }
    Ok(todos)
}

/// Runs the query `req`, whose rows hold one text column, and collects it:
/// on success the texts are exactly those of the rows the query handed out,
/// in order.
#[verifier::loop_isolation(false)]
fn query_texts(db: &mut Database, req: &Request) -> (r: Result<Vec<String>, DbError>)
    ensures
        final(db)@ == old(db)@.push(req@),
        r matches Err(e) ==> e is Sqlite,
        r matches Ok(v) ==> texts_read(old(db).reads(), final(db).reads(), v@),
{
    let ghost start = db.reads();
    let mut q = match sqlite::prepare(&db.handle, &mut db.log, req) {
        Ok(q) => q,
        Err(e) => return Err(DbError::Sqlite(e)),
    };
    let mut rows = match sqlite::query(&mut q) {
        Ok(r) => r,
        Err(e) => return Err(DbError::Sqlite(e)),
    };
    let mut texts: Vec<String> = Vec::new();
    loop
        invariant
            db@ == old(db)@.push(req@),
            db.reads() == start + text_rows(name_texts(texts@)),
        decreases usize::MAX - texts.len(),
    {
        let row = match sqlite::next_row(&mut rows, &mut db.log) {
            Ok(Some(row)) => row,
            Ok(None) => break,
            Err(e) => return Err(DbError::Sqlite(e)),
        };
        let text = match sqlite::column_text(row, 0, &mut db.log) {
            Ok(t) => t,
            Err(e) => return Err(DbError::Sqlite(e)),
        };
        proof {
            let ts = name_texts(texts@);
            let ts2 = name_texts(texts@.push(text));
            assert(ts2 =~= ts.push(text@));
            assert(ts2.drop_last() =~= ts);
            assert(db.reads() =~= start + text_rows(ts2));
        }
        texts.push(text);
        assert(texts.len() <= usize::MAX);
    }
    Ok(texts)
}

/// Runs the query `req` and reads the first column of its first row as an
/// integer; `NoRows` when the query gives no row. Further rows are ignored.
/// The integer given back is the one read; when none is read, no integer
/// answer is recorded.
fn query_first_integer(db: &mut Database, req: &Request) -> (r: Result<i64, DbError>)
    ensures
        final(db)@ == old(db)@.push(req@),
        r matches Err(e) ==> e is Sqlite || e is NoRows,
        r matches Ok(t) ==> lookup_found(old(db).reads(), final(db).reads(), t),
        r is Err ==> final(db).reads() == old(db).reads() || final(db).reads() == old(db).reads().push(
            Answer::Row,
        ) || final(db).reads() == old(db).reads().push(Answer::Done),
{
    let ghost start = db.reads();
    let mut q = match sqlite::prepare(&db.handle, &mut db.log, req) {
        Ok(q) => q,
        Err(e) => return Err(DbError::Sqlite(e)),
    };
    let mut rows = match sqlite::query(&mut q) {
        Ok(r) => r,
        Err(e) => return Err(DbError::Sqlite(e)),
    };
    let row = match sqlite::next_row(&mut rows, &mut db.log) {
        Ok(Some(row)) => row,
        Ok(None) => return Err(DbError::NoRows),
        Err(e) => return Err(DbError::Sqlite(e)),
    };
    match sqlite::column_i64(row, 0, &mut db.log) {
        Ok(v) => {
            assert(db.reads() =~= start + seq![Answer::Row, Answer::Int(0, v)]);
            Ok(v)
        },
        Err(e) => Err(DbError::Sqlite(e)),
    }
}

/// The tag queries for the items `ids`, one per id, in order.
pub open spec fn tag_lookups(ids: Seq<usize>) -> Seq<RequestView> {
    ids.map_values(|id: usize| requests::tags_of_todo_req(id))
}

/// The ids of the items of `v`, in order.
pub open spec fn ids_of(v: Seq<TodoItem>) -> Seq<usize> {
    v.map_values(|t: TodoItem| t.id)
}

/// The tag queries for the items of `v`, one per item, in order.
pub open spec fn tag_queries(v: Seq<TodoItem>) -> Seq<RequestView> {
    tag_lookups(ids_of(v))
}

/// The names of the tags attached to the item `todo_id`: every row the tag
/// query hands out, in order.
pub fn get_tags_for_todo(db: &mut Database, todo_id: usize) -> (r: Result<Vec<String>, DbError>)
    ensures
        todo_id > i64::MAX ==> r == Err::<Vec<String>, DbError>(DbError::ParamOutOfRange(todo_id as u64))
            && final(db)@ == old(db)@,
        todo_id <= i64::MAX ==> final(db)@ == old(db)@.push(requests::tags_of_todo_req(todo_id)) && (
        r matches Err(e) ==> e is Sqlite),
        r matches Ok(v) ==> texts_read(old(db).reads(), final(db).reads(), v@),
{
    let req = match requests::tags_of_todo_request(todo_id) {
        Ok(q) => q,
        Err(e) => return Err(e),
    };
    query_texts(db, &req)
}

/// Runs the query `req` over the ten `todos` columns, reads the rows in
/// order, then asks for the tags of each item and gives each its tags. Only
/// reading statements are sent: the query, then tag lookups.
fn load_todos_with_tags(db: &mut Database, req: &Request) -> (r: Result<Vec<TodoItem>, DbError>)
    ensures
        r matches Err(e) ==> e is Sqlite || e is ColumnOutOfRange,
        r matches Err(_) ==> exists|ids: Seq<usize>|
            final(db)@ == old(db)@.push(req@) + #[trigger] tag_lookups(ids),
        r matches Ok(v) ==> final(db)@ == old(db)@.push(req@) + tag_queries(v@) && forall|i: int|
            0 <= i < v.len() ==> fits_storage(#[trigger] v@[i]),
        r matches Ok(v) ==> items_loaded(old(db).reads(), final(db).reads(), v@),
{
    let ghost reads0 = db.reads();
    let todos = match query_todos(db, req) {
        Ok(v) => v,
        Err(e) => {
            assert(db@ =~= old(db)@.push(req@) + tag_lookups(Seq::<usize>::empty()));
            return Err(e);
        },
    };
    let ghost start = db@;
    let ghost rows = db.reads().skip(reads0.len() as int);
    let ghost mid = db.reads();
    let n: usize = todos.len();
    let mut tags: Vec<Vec<String>> = Vec::new();
    let mut k: usize = 0;
    while k < n
        invariant
            n == todos.len(),
            k <= n,
            tags.len() == k,
            forall|i: int| 0 <= i < todos.len() ==> fits_storage(#[trigger] todos@[i]),
            start == old(db)@.push(req@),
            db@ == start + tag_queries(todos@.take(k as int)),
            mid == reads0 + rows,
            db.reads() == mid + tag_lists_read(tags@.map_values(|t: Vec<String>| t@)),
        decreases n - k,
    {
        let ghost before = db@;
        let ghost before_reads = db.reads();
        assert(fits_storage(todos@[k as int]));
        let t = match get_tags_for_todo(db, todos[k].id) {
            Ok(t) => t,
            Err(e) => {
                assert(tag_queries(todos@.take(k + 1)) =~= tag_queries(todos@.take(k as int)).push(
                    requests::tags_of_todo_req(todos@[k as int].id),
                ));
                assert(db@ =~= start + tag_lookups(ids_of(todos@.take(k + 1))));
                return Err(e);
            },
        };
        assert(tag_queries(todos@.take(k + 1)) =~= tag_queries(todos@.take(k as int)).push(
            requests::tags_of_todo_req(todos@[k as int].id),
        ));
        proof {
            let lists = tags@.map_values(|t: Vec<String>| t@);
            let lists2 = tags@.push(t).map_values(|t: Vec<String>| t@);
            assert(lists2.drop_last() =~= lists);
            assert(lists2.last() == t@);
            assert(db.reads() =~= mid + tag_lists_read(lists2));
        }
        tags.push(t);
        k = k + 1;
    }
    assert(todos@.take(n as int) =~= todos@);
    let ghost items = todos@;
    let ghost lists = tags@.map_values(|t: Vec<String>| t@);
    let result = attach_tags(todos, tags);
    assert(ids_of(result@) =~= ids_of(items));
    proof {
        assert(item_tags(result@) =~= lists);
        assert(rows.len() == 11 * result.len() + 1);
        assert(rows =~= db.reads().subrange(reads0.len() as int, (reads0.len() + 11 * result@.len() + 1) as int));
        assert forall|i: int| 0 <= i < result@.len() implies todo_row(
            rows.drop_last().subrange(11 * i, 11 * i + 11),
            #[trigger] result@[i],
        ) by {
            assert(todo_row(rows.drop_last().subrange(11 * i, 11 * i + 11), items[i]));
        }
        assert(todo_rows_read(rows, result@));
    }
    Ok(result)
}

/// The answers of `text_rows` come in pairs, one pair per text: that a row
/// came, and the text.
proof fn lemma_text_rows_pairs(texts: Seq<Seq<char>>)
    ensures
        text_rows(texts).len() == 2 * texts.len(),
        forall|i: int|
            0 <= i < texts.len() ==> text_rows(texts).subrange(2 * i, 2 * i + 2) == seq![
                Answer::Row,
                Answer::Text(0, #[trigger] texts[i]),
            ],
    decreases texts.len(),
{
    if texts.len() > 0 {
        let init = texts.drop_last();
        lemma_text_rows_pairs(init);
        assert forall|i: int| 0 <= i < texts.len() implies text_rows(texts).subrange(2 * i, 2 * i + 2)
            == seq![Answer::Row, Answer::Text(0, #[trigger] texts[i])] by {
            if i < init.len() {
                assert(text_rows(texts).subrange(2 * i, 2 * i + 2) =~= text_rows(init).subrange(
                    2 * i,
                    2 * i + 2,
                ));
                assert(init[i] == texts[i]);
            } else {
                assert(text_rows(texts).subrange(2 * i, 2 * i + 2) =~= seq![
                    Answer::Row,
                    Answer::Text(0, texts.last()),
                ]);
            }
        }
    }
}

/// Law: a listing of names (tag names of an item, all tags, used tags)
/// gives back one name per row its query handed out, in order, and no other:
/// the answers read are, for the `i`-th name, that a row came and that name
/// as the row's text, then that the rows ran out.
pub proof fn lemma_listed_names_are_the_rows(before: Seq<Answer>, after: Seq<Answer>, v: Seq<String>)
    requires
        texts_read(before, after, v),
    ensures
        after.len() == before.len() + 2 * v.len() + 1,
        after.last() == Answer::Done,
        forall|i: int|
            0 <= i < v.len() ==> after.subrange(before.len() + 2 * i, before.len() + 2 * i + 2) == seq![
                Answer::Row,
                Answer::Text(0, (#[trigger] v[i])@),
            ],
{
    let texts = name_texts(v);
    lemma_text_rows_pairs(texts);
    let tail = text_rows(texts).push(Answer::Done);
    assert forall|i: int| 0 <= i < v.len() implies after.subrange(
        before.len() + 2 * i,
        before.len() + 2 * i + 2,
    ) == seq![Answer::Row, Answer::Text(0, (#[trigger] v[i])@)] by {
        assert(texts[i] == v[i]@);
        assert(after.subrange(before.len() + 2 * i, before.len() + 2 * i + 2) =~= text_rows(
            texts,
        ).subrange(2 * i, 2 * i + 2));
    }
}

/// Law: the `i`-th item a load gives back is the `i`-th row its query
/// handed out: its id, title, description, priority, order index and dates
/// are that row's own columns, it is completed exactly when the row's
/// completed column (3) is nonzero, and read-only exactly when the row's
/// read-only column (4) is nonzero.
pub proof fn lemma_loaded_item_is_its_row(
    before: Seq<Answer>,
    after: Seq<Answer>,
    items: Seq<TodoItem>,
    i: int,
)
    requires
        items_loaded(before, after, items),
        0 <= i < items.len(),
    ensures
        ({
            let at = before.len() + 11 * i;
            let item = items[i];
            &&& after[at] == Answer::Row
            &&& after[at + 1] matches Answer::Int(k, v) && k == 0 && v == item.id
            &&& after[at + 2] == Answer::Text(1, item.title@)
            &&& after[at + 3] == Answer::Text(2, item.description@)
            &&& after[at + 4] matches Answer::Int(k, v) && k == 3 && (item.completed <==> v != 0)
            &&& after[at + 5] matches Answer::Int(k, v) && k == 4 && (item.readonly <==> v != 0)
            &&& after[at + 6] matches Answer::Int(k, v) && k == 5 && v == item.priority
            &&& after[at + 7] matches Answer::Int(k, v) && k == 6 && v == item.order_index
            &&& after[at + 8] matches Answer::Int(k, v) && k == 7 && v == item.creation_date
            &&& after[at + 9] matches Answer::Int(k, v) && k == 8 && v == item.changed_date
            &&& after[at + 10] matches Answer::OptInt(k, v) && k == 9 && match v {
                Some(d) => item.deletion_date matches Some(e) && e == d,
                None => item.deletion_date is None,
            }
        }),
{
    let rows = after.subrange(before.len() as int, (before.len() + 11 * items.len() + 1) as int);
    let row = rows.drop_last().subrange(11 * i, 11 * i + 11);
    assert(todo_row(row, items[i]));
    let at = before.len() + 11 * i;
    assert forall|j: int| 0 <= j < 11 implies after[at + j] == #[trigger] row[j] by {
        assert(after[at + j] == rows[11 * i + j]);
    }
    assert(row[1] == row.drop_first()[0]);
    assert(row[2] == row.drop_first()[1]);
    assert(row[3] == row.drop_first()[2]);
    assert(row[4] == row.drop_first()[3]);
    assert(row[5] == row.drop_first()[4]);
    assert(row[6] == row.drop_first()[5]);
    assert(row[7] == row.drop_first()[6]);
    assert(row[8] == row.drop_first()[7]);
    assert(row[9] == row.drop_first()[8]);
    assert(row[10] == row.drop_first()[9]);
}

/// The items not in the trash, by ascending order index, each with its tags.
pub fn load_active_todos(db: &mut Database) -> (r: Result<Vec<TodoItem>, DbError>)
    ensures
        r matches Err(e) ==> e is Sqlite || e is ColumnOutOfRange,
        r matches Err(_) ==> exists|ids: Seq<usize>|
            final(db)@ == old(db)@.push(requests::select_active_req()) + #[trigger] tag_lookups(ids),
        r matches Ok(v) ==> final(db)@ == old(db)@.push(requests::select_active_req()) + tag_queries(v@)
            && forall|i: int| 0 <= i < v.len() ==> fits_storage(#[trigger] v@[i]),
        r matches Ok(v) ==> items_loaded(old(db).reads(), final(db).reads(), v@),
{
    load_todos_with_tags(db, &requests::plain_request(statements::SELECT_ACTIVE_TODOS))
}

/// The items in the trash, most recently deleted first, each with its tags.
pub fn load_trashed_todos(db: &mut Database) -> (r: Result<Vec<TodoItem>, DbError>)
    ensures
        r matches Err(e) ==> e is Sqlite || e is ColumnOutOfRange,
        r matches Err(_) ==> exists|ids: Seq<usize>|
            final(db)@ == old(db)@.push(requests::select_trashed_req()) + #[trigger] tag_lookups(ids),
        r matches Ok(v) ==> final(db)@ == old(db)@.push(requests::select_trashed_req()) + tag_queries(
            v@,
        ) && forall|i: int| 0 <= i < v.len() ==> fits_storage(#[trigger] v@[i]),
        r matches Ok(v) ==> items_loaded(old(db).reads(), final(db).reads(), v@),
{
    load_todos_with_tags(db, &requests::plain_request(statements::SELECT_TRASHED_TODOS))
}

/// Stores a new item, neither completed nor read-only, and gives back the
/// rowid SQLite assigned to it: the rowid read right after the INSERT.
pub fn insert_todo(
    db: &mut Database,
    title: &str,
    description: &str,
    priority: u8,
    order_index: i32,
    creation_date: u64,
    changed_date: u64,
) -> (r: Result<usize, DbError>)
    ensures
        creation_date > i64::MAX ==> r == Err::<usize, DbError>(DbError::ParamOutOfRange(creation_date))
            && final(db)@ == old(db)@,
        creation_date <= i64::MAX && changed_date > i64::MAX ==> r == Err::<usize, DbError>(
            DbError::ParamOutOfRange(changed_date),
        ) && final(db)@ == old(db)@,
        creation_date <= i64::MAX && changed_date <= i64::MAX ==> final(db)@ == old(db)@.push(
            requests::insert_todo_req(
                title@,
                description@,
                priority,
                order_index,
                creation_date,
                changed_date,
            ),
        ) && (r matches Err(e) ==> e is Sqlite),
        r matches Ok(id) ==> rowid_read(old(db).reads(), final(db).reads(), id),
{
    let req = match requests::insert_todo_request(
        title,
        description,
        priority,
        order_index,
        creation_date,
        changed_date,
    ) {
        Ok(q) => q,
        Err(e) => return Err(e),
    };
    match run(db, &req) {
        Ok(_) => {},
        Err(e) => return Err(e),
    }
    let rowid: i64 = sqlite::last_insert_rowid(db);
    assert(db.reads().drop_last() =~= old(db).reads());
    Ok(#[verifier::truncate] (rowid as usize))
}

/// Sets the title and description of item `id` and its change date.
pub fn update_todo(
    db: &mut Database,
    id: usize,
    title: &str,
    description: &str,
    changed_date: u64,
) -> (r: Result<(), DbError>)
    ensures
        final(db)@ == old(db)@.push(requests::update_todo_req(id, title@, description@, changed_date)),
        r matches Err(e) ==> e is Sqlite,
{
    run_unit(db, &requests::update_todo_request(id, title, description, changed_date))
}

/// Runs the update `sql` whose parameters are an integer value, a change
/// date and an id.
fn update_value(db: &mut Database, sql: &'static str, value: i64, id: usize, changed_date: u64) -> (r: Result<
    (),
    DbError,
>)
    ensures
        changed_date > i64::MAX ==> r == Err::<(), DbError>(DbError::ParamOutOfRange(changed_date))
            && final(db)@ == old(db)@,
        changed_date <= i64::MAX && id > i64::MAX ==> r == Err::<(), DbError>(
            DbError::ParamOutOfRange(id as u64),
        ) && final(db)@ == old(db)@,
        changed_date <= i64::MAX && id <= i64::MAX ==> final(db)@ == old(db)@.push(
            requests::value_update_req(sql@, value, id, changed_date),
        ) && (r matches Err(e) ==> e is Sqlite),
{
    let req = match requests::value_update_request(sql, value, id, changed_date) {
        Ok(q) => q,
        Err(e) => return Err(e),
    };
    run_unit(db, &req)
}

/// Sets the order index of item `id` and its change date.
pub fn update_order_index(db: &mut Database, id: usize, order_index: i32, changed_date: u64) -> (r: Result<
    (),
    DbError,
>)
    ensures
        changed_date > i64::MAX ==> r == Err::<(), DbError>(DbError::ParamOutOfRange(changed_date))
            && final(db)@ == old(db)@,
        changed_date <= i64::MAX && id > i64::MAX ==> r == Err::<(), DbError>(
            DbError::ParamOutOfRange(id as u64),
        ) && final(db)@ == old(db)@,
        changed_date <= i64::MAX && id <= i64::MAX ==> final(db)@ == old(db)@.push(
            requests::update_order_index_req(id, order_index, changed_date),
        ) && (r matches Err(e) ==> e is Sqlite),
{
    update_value(db, statements::UPDATE_ORDER_INDEX, order_index as i64, id, changed_date)
}

/// Sets the priority of item `id` and its change date.
pub fn update_priority(db: &mut Database, id: usize, priority: u8, changed_date: u64) -> (r: Result<
    (),
    DbError,
>)
    ensures
        changed_date > i64::MAX ==> r == Err::<(), DbError>(DbError::ParamOutOfRange(changed_date))
            && final(db)@ == old(db)@,
        changed_date <= i64::MAX && id > i64::MAX ==> r == Err::<(), DbError>(
            DbError::ParamOutOfRange(id as u64),
        ) && final(db)@ == old(db)@,
        changed_date <= i64::MAX && id <= i64::MAX ==> final(db)@ == old(db)@.push(
            requests::update_priority_req(id, priority, changed_date),
        ) && (r matches Err(e) ==> e is Sqlite),
{
    update_value(db, statements::UPDATE_PRIORITY, priority as i64, id, changed_date)
}

/// Marks item `id` completed or pending and sets its change date.
pub fn toggle_todo(db: &mut Database, id: usize, completed: bool, changed_date: u64) -> (r: Result<
    (),
    DbError,
>)
    ensures
        final(db)@ == old(db)@.push(requests::update_completed_req(id, completed, changed_date)),
        r matches Err(e) ==> e is Sqlite,
{
    run_unit(db, &requests::flag_update_request(statements::UPDATE_COMPLETED, completed, id, changed_date))
}

/// Locks or unlocks item `id` against editing and sets its change date.
pub fn set_readonly(db: &mut Database, id: usize, readonly: bool, changed_date: u64) -> (r: Result<
    (),
    DbError,
>)
    ensures
        final(db)@ == old(db)@.push(requests::update_readonly_req(id, readonly, changed_date)),
        r matches Err(e) ==> e is Sqlite,
{
    run_unit(db, &requests::flag_update_request(statements::UPDATE_READONLY, readonly, id, changed_date))
}

/// Every tag name, alphabetically: every row of the query, in order.
pub fn get_all_tags(db: &mut Database) -> (r: Result<Vec<String>, DbError>)
    ensures
        final(db)@ == old(db)@.push(requests::select_all_tags_req()),
        r matches Err(e) ==> e is Sqlite,
        r matches Ok(v) ==> texts_read(old(db).reads(), final(db).reads(), v@),
{
    query_texts(db, &requests::plain_request(statements::SELECT_ALL_TAGS))
}

/// The names of the tags attached to at least one item outside the trash,
/// alphabetically and each once: every row of the query, in order.
pub fn get_used_tags(db: &mut Database) -> (r: Result<Vec<String>, DbError>)
    ensures
        final(db)@ == old(db)@.push(requests::select_used_tags_req()),
        r matches Err(e) ==> e is Sqlite,
        r matches Ok(v) ==> texts_read(old(db).reads(), final(db).reads(), v@),
{
    query_texts(db, &requests::plain_request(statements::SELECT_USED_TAGS))
}

/// Moves item `id` to the trash by setting its deletion date.
pub fn soft_delete_todo(db: &mut Database, id: usize, deletion_date: u64) -> (r: Result<(), DbError>)
    ensures
        final(db)@ == old(db)@.push(requests::soft_delete_req(id, deletion_date)),
        r matches Err(e) ==> e is Sqlite,
{
    run_unit(db, &requests::soft_delete_request(id, deletion_date))
}

/// Takes item `id` out of the trash (clears its deletion date) and sets its
/// change date.
pub fn restore_todo(db: &mut Database, id: usize, changed_date: u64) -> (r: Result<(), DbError>)
    ensures
        final(db)@ == old(db)@.push(requests::restore_req(id, changed_date)),
        r matches Err(e) ==> e is Sqlite,
{
    run_unit(db, &requests::restore_request(id, changed_date))
}

/// Removes item `id` from the database for good.
pub fn permanent_delete_todo(db: &mut Database, id: usize) -> (r: Result<(), DbError>)
    ensures
        final(db)@ == old(db)@.push(requests::delete_todo_req(id)),
        r matches Err(e) ==> e is Sqlite,
{
    run_unit(db, &requests::delete_todo_request(id))
}

/// Removes every item in the trash from the database.
pub fn empty_trash(db: &mut Database) -> (r: Result<(), DbError>)
    ensures
        final(db)@ == old(db)@.push(requests::empty_trash_req()),
        r matches Err(e) ==> e is Sqlite,
{
    run_unit(db, &requests::plain_request(statements::EMPTY_TRASH))
}

/// The statements that attach the tag `name` (already normalized) to item
/// `todo_id` when the lookup of its id gives `tag_id`: create the tag if it
/// is new, look up its id, link it.
pub open spec fn add_tag_reqs(todo_id: usize, name: Seq<char>, tag_id: i64) -> Seq<RequestView> {
    seq![
        requests::insert_tag_req(name),
        requests::select_tag_id_req(name),
        requests::link_tag_req(todo_id, tag_id),
    ]
}

/// Attaches the tag `tag_name`, normalized (trimmed and lowercased), to item
/// `todo_id`, creating the tag if it is new. A name that normalizes to nothing
/// is ignored: no statement is sent. The tag id linked is the one the lookup
/// of the name read.
pub fn add_tag(db: &mut Database, todo_id: usize, tag_name: &str) -> (r: Result<(), DbError>)
    ensures
        trimmed(tag_name@).len() == 0 ==> r is Ok && final(db)@ == old(db)@,
        normalized_tag(tag_name@).len() == 0 ==> r is Ok && final(db)@ == old(db)@,
        normalized_tag(tag_name@).len() != 0 ==> {
            let n = normalized_tag(tag_name@);
            &&& r is Ok ==> exists|t: i64|
                final(db)@ == old(db)@ + #[trigger] add_tag_reqs(todo_id, n, t) && lookup_found(
                    old(db).reads(),
                    final(db).reads(),
                    t,
                )
            &&& r is Err ==> exists|k: int, t: i64|
                1 <= k <= 3 && final(db)@ == old(db)@ + #[trigger] add_tag_reqs(todo_id, n, t).take(k)
            &&& todo_id > i64::MAX ==> r is Err
        },
        r matches Err(e) ==> e is Sqlite || e is NoRows || (todo_id > i64::MAX && e
            == DbError::ParamOutOfRange(todo_id as u64)),
{
    let name = normalize_tag_name(tag_name);
    if name.as_str().is_empty() {
        return Ok(());
    }
    let ghost n = name@;
    let ghost start = db@;
    match run(db, &requests::name_request(statements::INSERT_TAG, name.as_str())) {
        Ok(_) => {},
        Err(e) => {
            assert(db@ =~= start + add_tag_reqs(todo_id, n, 0).take(1));
            return Err(e);
        },
    }
    let tag_id: i64 = match query_first_integer(
        db,
        &requests::name_request(statements::SELECT_TAG_ID, name.as_str()),
    ) {
        Ok(id) => id,
        Err(e) => {
            assert(db@ =~= start + add_tag_reqs(todo_id, n, 0).take(2));
            return Err(e);
        },
    };
    let link = match requests::todo_tag_request(statements::LINK_TAG, todo_id, tag_id) {
        Ok(q) => q,
        Err(e) => {
            assert(db@ =~= start + add_tag_reqs(todo_id, n, 0).take(2));
            return Err(e);
        },
    };
    let r = run_unit(db, &link);
    assert(db@ =~= start + add_tag_reqs(todo_id, n, tag_id));
    assert(lookup_found(old(db).reads(), db.reads(), tag_id));
    assert(add_tag_reqs(todo_id, n, tag_id).take(3) =~= add_tag_reqs(todo_id, n, tag_id));
    r
}

/// Law: when `add_tag` attaches a name that is not blank, the link it sends
/// joins the item to exactly the tag id its lookup of the name read: the
/// statements are the INSERT of the tag, its lookup, and the link, and the
/// last answer read is the id linked.
pub proof fn lemma_added_tag_link_is_the_lookup(
    sent_before: Seq<RequestView>,
    sent_after: Seq<RequestView>,
    reads_before: Seq<Answer>,
    reads_after: Seq<Answer>,
    todo_id: usize,
    name: Seq<char>,
)
    requires
        exists|t: i64|
            sent_after == sent_before + #[trigger] add_tag_reqs(todo_id, name, t) && lookup_found(
                reads_before,
                reads_after,
                t,
            ),
    ensures
        sent_after.len() == sent_before.len() + 3,
        sent_after[sent_before.len() as int] == requests::insert_tag_req(name),
        sent_after[sent_before.len() + 1int] == requests::select_tag_id_req(name),
        reads_after.last() matches Answer::Int(k, t) && k == 0 && sent_after.last()
            == requests::link_tag_req(todo_id, t),
{
    let t = choose|t: i64|
        sent_after == sent_before + #[trigger] add_tag_reqs(todo_id, name, t) && lookup_found(
            reads_before,
            reads_after,
            t,
        );
    assert(reads_after.last() == Answer::Int(0, t));
}

/// Law: when the lookup of the name finds a tag, the DELETE that
/// `remove_tag` sends detaches exactly the tag id the lookup read from the
/// item: the last statement sent unlinks the item from the last answer read.
pub proof fn lemma_removed_tag_unlink_is_the_lookup(
    sent_before: Seq<RequestView>,
    sent_after: Seq<RequestView>,
    reads_before: Seq<Answer>,
    reads_after: Seq<Answer>,
    todo_id: usize,
    name: Seq<char>,
    t: i64,
)
    requires
        lookup_found(reads_before, reads_after, t),
        sent_after == sent_before + seq![requests::select_tag_id_req(name), requests::unlink_tag_req(todo_id, t)],
    ensures
        reads_after.last() matches Answer::Int(k, found) && k == 0 && sent_after.last()
            == requests::unlink_tag_req(todo_id, found),
{
    assert(reads_after.last() == Answer::Int(0, t));
}

/// Law: the id a successful insert (and so `create`) gives back is the rowid
/// SQLite reported right after the INSERT: the one answer read is that rowid,
/// and the id is its value whenever it fits a `usize`.
pub proof fn lemma_inserted_id_is_the_rowid(before: Seq<Answer>, after: Seq<Answer>, id: usize)
    requires
        rowid_read(before, after, id),
    ensures
        exists|rowid: i64|
            after == #[trigger] before.push(Answer::RowId(rowid)) && (0 <= rowid <= usize::MAX ==> id
                == rowid),
{
    let rowid = after.last()->RowId_0;
    assert(after =~= before.push(Answer::RowId(rowid)));
}

/// Detaches the tag `tag_name`, normalized (trimmed and lowercased), from item
/// `todo_id`; nothing is detached when no such tag exists. The tag id
/// unlinked is the one the lookup of the name read.
pub fn remove_tag(db: &mut Database, todo_id: usize, tag_name: &str) -> (r: Result<(), DbError>)
    ensures
        ({
            let n = normalized_tag(tag_name@);
            ||| final(db)@ == old(db)@.push(requests::select_tag_id_req(n))
            ||| exists|t: i64|
                final(db)@ == old(db)@ + seq![
                    requests::select_tag_id_req(n),
                    #[trigger] requests::unlink_tag_req(todo_id, t),
                ]
        }),
        todo_id > i64::MAX ==> final(db)@ == old(db)@.push(
            requests::select_tag_id_req(normalized_tag(tag_name@)),
        ),
        final(db)@ == old(db)@.push(requests::select_tag_id_req(normalized_tag(tag_name@))) ==> (r is Ok
            || (todo_id > i64::MAX && r == Err::<(), DbError>(DbError::ParamOutOfRange(todo_id as u64)))),
        r matches Err(e) ==> e is Sqlite || (todo_id > i64::MAX && e == DbError::ParamOutOfRange(
            todo_id as u64,
        )),
        forall|t: i64|
            #![trigger lookup_found(old(db).reads(), final(db).reads(), t)]
            lookup_found(old(db).reads(), final(db).reads(), t) && todo_id <= i64::MAX ==> final(db)@
                == old(db)@ + seq![
                requests::select_tag_id_req(normalized_tag(tag_name@)),
                requests::unlink_tag_req(todo_id, t),
            ],
        (forall|t: i64| !lookup_found(old(db).reads(), final(db).reads(), t)) ==> r is Ok && final(db)@
            == old(db)@.push(requests::select_tag_id_req(normalized_tag(tag_name@))),
{
    let name = normalize_tag_name(tag_name);
    let ghost start = db@;
    let ghost reads0 = db.reads();
    let tag_id = match query_first_integer(
        db,
        &requests::name_request(statements::SELECT_TAG_ID, name.as_str()),
    ) {
        Ok(id) => Some(id),
        Err(_) => None,
    };
    match tag_id {
        Some(tag_id) => {
            assert(lookup_found(reads0, db.reads(), tag_id));
            let req = match requests::todo_tag_request(statements::UNLINK_TAG, todo_id, tag_id) {
                Ok(q) => q,
                Err(e) => return Err(e),
            };
            let r = run_unit(db, &req);
            assert(db@ =~= start + seq![
                requests::select_tag_id_req(name@),
                requests::unlink_tag_req(todo_id, tag_id),
            ]);
            assert forall|t: i64| lookup_found(reads0, db.reads(), t) implies t == tag_id by {
                assert(db.reads()[reads0.len() + 1int] == Answer::Int(0, t));
                assert(db.reads()[reads0.len() + 1int] == Answer::Int(0, tag_id));
            }
            r
        },
        None => {
            assert forall|t: i64| !lookup_found(reads0, db.reads(), t) by {
                if lookup_found(reads0, db.reads(), t) {
                    assert(db.reads().len() == reads0.len() + 2);
                }
            }
            Ok(())
        },
    }
}

/// The statements `add_tag` sends for the name `name` when the tag lookup
/// gives `tag_id`: none for a blank name.
pub open spec fn tag_name_reqs(todo_id: usize, name: Seq<char>, tag_id: i64) -> Seq<RequestView> {
    if normalized_tag(name).len() == 0 {
        seq![]
    } else {
        add_tag_reqs(todo_id, normalized_tag(name), tag_id)
    }
}

/// The statements that attach each of `names` in order, the `i`-th lookup
/// giving `tag_ids[i]`.
pub open spec fn tags_reqs(todo_id: usize, names: Seq<Seq<char>>, tag_ids: Seq<i64>) -> Seq<RequestView>
    decreases names.len(),
{
    if names.len() == 0 {
        seq![]
    } else {
        tags_reqs(todo_id, names.drop_last(), tag_ids) + tag_name_reqs(
            todo_id,
            names.last(),
            tag_ids[names.len() - 1],
        )
    }
}

proof fn lemma_tags_reqs_prefix(todo_id: usize, names: Seq<Seq<char>>, a: Seq<i64>, b: Seq<i64>)
    requires
        names.len() <= a.len(),
        names.len() <= b.len(),
        forall|i: int| 0 <= i < names.len() ==> a[i] == b[i],
    ensures
        tags_reqs(todo_id, names, a) == tags_reqs(todo_id, names, b),
    decreases names.len(),
{
    if names.len() > 0 {
        lemma_tags_reqs_prefix(todo_id, names.drop_last(), a, b);
    }
}

/// Replaces the tags of item `todo_id` by `tags`: detaches all its tags, then
/// attaches each of `tags` in order as `add_tag` does, stopping at the first
/// failure.
pub fn update_todo_tags(db: &mut Database, todo_id: usize, tags: &[String]) -> (r: Result<(), DbError>)
    ensures
        todo_id > i64::MAX ==> r == Err::<(), DbError>(DbError::ParamOutOfRange(todo_id as u64))
            && final(db)@ == old(db)@,
        todo_id <= i64::MAX ==> final(db)@.len() > old(db)@.len() && final(db)@.take(old(db)@.len() + 1int)
            == old(db)@.push(requests::unlink_all_tags_req(todo_id)),
        r is Ok ==> exists|tag_ids: Seq<i64>|
            tag_ids.len() == tags@.len() && final(db)@ == old(db)@.push(
                requests::unlink_all_tags_req(todo_id),
            ) + #[trigger] tags_reqs(todo_id, name_texts(tags@), tag_ids),
        r matches Err(e) ==> e is Sqlite || e is NoRows || (todo_id > i64::MAX && e
            == DbError::ParamOutOfRange(todo_id as u64)),
{
    let req = match requests::unlink_all_tags_request(todo_id) {
        Ok(q) => q,
        Err(e) => return Err(e),
    };
    match run_unit(db, &req) {
        Ok(()) => {},
        Err(e) => return Err(e),
    }
    let ghost start = db@;
    let ghost names = name_texts(tags@);
    let ghost mut ids: Seq<i64> = Seq::empty();
    let n: usize = tags.len();
    let mut i: usize = 0;
    while i < n
        invariant
            n == tags@.len(),
            names == name_texts(tags@),
            todo_id <= i64::MAX,
            start == old(db)@.push(requests::unlink_all_tags_req(todo_id)),
            i <= n,
            ids.len() == i,
            db@ == start + tags_reqs(todo_id, names.take(i as int), ids),
        decreases n - i,
    {
        let ghost before = db@;
        match add_tag(db, todo_id, tags[i].as_str()) {
            Ok(()) => {},
            Err(e) => {
                assert(db@.take(old(db)@.len() + 1int) =~= start);
                return Err(e);
            },
        }
        let ghost nm = names[i as int];
        assert(nm == tags@[i as int]@);
        let ghost t: i64 = if normalized_tag(nm).len() == 0 {
            0
        } else {
            choose|t: i64| db@ == before + add_tag_reqs(todo_id, normalized_tag(nm), t)
        };
        proof {
            let ids2 = ids.push(t);
            lemma_tags_reqs_prefix(todo_id, names.take(i as int), ids, ids2);
            assert(names.take(i + 1).drop_last() =~= names.take(i as int));
            assert(names.take(i + 1).last() == nm);
            assert(db@ =~= start + tags_reqs(todo_id, names.take(i + 1), ids2));
            ids = ids2;
        }
        i = i + 1;
    }
    assert(names.take(n as int) =~= names);
    Ok(())
}

/// The file name of the todo database that the application opens.
pub fn get_db_path() -> (path: String)
    ensures
        path@ == "todo.db"@,
{
    String::from_str("todo.db")
}

} // verus!
