use vstd::prelude::*;
use crate::error::DbError;
use crate::sqlite::{SqlParam, ParamView, params_view};
use crate::text::{decimal, decimal_string};

verus! {

pub const CREATE_TODOS_TABLE: &'static str = "CREATE TABLE IF NOT EXISTS todos (
            id INTEGER PRIMARY KEY AUTOINCREMENT,
            title TEXT NOT NULL,
            description TEXT,
            completed INTEGER DEFAULT 0,
            readonly INTEGER DEFAULT 0,
            priority INTEGER DEFAULT 3,
            order_index INTEGER DEFAULT 0,
            creation_date INTEGER NOT NULL,
            changed_date INTEGER NOT NULL,
            deletion_date INTEGER
        )";

pub const CREATE_TAGS_TABLE: &'static str = "CREATE TABLE IF NOT EXISTS tags (
            id INTEGER PRIMARY KEY AUTOINCREMENT,
            name TEXT NOT NULL UNIQUE
        )";

pub const CREATE_TODO_TAGS_TABLE: &'static str = "CREATE TABLE IF NOT EXISTS todo_tags (
            todo_id INTEGER NOT NULL,
            tag_id INTEGER NOT NULL,
            PRIMARY KEY (todo_id, tag_id),
            FOREIGN KEY (todo_id) REFERENCES todos(id) ON DELETE CASCADE,
            FOREIGN KEY (tag_id) REFERENCES tags(id) ON DELETE CASCADE
        )";

pub const SELECT_ACTIVE_TODOS: &'static str = "SELECT id, title, description, completed, readonly, priority, order_index, creation_date, changed_date, deletion_date
         FROM todos WHERE deletion_date IS NULL ORDER BY order_index ASC";

pub const SELECT_TRASHED_TODOS: &'static str = "SELECT id, title, description, completed, readonly, priority, order_index, creation_date, changed_date, deletion_date
         FROM todos WHERE deletion_date IS NOT NULL ORDER BY deletion_date DESC";

pub const SELECT_TAGS_OF_TODO: &'static str = "SELECT t.name FROM tags t
         INNER JOIN todo_tags tt ON t.id = tt.tag_id
         WHERE tt.todo_id = ?1";

pub const INSERT_TODO: &'static str = "INSERT INTO todos (title, description, completed, readonly, priority, order_index, creation_date, changed_date) VALUES (?1, ?2, 0, 0, ?3, ?4, ?5, ?6)";

pub const UPDATE_TODO: &'static str = "UPDATE todos SET title = ?1, description = ?2, changed_date = ?3 WHERE id = ?4";

pub const UPDATE_ORDER_INDEX: &'static str = "UPDATE todos SET order_index = ?1, changed_date = ?2 WHERE id = ?3";

pub const UPDATE_COMPLETED: &'static str = "UPDATE todos SET completed = ?1, changed_date = ?2 WHERE id = ?3";

pub const UPDATE_READONLY: &'static str = "UPDATE todos SET readonly = ?1, changed_date = ?2 WHERE id = ?3";

pub const UPDATE_PRIORITY: &'static str = "UPDATE todos SET priority = ?1, changed_date = ?2 WHERE id = ?3";

pub const SELECT_ALL_TAGS: &'static str = "SELECT name FROM tags ORDER BY name";

pub const SELECT_USED_TAGS: &'static str = "SELECT DISTINCT t.name FROM tags t
         INNER JOIN todo_tags tt ON t.id = tt.tag_id
         INNER JOIN todos d ON tt.todo_id = d.id
         WHERE d.deletion_date IS NULL
         ORDER BY t.name";

pub const SOFT_DELETE_TODO: &'static str = "UPDATE todos SET deletion_date = ?1 WHERE id = ?2";

pub const RESTORE_TODO: &'static str = "UPDATE todos SET deletion_date = NULL, changed_date = ?1 WHERE id = ?2";

pub const DELETE_TODO: &'static str = "DELETE FROM todos WHERE id = ?1";

pub const EMPTY_TRASH: &'static str = "DELETE FROM todos WHERE deletion_date IS NOT NULL";

pub const INSERT_TAG: &'static str = "INSERT OR IGNORE INTO tags (name) VALUES (?1)";

pub const SELECT_TAG_ID: &'static str = "SELECT id FROM tags WHERE name = ?1";

pub const LINK_TAG: &'static str = "INSERT OR IGNORE INTO todo_tags (todo_id, tag_id) VALUES (?1, ?2)";

pub const UNLINK_TAG: &'static str = "DELETE FROM todo_tags WHERE todo_id = ?1 AND tag_id = ?2";

pub const UNLINK_ALL_TAGS: &'static str = "DELETE FROM todo_tags WHERE todo_id = ?1";

/// A `u64` (or `usize`) bound as an integer: SQLite integers are `i64`, so a
/// value above `i64::MAX` is refused, as `rusqlite` refuses it.
pub fn integer_param(v: u64) -> (r: Result<SqlParam, DbError>)
    ensures
        match r {
            Ok(p) => v <= i64::MAX && p@ == ParamView::Integer(v as i64),
            Err(e) => v > i64::MAX && e == DbError::ParamOutOfRange(v),
        },
{
    if v <= i64::MAX as u64 {
        Ok(SqlParam::Integer(v as i64))
    } else {
        Err(DbError::ParamOutOfRange(v))
    }
}

/// A number bound as its decimal text.
pub fn decimal_param(v: u64) -> (r: SqlParam)
    ensures
        r@ == ParamView::Text(decimal(v as nat)),
{
    SqlParam::Text(decimal_string(v))
}

/// A string bound as text.
pub fn text_param(s: &str) -> (r: SqlParam)
    ensures
        r@ == ParamView::Text(s@),
{
    SqlParam::Text(String::from_str(s))
}

/// The text that stores a flag: "1" for set, "0" for clear.
pub open spec fn flag_text(b: bool) -> Seq<char> {
    if b {
        seq!['1']
    } else {
        seq!['0']
    }
}

/// A flag bound as the text "1" or "0".
pub fn flag_param(b: bool) -> (r: SqlParam)
    ensures
        r@ == ParamView::Text(flag_text(b)),
{
    proof {
        reveal_strlit("1");
        reveal_strlit("0");
        assert("1"@ =~= seq!['1']);
        assert("0"@ =~= seq!['0']);
    }
    if b {
        SqlParam::Text(String::from_str("1"))
    } else {
        SqlParam::Text(String::from_str("0"))
    }
}

/// Parameters of `INSERT_TODO`: title, description, priority, order index,
/// creation date and change date; the dates are bound as integers.
pub fn insert_todo_params(
    title: &str,
    description: &str,
    priority: u8,
    order_index: i32,
    creation_date: u64,
    changed_date: u64,
) -> (r: Result<Vec<SqlParam>, DbError>)
    ensures
        match r {
            Ok(p) => creation_date <= i64::MAX && changed_date <= i64::MAX && params_view(p@)
                == seq![
                ParamView::Text(title@),
                ParamView::Text(description@),
                ParamView::Integer(priority as i64),
                ParamView::Integer(order_index as i64),
                ParamView::Integer(creation_date as i64),
                ParamView::Integer(changed_date as i64),
            ],
            Err(e) => if creation_date > i64::MAX {
                e == DbError::ParamOutOfRange(creation_date)
            } else {
                changed_date > i64::MAX && e == DbError::ParamOutOfRange(changed_date)
            },
        },
{
    let c = match integer_param(creation_date) {
        Ok(p) => p,
        Err(e) => return Err(e),
    };
    let d = match integer_param(changed_date) {
        Ok(p) => p,
        Err(e) => return Err(e),
    };
    let mut p: Vec<SqlParam> = Vec::new();
    p.push(text_param(title));
    p.push(text_param(description));
    p.push(SqlParam::Integer(priority as i64));
    p.push(SqlParam::Integer(order_index as i64));
    p.push(c);
    p.push(d);
    assert(params_view(p@) =~= seq![
        ParamView::Text(title@),
        ParamView::Text(description@),
        ParamView::Integer(priority as i64),
        ParamView::Integer(order_index as i64),
        ParamView::Integer(creation_date as i64),
        ParamView::Integer(changed_date as i64),
    ]);
    Ok(p)
}


/// Parameters of `UPDATE_TODO`: title, description, then the change date and
/// the id as decimal text.
pub fn update_todo_params(id: usize, title: &str, description: &str, changed_date: u64) -> (r: Vec<
    SqlParam,
>)
    ensures
        params_view(r@) == seq![
            ParamView::Text(title@),
            ParamView::Text(description@),
            ParamView::Text(decimal(changed_date as nat)),
            ParamView::Text(decimal(id as nat)),
        ],
{
    let mut p: Vec<SqlParam> = Vec::new();
    p.push(text_param(title));
    p.push(text_param(description));
    p.push(decimal_param(changed_date));
    p.push(decimal_param(id as u64));
    assert(params_view(p@) =~= seq![
        ParamView::Text(title@),
        ParamView::Text(description@),
        ParamView::Text(decimal(changed_date as nat)),
        ParamView::Text(decimal(id as nat)),
    ]);
    p
}

/// Parameters `[value, changed_date, id]` where the value is an integer and
/// the date and the id are bound as integers too (in that order of checking).
pub fn value_date_id_params(value: i64, changed_date: u64, id: usize) -> (r: Result<
    Vec<SqlParam>,
    DbError,
>)
    ensures
        match r {
            Ok(p) => changed_date <= i64::MAX && id <= i64::MAX && params_view(p@) == seq![
                ParamView::Integer(value),
                ParamView::Integer(changed_date as i64),
                ParamView::Integer(id as i64),
            ],
            Err(e) => if changed_date > i64::MAX {
                e == DbError::ParamOutOfRange(changed_date)
            } else {
                id > i64::MAX && e == DbError::ParamOutOfRange(id as u64)
            },
        },
{
    let d = match integer_param(changed_date) {
        Ok(p) => p,
        Err(e) => return Err(e),
    };
    let i = match integer_param(id as u64) {
        Ok(p) => p,
        Err(e) => return Err(e),
    };
    let mut p: Vec<SqlParam> = Vec::new();
    p.push(SqlParam::Integer(value));
    p.push(d);
    p.push(i);
    assert(params_view(p@) =~= seq![
        ParamView::Integer(value),
        ParamView::Integer(changed_date as i64),
        ParamView::Integer(id as i64),
    ]);
    Ok(p)
}

/// Parameters `[flag, changed_date, id]`: the flag as "1" or "0", the date and
/// the id as decimal text.
pub fn flag_date_id_params(flag: bool, changed_date: u64, id: usize) -> (r: Vec<SqlParam>)
    ensures
        params_view(r@) == seq![
            ParamView::Text(flag_text(flag)),
            ParamView::Text(decimal(changed_date as nat)),
            ParamView::Text(decimal(id as nat)),
        ],
{
    let mut p: Vec<SqlParam> = Vec::new();
    p.push(flag_param(flag));
    p.push(decimal_param(changed_date));
    p.push(decimal_param(id as u64));
    assert(params_view(p@) =~= seq![
        ParamView::Text(flag_text(flag)),
        ParamView::Text(decimal(changed_date as nat)),
        ParamView::Text(decimal(id as nat)),
    ]);
    p
}

/// Parameters `[date, id]`, both as decimal text.
pub fn date_id_params(date: u64, id: usize) -> (r: Vec<SqlParam>)
    ensures
        params_view(r@) == seq![
            ParamView::Text(decimal(date as nat)),
            ParamView::Text(decimal(id as nat)),
        ],
{
    let mut p: Vec<SqlParam> = Vec::new();
    p.push(decimal_param(date));
    p.push(decimal_param(id as u64));
    assert(params_view(p@) =~= seq![
        ParamView::Text(decimal(date as nat)),
        ParamView::Text(decimal(id as nat)),
    ]);
    p
}

/// Parameters `[id]`, the id as decimal text.
pub fn id_text_params(id: usize) -> (r: Vec<SqlParam>)
    ensures
        params_view(r@) == seq![ParamView::Text(decimal(id as nat))],
{
    let mut p: Vec<SqlParam> = Vec::new();
    p.push(decimal_param(id as u64));
    assert(params_view(p@) =~= seq![ParamView::Text(decimal(id as nat))]);
    p
}

/// Parameters `[id]`, the id as an integer.
pub fn id_integer_params(id: usize) -> (r: Result<Vec<SqlParam>, DbError>)
    ensures
        match r {
            Ok(p) => id <= i64::MAX && params_view(p@) == seq![ParamView::Integer(id as i64)],
            Err(e) => id > i64::MAX && e == DbError::ParamOutOfRange(id as u64),
        },
{
    let i = match integer_param(id as u64) {
        Ok(p) => p,
        Err(e) => return Err(e),
    };
    let mut p: Vec<SqlParam> = Vec::new();
    p.push(i);
    assert(params_view(p@) =~= seq![ParamView::Integer(id as i64)]);
    Ok(p)
}

/// Parameters `[todo_id, tag_id]`, both as integers.
pub fn todo_tag_params(todo_id: usize, tag_id: i64) -> (r: Result<Vec<SqlParam>, DbError>)
    ensures
        match r {
            Ok(p) => todo_id <= i64::MAX && params_view(p@) == seq![
                ParamView::Integer(todo_id as i64),
                ParamView::Integer(tag_id),
            ],
            Err(e) => todo_id > i64::MAX && e == DbError::ParamOutOfRange(todo_id as u64),
        },
{
    let i = match integer_param(todo_id as u64) {
        Ok(p) => p,
        Err(e) => return Err(e),
    };
    let mut p: Vec<SqlParam> = Vec::new();
    p.push(i);
    p.push(SqlParam::Integer(tag_id));
    assert(params_view(p@) =~= seq![
        ParamView::Integer(todo_id as i64),
        ParamView::Integer(tag_id),
    ]);
    Ok(p)
}

/// Parameters `[text]`.
pub fn text_params(s: &str) -> (r: Vec<SqlParam>)
    ensures
        params_view(r@) == seq![ParamView::Text(s@)],
{
    let mut p: Vec<SqlParam> = Vec::new();
    p.push(text_param(s));
    assert(params_view(p@) =~= seq![ParamView::Text(s@)]);
    p
}

} // verus!
