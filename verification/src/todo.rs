use vstd::prelude::*;
use crate::error::DbError;

verus! {

/// A todo item as the application shows it.
#[derive(Clone, Debug)]
pub struct TodoItem {
    pub id: usize,
    pub title: String,
    pub description: String,
    pub completed: bool,
    pub readonly: bool,
    /// 1 is the highest priority, 5 the lowest.
    pub priority: u8,
    /// Position in the list of active items; smaller comes first.
    pub order_index: i32,
    pub creation_date: u64,
    pub changed_date: u64,
    /// Set while the item is in the trash.
    pub deletion_date: Option<u64>,
    pub tags: Vec<String>,
}

pub open spec fn fits_usize(v: i64) -> bool {
    0 <= v <= usize::MAX
}

pub open spec fn fits_i32(v: i64) -> bool {
    i32::MIN <= v <= i32::MAX
}

pub open spec fn fits_u8(v: i64) -> bool {
    0 <= v <= u8::MAX
}

pub open spec fn fits_u64(v: i64) -> bool {
    0 <= v
}

/// The integer `v` read from column `column` narrowed to usize; the error
/// names the column and the value when it does not fit.
pub fn narrow_usize(v: i64, column: usize) -> (r: Result<usize, DbError>)
    ensures
        match r {
            Ok(x) => fits_usize(v) && x == v,
            Err(e) => !fits_usize(v) && e == DbError::ColumnOutOfRange(column, v),
        },
{
    if 0 <= v && (v as u64) <= (usize::MAX as u64) {
        Ok(v as usize)
    } else {
        Err(DbError::ColumnOutOfRange(column, v))
    }
}

/// The integer `v` read from column `column` narrowed to i32; the error
/// names the column and the value when it does not fit.
pub fn narrow_i32(v: i64, column: usize) -> (r: Result<i32, DbError>)
    ensures
        match r {
            Ok(x) => fits_i32(v) && x == v,
            Err(e) => !fits_i32(v) && e == DbError::ColumnOutOfRange(column, v),
        },
{
    if i32::MIN as i64 <= v && v <= i32::MAX as i64 {
        Ok(v as i32)
    } else {
        Err(DbError::ColumnOutOfRange(column, v))
    }
}

/// The integer `v` read from column `column` narrowed to u8; the error
/// names the column and the value when it does not fit.
pub fn narrow_u8(v: i64, column: usize) -> (r: Result<u8, DbError>)
    ensures
        match r {
            Ok(x) => fits_u8(v) && x == v,
            Err(e) => !fits_u8(v) && e == DbError::ColumnOutOfRange(column, v),
        },
{
    if 0 <= v && v <= u8::MAX as i64 {
        Ok(v as u8)
    } else {
        Err(DbError::ColumnOutOfRange(column, v))
    }
}

/// The integer `v` read from column `column` narrowed to u64; the error
/// names the column and the value when it does not fit.
pub fn narrow_u64(v: i64, column: usize) -> (r: Result<u64, DbError>)
    ensures
        match r {
            Ok(x) => fits_u64(v) && x == v,
            Err(e) => !fits_u64(v) && e == DbError::ColumnOutOfRange(column, v),
        },
{
    if 0 <= v {
        Ok(v as u64)
    } else {
        Err(DbError::ColumnOutOfRange(column, v))
    }
}

/// Every integer of `item` that is stored in the database fits SQLite's
/// signed 64-bit integers.
pub open spec fn fits_storage(item: TodoItem) -> bool {
    &&& item.id <= i64::MAX
    &&& item.creation_date <= i64::MAX
    &&& item.changed_date <= i64::MAX
    &&& match item.deletion_date {
        Some(d) => d <= i64::MAX,
        None => true,
    }
}

/// Gives each item the tag list at the same position.
pub fn attach_tags(todos: Vec<TodoItem>, tags: Vec<Vec<String>>) -> (r: Vec<TodoItem>)
    requires
        todos.len() == tags.len(),
    ensures
        r.len() == todos.len(),
        forall|i: int| 0 <= i < r.len() ==> #[trigger] r@[i] == (TodoItem { tags: tags@[i], ..todos@[i] }),
{
    let ghost all = todos@;
    let ghost all_tags = tags@;
    let mut todos = todos;
    let mut tags = tags;
    let mut out: Vec<TodoItem> = Vec::new();
    let n: usize = todos.len();
    let mut k: usize = 0;
    while k < n
        invariant
            n == all.len(),
            n == all_tags.len(),
            k <= n,
            todos@ == all.skip(k as int),
            tags@ == all_tags.skip(k as int),
            out.len() == k,
            forall|i: int| 0 <= i < k ==> #[trigger] out@[i] == (TodoItem { tags: all_tags[i], ..all[i] }),
        decreases n - k,
    {
        let mut t = todos.remove(0);
        let g = tags.remove(0);
        assert(all.skip(k as int).remove(0) =~= all.skip(k + 1));
        assert(all_tags.skip(k as int).remove(0) =~= all_tags.skip(k + 1));
        assert(t == all[k as int]);
        assert(g == all_tags[k as int]);
        t.tags = g;
        out.push(t);
        k = k + 1;
    }
    out
}

} // verus!
