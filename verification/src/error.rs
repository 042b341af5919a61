use vstd::prelude::*;

verus! {

/// Why a database operation failed.
#[derive(Debug)]
pub enum DbError {
    /// SQLite (through `rusqlite`) reported an error.
    Sqlite(rusqlite::Error),
    /// A `u64` or `usize` argument is above `i64::MAX`, so SQLite cannot
    /// store it as an integer.
    ParamOutOfRange(u64),
    /// Column `.0` of a result row held the integer `.1`, which does not fit
    /// the field it is read into.
    ColumnOutOfRange(usize, i64),
    /// A query that must give one row gave none.
    NoRows,
}

} // verus!
