use vstd::prelude::*;
use crate::requests::{Request, RequestView};

verus! {

/// An open SQLite database handle of the `rusqlite` crate.
#[verifier::external_type_specification]
#[verifier::external_body]
pub struct ExConnection(rusqlite::Connection);

/// The error type of the `rusqlite` crate.
#[verifier::external_type_specification]
#[verifier::external_body]
pub struct ExError(rusqlite::Error);

/// A prepared statement of the `rusqlite` crate.
#[verifier::external_type_specification]
#[verifier::external_body]
pub struct ExStatement<'conn>(rusqlite::Statement<'conn>);

/// The rows a running query hands out, of the `rusqlite` crate.
#[verifier::external_type_specification]
#[verifier::external_body]
pub struct ExRows<'stmt>(rusqlite::Rows<'stmt>);

/// One result row of the `rusqlite` crate.
#[verifier::external_type_specification]
#[verifier::external_body]
pub struct ExRow<'stmt>(rusqlite::Row<'stmt>);

/// A value bound to a `?N` placeholder of a statement.
#[derive(Clone)]
pub enum SqlParam {
    Integer(i64),
    Text(String),
}

/// What a parameter stands for: an integer, or a text given by its characters.
pub enum ParamView {
    Integer(i64),
    Text(Seq<char>),
}

impl View for SqlParam {
    type V = ParamView;

    open spec fn view(&self) -> ParamView {
        match self {
            SqlParam::Integer(i) => ParamView::Integer(*i),
            SqlParam::Text(s) => ParamView::Text(s@),
        }
    }
}

/// The parameters of a statement, each by its view.
pub open spec fn params_view(p: Seq<SqlParam>) -> Seq<ParamView> {
    p.map_values(|x: SqlParam| x@)
}

/// What a reading call on SQLite handed back: that a query gave a row, that
/// it had no more rows, the integer, integer-or-NULL or text read from
/// column `.0` of the current row, or the rowid of the latest INSERT.
pub enum Answer {
    Row,
    Done,
    Int(usize, i64),
    OptInt(usize, Option<i64>),
    Text(usize, Seq<char>),
    RowId(i64),
}

/// The open connection to the SQLite database.
pub struct Handle {
    conn: rusqlite::Connection,
}

/// The record of a connection: the statements handed to SQLite through it,
/// in the order they were handed over, and the answers read back from it,
/// in the order they were read. Only the calls below extend it.
pub struct Log {
    sent: Ghost<Seq<RequestView>>,
    read: Ghost<Seq<Answer>>,
}

impl Log {
    /// The statements handed to SQLite so far.
    pub closed spec fn sent(&self) -> Seq<RequestView> {
        self.sent@
    }

    /// The answers read back so far.
    pub closed spec fn reads(&self) -> Seq<Answer> {
        self.read@
    }
}

/// A SQLite database of todos: the connection and its record.
pub struct Database {
    pub handle: Handle,
    pub log: Log,
}

impl View for Database {
    type V = Seq<RequestView>;

    /// The statements handed to SQLite so far.
    open spec fn view(&self) -> Seq<RequestView> {
        self.log.sent()
    }
}

impl Database {
    /// The answers read back from SQLite so far.
    pub open spec fn reads(&self) -> Seq<Answer> {
        self.log.reads()
    }
}

/// A statement prepared for a query, together with the parameters it is to
/// be run with.
pub struct Query<'c> {
    stmt: rusqlite::Statement<'c>,
    params: Vec<SqlParam>,
}

/// `rusqlite::Connection::open`: opens (or creates) the database file at
/// `path`. Whether it succeeds depends on the file system; a database just
/// opened has been handed no statement.
#[verifier::external_body]
pub(crate) fn open_database(path: &str) -> (r: Result<Database, rusqlite::Error>)
    ensures
        r matches Ok(db) ==> db@ == Seq::<RequestView>::empty() && db.reads() == Seq::<Answer>::empty(),
{
    match rusqlite::Connection::open(path) {
        Ok(conn) => Ok(Database {
            handle: Handle { conn },
            log: Log { sent: Ghost(Seq::empty()), read: Ghost(Seq::empty()) },
        }),
        Err(e) => Err(e),
    }
}

/// `rusqlite::Connection::execute`: runs the statement `req.sql` with the
/// parameters `req.params` bound in order. The statement is handed over, so
/// it joins the record; whether SQLite runs it depends on the database, so
/// nothing is stated of the result. Nothing is read back.
#[verifier::external_body]
pub(crate) fn execute(db: &mut Database, req: &Request) -> (r: Result<usize, rusqlite::Error>)
    ensures
        final(db)@ == old(db)@.push(req@),
        final(db).reads() == old(db).reads(),
{
    let values: Vec<rusqlite::types::Value> = req.params.iter().map(|p| match p {
        SqlParam::Integer(i) => rusqlite::types::Value::Integer(*i),
        SqlParam::Text(s) => rusqlite::types::Value::Text(s.clone()),
    }).collect();
    db.handle.conn.execute(req.sql, rusqlite::params_from_iter(values))
}

/// `rusqlite::Connection::prepare` of `req.sql`, keeping `req.params` to run
/// the query with. The statement is handed over, so it joins the record;
/// whether SQLite accepts it depends on the database. Nothing is read back.
#[verifier::external_body]
pub(crate) fn prepare<'c>(handle: &'c Handle, log: &mut Log, req: &Request) -> (r: Result<
    Query<'c>,
    rusqlite::Error,
>)
    ensures
        final(log).sent() == old(log).sent().push(req@),
        final(log).reads() == old(log).reads(),
{
    match handle.conn.prepare(req.sql) {
        Ok(stmt) => Ok(Query { stmt, params: req.params.clone() }),
        Err(e) => Err(e),
    }
}

/// `rusqlite::Statement::query`: binds the parameters kept with the prepared
/// statement, in order, and starts the query. The outcome depends on the
/// database, so nothing is stated of it.
#[verifier::external_body]
pub(crate) fn query<'s, 'c>(q: &'s mut Query<'c>) -> (r: Result<rusqlite::Rows<'s>, rusqlite::Error>) {
    let values: Vec<rusqlite::types::Value> = q.params.iter().map(|p| match p {
        SqlParam::Integer(i) => rusqlite::types::Value::Integer(*i),
        SqlParam::Text(s) => rusqlite::types::Value::Text(s.clone()),
    }).collect();
    q.stmt.query(rusqlite::params_from_iter(values))
}

/// `rusqlite::Rows::next`: the next result row, `None` once all rows were
/// handed out. What comes back depends on the database contents; the record
/// notes whether a row came or the rows ran out.
#[verifier::external_body]
pub(crate) fn next_row<'r, 's>(rows: &'r mut rusqlite::Rows<'s>, log: &mut Log) -> (r: Result<
    Option<&'r rusqlite::Row<'s>>,
    rusqlite::Error,
>)
    ensures
        final(log).sent() == old(log).sent(),
        r matches Ok(Some(_)) ==> final(log).reads() == old(log).reads().push(Answer::Row),
        r matches Ok(None) ==> final(log).reads() == old(log).reads().push(Answer::Done),
        r is Err ==> final(log).reads() == old(log).reads(),
{
    rows.next()
}

/// `rusqlite::Row::get::<usize, i64>`: the column read as an integer.
/// What it reads depends on the database contents; the record notes the
/// integer read and its column.
#[verifier::external_body]
pub(crate) fn column_i64(row: &rusqlite::Row, idx: usize, log: &mut Log) -> (r: Result<i64, rusqlite::Error>)
    ensures
        final(log).sent() == old(log).sent(),
        r matches Ok(v) ==> final(log).reads() == old(log).reads().push(Answer::Int(idx, v)),
        r is Err ==> final(log).reads() == old(log).reads(),
{
    row.get::<usize, i64>(idx)
}

/// `rusqlite::Row::get::<usize, Option<i64>>`: the column read as an integer
/// or NULL. What it reads depends on the database contents; the record notes
/// what was read and its column.
#[verifier::external_body]
pub(crate) fn column_opt_i64(row: &rusqlite::Row, idx: usize, log: &mut Log) -> (r: Result<
    Option<i64>,
    rusqlite::Error,
>)
    ensures
        final(log).sent() == old(log).sent(),
        r matches Ok(v) ==> final(log).reads() == old(log).reads().push(Answer::OptInt(idx, v)),
        r is Err ==> final(log).reads() == old(log).reads(),
{
    row.get::<usize, Option<i64>>(idx)
}

/// `rusqlite::Row::get::<usize, String>`: the column read as text.
/// What it reads depends on the database contents; the record notes the
/// text read and its column.
#[verifier::external_body]
pub(crate) fn column_text(row: &rusqlite::Row, idx: usize, log: &mut Log) -> (r: Result<String, rusqlite::Error>)
    ensures
        final(log).sent() == old(log).sent(),
        r matches Ok(v) ==> final(log).reads() == old(log).reads().push(Answer::Text(idx, v@)),
        r is Err ==> final(log).reads() == old(log).reads(),
{
    row.get::<usize, String>(idx)
}

/// `rusqlite::Connection::last_insert_rowid`: the rowid of the most recent
/// successful INSERT on this connection, which depends on the database
/// contents; the record notes the rowid read.
#[verifier::external_body]
pub(crate) fn last_insert_rowid(db: &mut Database) -> (r: i64)
    ensures
        final(db)@ == old(db)@,
        final(db).reads() == old(db).reads().push(Answer::RowId(r)),
{
    db.handle.conn.last_insert_rowid()
}

} // verus!
