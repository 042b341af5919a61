use vstd::prelude::*;
use crate::error::DbError;
use crate::sqlite::{SqlParam, ParamView, params_view};
use crate::statements;
use crate::text::decimal;

verus! {

/// One statement handed to SQLite: its SQL text and its parameters in order.
pub struct Request {
    pub sql: &'static str,
    pub params: Vec<SqlParam>,
}

/// A statement by its text and the views of its parameters.
pub struct RequestView {
    pub sql: Seq<char>,
    pub params: Seq<ParamView>,
}

impl View for Request {
    type V = RequestView;

    open spec fn view(&self) -> RequestView {
        RequestView { sql: self.sql@, params: params_view(self.params@) }
    }
}

pub open spec fn create_todos_table_req() -> RequestView {
    RequestView { sql: statements::CREATE_TODOS_TABLE@, params: seq![] }
}

pub open spec fn create_tags_table_req() -> RequestView {
    RequestView { sql: statements::CREATE_TAGS_TABLE@, params: seq![] }
}

pub open spec fn create_todo_tags_table_req() -> RequestView {
    RequestView { sql: statements::CREATE_TODO_TAGS_TABLE@, params: seq![] }
}

/// The statements that set up an empty database, in the order they are sent.
pub open spec fn setup_reqs() -> Seq<RequestView> {
    seq![create_todos_table_req(), create_tags_table_req(), create_todo_tags_table_req()]
}

pub open spec fn select_active_req() -> RequestView {
    RequestView { sql: statements::SELECT_ACTIVE_TODOS@, params: seq![] }
}

pub open spec fn select_trashed_req() -> RequestView {
    RequestView { sql: statements::SELECT_TRASHED_TODOS@, params: seq![] }
}

pub open spec fn tags_of_todo_req(todo_id: usize) -> RequestView {
    RequestView {
        sql: statements::SELECT_TAGS_OF_TODO@,
        params: seq![ParamView::Integer(todo_id as i64)],
    }
}

pub open spec fn insert_todo_req(
    title: Seq<char>,
    description: Seq<char>,
    priority: u8,
    order_index: i32,
    creation_date: u64,
    changed_date: u64,
) -> RequestView {
    RequestView {
        sql: statements::INSERT_TODO@,
        params: seq![
            ParamView::Text(title),
            ParamView::Text(description),
            ParamView::Integer(priority as i64),
            ParamView::Integer(order_index as i64),
            ParamView::Integer(creation_date as i64),
            ParamView::Integer(changed_date as i64),
        ],
    }
}

pub open spec fn update_todo_req(
    id: usize,
    title: Seq<char>,
    description: Seq<char>,
    changed_date: u64,
) -> RequestView {
    RequestView {
        sql: statements::UPDATE_TODO@,
        params: seq![
            ParamView::Text(title),
            ParamView::Text(description),
            ParamView::Text(decimal(changed_date as nat)),
            ParamView::Text(decimal(id as nat)),
        ],
    }
}

/// An update whose parameters are an integer value, the change date and the
/// id, all bound as integers.
pub open spec fn value_update_req(sql: Seq<char>, value: i64, id: usize, changed_date: u64) -> RequestView {
    RequestView {
        sql,
        params: seq![
            ParamView::Integer(value),
            ParamView::Integer(changed_date as i64),
            ParamView::Integer(id as i64),
        ],
    }
}

pub open spec fn update_order_index_req(id: usize, order_index: i32, changed_date: u64) -> RequestView {
    value_update_req(statements::UPDATE_ORDER_INDEX@, order_index as i64, id, changed_date)
}

pub open spec fn update_priority_req(id: usize, priority: u8, changed_date: u64) -> RequestView {
    value_update_req(statements::UPDATE_PRIORITY@, priority as i64, id, changed_date)
}

/// An update of a flag: the flag as "1" or "0", then the change date and
/// the id as decimal text.
pub open spec fn flag_update_req(sql: Seq<char>, flag: bool, id: usize, changed_date: u64) -> RequestView {
    RequestView {
        sql,
        params: seq![
            ParamView::Text(statements::flag_text(flag)),
            ParamView::Text(decimal(changed_date as nat)),
            ParamView::Text(decimal(id as nat)),
        ],
    }
}

pub open spec fn update_completed_req(id: usize, completed: bool, changed_date: u64) -> RequestView {
    flag_update_req(statements::UPDATE_COMPLETED@, completed, id, changed_date)
}

pub open spec fn update_readonly_req(id: usize, readonly: bool, changed_date: u64) -> RequestView {
    flag_update_req(statements::UPDATE_READONLY@, readonly, id, changed_date)
}

pub open spec fn select_all_tags_req() -> RequestView {
    RequestView { sql: statements::SELECT_ALL_TAGS@, params: seq![] }
}

pub open spec fn select_used_tags_req() -> RequestView {
    RequestView { sql: statements::SELECT_USED_TAGS@, params: seq![] }
}

pub open spec fn soft_delete_req(id: usize, deletion_date: u64) -> RequestView {
    RequestView {
        sql: statements::SOFT_DELETE_TODO@,
        params: seq![
            ParamView::Text(decimal(deletion_date as nat)),
            ParamView::Text(decimal(id as nat)),
        ],
    }
}

pub open spec fn restore_req(id: usize, changed_date: u64) -> RequestView {
    RequestView {
        sql: statements::RESTORE_TODO@,
        params: seq![
            ParamView::Text(decimal(changed_date as nat)),
            ParamView::Text(decimal(id as nat)),
        ],
    }
}

pub open spec fn delete_todo_req(id: usize) -> RequestView {
    RequestView { sql: statements::DELETE_TODO@, params: seq![ParamView::Text(decimal(id as nat))] }
}

pub open spec fn empty_trash_req() -> RequestView {
    RequestView { sql: statements::EMPTY_TRASH@, params: seq![] }
}

pub open spec fn insert_tag_req(name: Seq<char>) -> RequestView {
    RequestView { sql: statements::INSERT_TAG@, params: seq![ParamView::Text(name)] }
}

pub open spec fn select_tag_id_req(name: Seq<char>) -> RequestView {
    RequestView { sql: statements::SELECT_TAG_ID@, params: seq![ParamView::Text(name)] }
}

pub open spec fn link_tag_req(todo_id: usize, tag_id: i64) -> RequestView {
    RequestView {
        sql: statements::LINK_TAG@,
        params: seq![ParamView::Integer(todo_id as i64), ParamView::Integer(tag_id)],
    }
}

pub open spec fn unlink_tag_req(todo_id: usize, tag_id: i64) -> RequestView {
    RequestView {
        sql: statements::UNLINK_TAG@,
        params: seq![ParamView::Integer(todo_id as i64), ParamView::Integer(tag_id)],
    }
}

pub open spec fn unlink_all_tags_req(todo_id: usize) -> RequestView {
    RequestView { sql: statements::UNLINK_ALL_TAGS@, params: seq![ParamView::Integer(todo_id as i64)] }
}

/// A statement that takes no parameters.
pub fn plain_request(sql: &'static str) -> (r: Request)
    ensures
        r@ == (RequestView { sql: sql@, params: seq![] }),
{
    let params: Vec<SqlParam> = Vec::new();
    let r = Request { sql, params };
    assert(params_view(r.params@) =~= seq![]);
    r
}

pub fn tags_of_todo_request(todo_id: usize) -> (r: Result<Request, DbError>)
    ensures
        match r {
            Ok(q) => todo_id <= i64::MAX && q@ == tags_of_todo_req(todo_id),
            Err(e) => todo_id > i64::MAX && e == DbError::ParamOutOfRange(todo_id as u64),
        },
{
    match statements::id_integer_params(todo_id) {
        Ok(params) => Ok(Request { sql: statements::SELECT_TAGS_OF_TODO, params }),
        Err(e) => Err(e),
    }
}

pub fn insert_todo_request(
    title: &str,
    description: &str,
    priority: u8,
    order_index: i32,
    creation_date: u64,
    changed_date: u64,
) -> (r: Result<Request, DbError>)
    ensures
        match r {
            Ok(q) => creation_date <= i64::MAX && changed_date <= i64::MAX && q@ == insert_todo_req(
                title@,
                description@,
                priority,
                order_index,
                creation_date,
                changed_date,
            ),
            Err(e) => if creation_date > i64::MAX {
                e == DbError::ParamOutOfRange(creation_date)
            } else {
                changed_date > i64::MAX && e == DbError::ParamOutOfRange(changed_date)
            },
        },
{
    match statements::insert_todo_params(title, description, priority, order_index, creation_date, changed_date) {
        Ok(params) => Ok(Request { sql: statements::INSERT_TODO, params }),
        Err(e) => Err(e),
    }
}

pub fn update_todo_request(id: usize, title: &str, description: &str, changed_date: u64) -> (r: Request)
    ensures
        r@ == update_todo_req(id, title@, description@, changed_date),
{
    Request {
        sql: statements::UPDATE_TODO,
        params: statements::update_todo_params(id, title, description, changed_date),
    }
}

/// `value_update_req(sql@, ..)` for a statement text `sql`.
pub fn value_update_request(sql: &'static str, value: i64, id: usize, changed_date: u64) -> (r: Result<
    Request,
    DbError,
>)
    ensures
        match r {
            Ok(q) => changed_date <= i64::MAX && id <= i64::MAX && q@ == value_update_req(
                sql@,
                value,
                id,
                changed_date,
            ),
            Err(e) => if changed_date > i64::MAX {
                e == DbError::ParamOutOfRange(changed_date)
            } else {
                id > i64::MAX && e == DbError::ParamOutOfRange(id as u64)
            },
        },
{
    match statements::value_date_id_params(value, changed_date, id) {
        Ok(params) => Ok(Request { sql, params }),
        Err(e) => Err(e),
    }
}

/// `flag_update_req(sql@, ..)` for a statement text `sql`.
pub fn flag_update_request(sql: &'static str, flag: bool, id: usize, changed_date: u64) -> (r: Request)
    ensures
        r@ == flag_update_req(sql@, flag, id, changed_date),
{
    Request { sql, params: statements::flag_date_id_params(flag, changed_date, id) }
}

pub fn soft_delete_request(id: usize, deletion_date: u64) -> (r: Request)
    ensures
        r@ == soft_delete_req(id, deletion_date),
{
    Request { sql: statements::SOFT_DELETE_TODO, params: statements::date_id_params(deletion_date, id) }
}

pub fn restore_request(id: usize, changed_date: u64) -> (r: Request)
    ensures
        r@ == restore_req(id, changed_date),
{
    Request { sql: statements::RESTORE_TODO, params: statements::date_id_params(changed_date, id) }
}

pub fn delete_todo_request(id: usize) -> (r: Request)
    ensures
        r@ == delete_todo_req(id),
{
    Request { sql: statements::DELETE_TODO, params: statements::id_text_params(id) }
}

/// `sql` with one text parameter `name`.
pub fn name_request(sql: &'static str, name: &str) -> (r: Request)
    ensures
        r@ == (RequestView { sql: sql@, params: seq![ParamView::Text(name@)] }),
{
    Request { sql, params: statements::text_params(name) }
}

/// `sql` with the parameters `todo_id` and `tag_id`, both integers.
pub fn todo_tag_request(sql: &'static str, todo_id: usize, tag_id: i64) -> (r: Result<Request, DbError>)
    ensures
        match r {
            Ok(q) => todo_id <= i64::MAX && q@ == (RequestView {
                sql: sql@,
                params: seq![ParamView::Integer(todo_id as i64), ParamView::Integer(tag_id)],
            }),
            Err(e) => todo_id > i64::MAX && e == DbError::ParamOutOfRange(todo_id as u64),
        },
{
    match statements::todo_tag_params(todo_id, tag_id) {
        Ok(params) => Ok(Request { sql, params }),
        Err(e) => Err(e),
    }
}

pub fn unlink_all_tags_request(todo_id: usize) -> (r: Result<Request, DbError>)
    ensures
        match r {
            Ok(q) => todo_id <= i64::MAX && q@ == unlink_all_tags_req(todo_id),
            Err(e) => todo_id > i64::MAX && e == DbError::ParamOutOfRange(todo_id as u64),
        },
{
    match statements::id_integer_params(todo_id) {
        Ok(params) => Ok(Request { sql: statements::UNLINK_ALL_TAGS, params }),
        Err(e) => Err(e),
    }
}

} // verus!
