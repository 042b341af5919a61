use todo_app::error::DbError;
use todo_app::sqlite::SqlParam;
use todo_app::statements::{
    date_id_params, flag_date_id_params, id_integer_params, insert_todo_params, integer_param,
    todo_tag_params, update_todo_params, value_date_id_params,
};
use todo_app::todo::{attach_tags, narrow_i32, narrow_u64, narrow_u8, narrow_usize, TodoItem};

fn as_text(p: &SqlParam) -> String {
    match p {
        SqlParam::Text(s) => s.clone(),
        SqlParam::Integer(i) => panic!("expected text, found integer {}", i),
    }
}

fn as_int(p: &SqlParam) -> i64 {
    match p {
        SqlParam::Integer(i) => *i,
        SqlParam::Text(s) => panic!("expected integer, found text {}", s),
    }
}

#[test]
fn narrowing_keeps_values_that_fit() {
    assert_eq!(narrow_usize(5, 0).unwrap(), 5);
    assert_eq!(narrow_i32(-3, 6).unwrap(), -3);
    assert_eq!(narrow_i32(i32::MIN as i64, 3).unwrap(), i32::MIN);
    assert_eq!(narrow_u8(255, 5).unwrap(), 255);
    assert_eq!(narrow_u64(i64::MAX, 7).unwrap(), i64::MAX as u64);
}

#[test]
fn narrowing_names_column_and_value() {
    assert!(matches!(narrow_usize(-1, 0), Err(DbError::ColumnOutOfRange(0, -1))));
    assert!(matches!(narrow_i32(1 << 40, 3), Err(DbError::ColumnOutOfRange(3, v)) if v == 1 << 40));
    assert!(matches!(narrow_i32(i64::MIN, 4), Err(DbError::ColumnOutOfRange(4, i64::MIN))));
    assert!(matches!(narrow_u8(256, 5), Err(DbError::ColumnOutOfRange(5, 256))));
    assert!(matches!(narrow_u8(-1, 5), Err(DbError::ColumnOutOfRange(5, -1))));
    assert!(matches!(narrow_u64(-5, 7), Err(DbError::ColumnOutOfRange(7, -5))));
}

#[test]
fn integer_param_refuses_values_above_i64() {
    assert_eq!(as_int(&integer_param(i64::MAX as u64).unwrap()), i64::MAX);
    assert!(matches!(integer_param(i64::MAX as u64 + 1), Err(DbError::ParamOutOfRange(v)) if v == i64::MAX as u64 + 1));
}

#[test]
fn insert_params_bind_in_order() {
    let p = insert_todo_params("t", "d", 4, -2, 10, 11).unwrap();
    assert_eq!(p.len(), 6);
    assert_eq!(as_text(&p[0]), "t");
    assert_eq!(as_text(&p[1]), "d");
    assert_eq!(as_int(&p[2]), 4);
    assert_eq!(as_int(&p[3]), -2);
    assert_eq!(as_int(&p[4]), 10);
    assert_eq!(as_int(&p[5]), 11);
}

#[test]
fn insert_params_refuse_first_oversized_date() {
    assert!(matches!(insert_todo_params("t", "d", 3, 0, u64::MAX, u64::MAX - 1), Err(DbError::ParamOutOfRange(u64::MAX))));
    assert!(matches!(insert_todo_params("t", "d", 3, 0, 1, u64::MAX - 1), Err(DbError::ParamOutOfRange(v)) if v == u64::MAX - 1));
}

#[test]
fn update_params_use_decimal_text() {
    let p = update_todo_params(42, "title", "desc", 1700000000);
    assert_eq!(p.len(), 4);
    assert_eq!(as_text(&p[0]), "title");
    assert_eq!(as_text(&p[1]), "desc");
    assert_eq!(as_text(&p[2]), "1700000000");
    assert_eq!(as_text(&p[3]), "42");
}

#[test]
fn flag_params_use_one_and_zero() {
    let on = flag_date_id_params(true, 9, 3);
    assert_eq!(as_text(&on[0]), "1");
    assert_eq!(as_text(&on[1]), "9");
    assert_eq!(as_text(&on[2]), "3");
    let off = flag_date_id_params(false, 9, 3);
    assert_eq!(as_text(&off[0]), "0");
}

#[test]
fn date_id_params_are_text() {
    let p = date_id_params(u64::MAX, 8);
    assert_eq!(as_text(&p[0]), "18446744073709551615");
    assert_eq!(as_text(&p[1]), "8");
}

#[test]
fn value_params_check_date_then_id() {
    let p = value_date_id_params(-9, 5, 6).unwrap();
    assert_eq!(as_int(&p[0]), -9);
    assert_eq!(as_int(&p[1]), 5);
    assert_eq!(as_int(&p[2]), 6);
    assert!(matches!(value_date_id_params(1, u64::MAX, usize::MAX), Err(DbError::ParamOutOfRange(u64::MAX))));
    assert!(matches!(value_date_id_params(1, 5, usize::MAX), Err(DbError::ParamOutOfRange(v)) if v == usize::MAX as u64));
}

#[test]
fn id_params_refuse_large_ids() {
    assert_eq!(as_int(&id_integer_params(12).unwrap()[0]), 12);
    assert!(id_integer_params(usize::MAX).is_err());
    let p = todo_tag_params(3, -4).unwrap();
    assert_eq!(as_int(&p[0]), 3);
    assert_eq!(as_int(&p[1]), -4);
    assert!(matches!(todo_tag_params(usize::MAX, 1), Err(DbError::ParamOutOfRange(_))));
}

fn item(id: usize) -> TodoItem {
    TodoItem {
        id,
        title: "Buy milk".to_string(),
        description: String::new(),
        completed: false,
        readonly: false,
        priority: 3,
        order_index: 0,
        creation_date: 1,
        changed_date: 1,
        deletion_date: None,
        tags: Vec::new(),
    }
}

#[test]
fn attach_tags_pairs_by_position() {
    let tagged = attach_tags(vec![item(1), item(2)], vec![vec!["a".to_string()], vec![]]);
    assert_eq!(tagged.len(), 2);
    assert_eq!(tagged[0].id, 1);
    assert_eq!(tagged[0].tags, vec!["a".to_string()]);
    assert_eq!(tagged[1].id, 2);
    assert!(tagged[1].tags.is_empty());
    assert_eq!(tagged[1].title, "Buy milk");
}
