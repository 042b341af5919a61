use todo_app::database::{
    add_tag, empty_trash, get_all_tags, get_db_path, get_tags_for_todo, get_used_tags, init_database,
    insert_todo, load_active_todos, load_trashed_todos, permanent_delete_todo, remove_tag,
    restore_todo, set_readonly, soft_delete_todo, toggle_todo, update_order_index, update_priority,
    update_todo, update_todo_tags,
};
use todo_app::database::Database;
use todo_app::error::DbError;

fn memory() -> Database {
    init_database(":memory:").unwrap()
}

#[test]
fn db_path_is_todo_db() {
    assert_eq!(get_db_path(), "todo.db");
}

#[test]
fn init_twice_keeps_tables() {
    let mut db = memory();
    insert_todo(&mut db, "a", "b", 3, 0, 1, 1).unwrap();
    assert_eq!(load_active_todos(&mut db).unwrap().len(), 1);
}

#[test]
fn insert_then_load_gives_the_item() {
    let mut db = memory();
    let id = insert_todo(&mut db, "Title", "Desc", 2, 5, 1000, 1001).unwrap();
    let todos = load_active_todos(&mut db).unwrap();
    assert_eq!(todos.len(), 1);
    let t = &todos[0];
    assert_eq!(t.id, id);
    assert_eq!(t.title, "Title");
    assert_eq!(t.description, "Desc");
    assert!(!t.completed);
    assert!(!t.readonly);
    assert_eq!(t.priority, 2);
    assert_eq!(t.order_index, 5);
    assert_eq!(t.creation_date, 1000);
    assert_eq!(t.changed_date, 1001);
    assert_eq!(t.deletion_date, None);
    assert!(t.tags.is_empty());
    assert!(load_trashed_todos(&mut db).unwrap().is_empty());
}

#[test]
fn ids_increase() {
    let mut db = memory();
    let a = insert_todo(&mut db, "a", "", 3, 0, 1, 1).unwrap();
    let b = insert_todo(&mut db, "b", "", 3, 0, 1, 1).unwrap();
    assert!(b > a);
}

#[test]
fn insert_refuses_dates_beyond_i64() {
    let mut db = memory();
    assert!(matches!(insert_todo(&mut db, "a", "", 3, 0, u64::MAX, 1), Err(DbError::ParamOutOfRange(u64::MAX))));
    assert!(matches!(insert_todo(&mut db, "a", "", 3, 0, 1, u64::MAX), Err(DbError::ParamOutOfRange(u64::MAX))));
    assert!(load_active_todos(&mut db).unwrap().is_empty());
}

#[test]
fn active_items_come_by_order_index() {
    let mut db = memory();
    let a = insert_todo(&mut db, "a", "", 3, 2, 1, 1).unwrap();
    let b = insert_todo(&mut db, "b", "", 3, 0, 1, 1).unwrap();
    let c = insert_todo(&mut db, "c", "", 3, 1, 1, 1).unwrap();
    let ids: Vec<usize> = load_active_todos(&mut db).unwrap().iter().map(|t| t.id).collect();
    assert_eq!(ids, vec![b, c, a]);
    update_order_index(&mut db, a, -1, 5).unwrap();
    let todos = load_active_todos(&mut db).unwrap();
    assert_eq!(todos[0].id, a);
    assert_eq!(todos[0].order_index, -1);
    assert_eq!(todos[0].changed_date, 5);
}

#[test]
fn update_sets_texts_and_change_date() {
    let mut db = memory();
    let id = insert_todo(&mut db, "old", "old d", 3, 0, 1, 1).unwrap();
    update_todo(&mut db, id, "new", "new d", 99).unwrap();
    let t = &load_active_todos(&mut db).unwrap()[0];
    assert_eq!(t.title, "new");
    assert_eq!(t.description, "new d");
    assert_eq!(t.changed_date, 99);
    assert_eq!(t.creation_date, 1);
}

#[test]
fn flags_and_priority_are_stored() {
    let mut db = memory();
    let id = insert_todo(&mut db, "x", "", 3, 0, 1, 1).unwrap();
    toggle_todo(&mut db, id, true, 2).unwrap();
    set_readonly(&mut db, id, true, 3).unwrap();
    update_priority(&mut db, id, 1, 4).unwrap();
    let t = &load_active_todos(&mut db).unwrap()[0];
    assert!(t.completed);
    assert!(t.readonly);
    assert_eq!(t.priority, 1);
    assert_eq!(t.changed_date, 4);
    toggle_todo(&mut db, id, false, 5).unwrap();
    set_readonly(&mut db, id, false, 6).unwrap();
    let t = &load_active_todos(&mut db).unwrap()[0];
    assert!(!t.completed);
    assert!(!t.readonly);
}

#[test]
fn priority_update_refuses_large_values() {
    let mut db = memory();
    let id = insert_todo(&mut db, "x", "", 3, 0, 1, 1).unwrap();
    assert!(matches!(update_priority(&mut db, id, 1, u64::MAX), Err(DbError::ParamOutOfRange(u64::MAX))));
    assert!(matches!(update_order_index(&mut db, usize::MAX, 1, 1), Err(DbError::ParamOutOfRange(_))));
}

#[test]
fn soft_delete_then_restore() {
    let mut db = memory();
    let a = insert_todo(&mut db, "a", "", 3, 0, 1, 1).unwrap();
    let b = insert_todo(&mut db, "b", "", 3, 1, 1, 1).unwrap();
    soft_delete_todo(&mut db, a, 50).unwrap();
    let active = load_active_todos(&mut db).unwrap();
    assert_eq!(active.len(), 1);
    assert_eq!(active[0].id, b);
    let trash = load_trashed_todos(&mut db).unwrap();
    assert_eq!(trash.len(), 1);
    assert_eq!(trash[0].id, a);
    assert_eq!(trash[0].deletion_date, Some(50));
    restore_todo(&mut db, a, 60).unwrap();
    assert!(load_trashed_todos(&mut db).unwrap().is_empty());
    let active = load_active_todos(&mut db).unwrap();
    assert_eq!(active.len(), 2);
    assert_eq!(active[0].id, a);
    assert_eq!(active[0].deletion_date, None);
    assert_eq!(active[0].changed_date, 60);
}

#[test]
fn trash_comes_most_recently_deleted_first() {
    let mut db = memory();
    let a = insert_todo(&mut db, "a", "", 3, 0, 1, 1).unwrap();
    let b = insert_todo(&mut db, "b", "", 3, 0, 1, 1).unwrap();
    soft_delete_todo(&mut db, a, 10).unwrap();
    soft_delete_todo(&mut db, b, 20).unwrap();
    let ids: Vec<usize> = load_trashed_todos(&mut db).unwrap().iter().map(|t| t.id).collect();
    assert_eq!(ids, vec![b, a]);
}

#[test]
fn permanent_delete_and_empty_trash() {
    let mut db = memory();
    let a = insert_todo(&mut db, "a", "", 3, 0, 1, 1).unwrap();
    let b = insert_todo(&mut db, "b", "", 3, 0, 1, 1).unwrap();
    let c = insert_todo(&mut db, "c", "", 3, 0, 1, 1).unwrap();
    soft_delete_todo(&mut db, a, 10).unwrap();
    soft_delete_todo(&mut db, b, 10).unwrap();
    permanent_delete_todo(&mut db, a).unwrap();
    assert_eq!(load_trashed_todos(&mut db).unwrap().len(), 1);
    empty_trash(&mut db).unwrap();
    assert!(load_trashed_todos(&mut db).unwrap().is_empty());
    let active = load_active_todos(&mut db).unwrap();
    assert_eq!(active.len(), 1);
    assert_eq!(active[0].id, c);
}

#[test]
fn tags_are_normalized_and_shared() {
    let mut db = memory();
    let a = insert_todo(&mut db, "a", "", 3, 0, 1, 1).unwrap();
    let b = insert_todo(&mut db, "b", "", 3, 1, 1, 1).unwrap();
    add_tag(&mut db, a, "  Work ").unwrap();
    add_tag(&mut db, a, "work").unwrap();
    add_tag(&mut db, b, "WORK").unwrap();
    add_tag(&mut db, b, "Home").unwrap();
    assert_eq!(get_tags_for_todo(&mut db, a).unwrap(), vec!["work".to_string()]);
    let mut tb = get_tags_for_todo(&mut db, b).unwrap();
    tb.sort();
    assert_eq!(tb, vec!["home".to_string(), "work".to_string()]);
    assert_eq!(get_all_tags(&mut db).unwrap(), vec!["home".to_string(), "work".to_string()]);
    let active = load_active_todos(&mut db).unwrap();
    assert_eq!(active[0].tags, vec!["work".to_string()]);
}

#[test]
fn blank_tag_names_are_ignored() {
    let mut db = memory();
    let a = insert_todo(&mut db, "a", "", 3, 0, 1, 1).unwrap();
    add_tag(&mut db, a, "   ").unwrap();
    add_tag(&mut db, usize::MAX, "").unwrap();
    assert!(get_all_tags(&mut db).unwrap().is_empty());
}

#[test]
fn add_tag_refuses_large_todo_id() {
    let mut db = memory();
    assert!(matches!(add_tag(&mut db, usize::MAX, "x"), Err(DbError::ParamOutOfRange(_))));
    assert!(matches!(get_tags_for_todo(&mut db, usize::MAX), Err(DbError::ParamOutOfRange(_))));
}

#[test]
fn used_tags_skip_trashed_items() {
    let mut db = memory();
    let a = insert_todo(&mut db, "a", "", 3, 0, 1, 1).unwrap();
    let b = insert_todo(&mut db, "b", "", 3, 0, 1, 1).unwrap();
    add_tag(&mut db, a, "alpha").unwrap();
    add_tag(&mut db, b, "beta").unwrap();
    add_tag(&mut db, b, "alpha").unwrap();
    soft_delete_todo(&mut db, b, 9).unwrap();
    assert_eq!(get_used_tags(&mut db).unwrap(), vec!["alpha".to_string()]);
    assert_eq!(get_all_tags(&mut db).unwrap(), vec!["alpha".to_string(), "beta".to_string()]);
}

#[test]
fn remove_tag_detaches_only_that_tag() {
    let mut db = memory();
    let a = insert_todo(&mut db, "a", "", 3, 0, 1, 1).unwrap();
    add_tag(&mut db, a, "one").unwrap();
    add_tag(&mut db, a, "two").unwrap();
    remove_tag(&mut db, a, " ONE ").unwrap();
    remove_tag(&mut db, a, "missing").unwrap();
    assert_eq!(get_tags_for_todo(&mut db, a).unwrap(), vec!["two".to_string()]);
    assert_eq!(get_all_tags(&mut db).unwrap().len(), 2);
}

#[test]
fn update_todo_tags_replaces_the_tags() {
    let mut db = memory();
    let a = insert_todo(&mut db, "a", "", 3, 0, 1, 1).unwrap();
    add_tag(&mut db, a, "old").unwrap();
    update_todo_tags(&mut db, a, &["New".to_string(), " other ".to_string(), "".to_string()]).unwrap();
    let mut tags = get_tags_for_todo(&mut db, a).unwrap();
    tags.sort();
    assert_eq!(tags, vec!["new".to_string(), "other".to_string()]);
    assert!(matches!(update_todo_tags(&mut db, usize::MAX, &[]), Err(DbError::ParamOutOfRange(_))));
}

/// A database shared with a raw connection, so that a test can store values
/// the library never writes.
fn shared(name: &str) -> (rusqlite::Connection, Database) {
    let uri = format!("file:{}?mode=memory&cache=shared", name);
    let raw = rusqlite::Connection::open(&uri).unwrap();
    let db = init_database(&uri).unwrap();
    (raw, db)
}

#[test]
fn bad_column_value_is_reported() {
    let (raw, mut db) = shared("bad_column");
    insert_todo(&mut db, "a", "", 3, 0, 1, 1).unwrap();
    raw.execute("UPDATE todos SET priority = 300", []).unwrap();
    assert!(matches!(load_active_todos(&mut db), Err(DbError::ColumnOutOfRange(5, 300))));
}

#[test]
fn first_bad_column_of_a_row_is_reported() {
    let (raw, mut db) = shared("first_bad_column");
    insert_todo(&mut db, "a", "", 3, 0, 1, 1).unwrap();
    raw.execute("UPDATE todos SET priority = 300, changed_date = -1", []).unwrap();
    assert!(matches!(load_active_todos(&mut db), Err(DbError::ColumnOutOfRange(5, 300))));
}

#[test]
fn a_column_is_narrowed_before_the_next_is_read() {
    let (raw, mut db) = shared("narrow_before_read");
    insert_todo(&mut db, "a", "", 3, 0, 1, 1).unwrap();
    raw.execute("UPDATE todos SET id = -2, title = x'00ff'", []).unwrap();
    assert!(matches!(load_active_todos(&mut db), Err(DbError::ColumnOutOfRange(0, -2))));
}

#[test]
fn rows_are_read_in_order_up_to_the_first_bad_one() {
    let (raw, mut db) = shared("first_bad_row");
    insert_todo(&mut db, "a", "", 3, 0, 1, 1).unwrap();
    insert_todo(&mut db, "b", "", 3, 1, 1, 1).unwrap();
    raw.execute("UPDATE todos SET priority = 400 WHERE title = 'a'", []).unwrap();
    raw.execute("UPDATE todos SET title = 7 WHERE title = 'b'", []).unwrap();
    assert!(matches!(load_active_todos(&mut db), Err(DbError::ColumnOutOfRange(5, 400))));
}

#[test]
fn sqlite_errors_are_passed_on() {
    let (raw, mut db) = shared("sqlite_errors");
    raw.execute("DROP TABLE todos", []).unwrap();
    assert!(matches!(load_active_todos(&mut db), Err(DbError::Sqlite(_))));
    assert!(matches!(update_todo(&mut db, 1, "a", "b", 1), Err(DbError::Sqlite(_))));
}
