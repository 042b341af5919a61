use todo_app::app_state::{Navigation, TodoApp, ViewMode, DEFAULT_PRIORITY};

fn app() -> TodoApp {
    TodoApp::open(":memory:").unwrap()
}

fn create(app: &mut TodoApp, title: &str, description: &str, now: u64) -> usize {
    app.input_title = title.to_string();
    app.input_description = description.to_string();
    app.create(now).unwrap().unwrap()
}

#[test]
fn fresh_app_is_empty() {
    let a = app();
    assert!(a.tasks.is_empty());
    assert!(a.trashed_tasks.is_empty());
    assert_eq!(a.input_priority, DEFAULT_PRIORITY);
    assert_eq!(a.input_priority, 3);
    assert_eq!(a.view_mode, ViewMode::List);
    assert_eq!(a.selected_id, None);
}

#[test]
fn create_puts_item_first_and_clears_form() {
    let mut a = app();
    let first = create(&mut a, "first", "d1", 10);
    a.input_priority = 1;
    let second = create(&mut a, "second", "d2", 20);
    assert_eq!(a.tasks.len(), 2);
    assert_eq!(a.tasks[0].id, second);
    assert_eq!(a.tasks[0].title, "second");
    assert_eq!(a.tasks[0].priority, 1);
    assert_eq!(a.tasks[0].creation_date, 20);
    assert_eq!(a.tasks[0].changed_date, 20);
    assert_eq!(a.tasks[1].id, first);
    assert_eq!(a.input_title, "");
    assert_eq!(a.input_description, "");
}

#[test]
fn create_with_empty_title_does_nothing() {
    let mut a = app();
    a.input_description = "kept".to_string();
    assert_eq!(a.create(5).unwrap(), None);
    assert!(a.tasks.is_empty());
    assert_eq!(a.input_description, "kept");
}

#[test]
fn toggles_flip_and_flip_back() {
    let mut a = app();
    let id = create(&mut a, "t", "", 1);
    a.toggle_done(id, 2).unwrap();
    assert!(a.tasks[0].completed);
    assert_eq!(a.tasks[0].changed_date, 2);
    a.toggle_done(id, 3).unwrap();
    assert!(!a.tasks[0].completed);
    assert_eq!(a.tasks[0].changed_date, 3);
    a.toggle_readonly(id, 4).unwrap();
    assert!(a.tasks[0].readonly);
    a.toggle_readonly(id, 5).unwrap();
    assert!(!a.tasks[0].readonly);
    a.toggle_done(id + 100, 6).unwrap();
    assert_eq!(a.tasks[0].changed_date, 5);
}

#[test]
fn delete_moves_to_trash_front_and_restore_moves_back() {
    let mut a = app();
    let x = create(&mut a, "x", "", 1);
    let y = create(&mut a, "y", "", 2);
    a.navigate(Navigation::Detail(x));
    a.delete(x, 30).unwrap();
    assert_eq!(a.view_mode, ViewMode::List);
    assert_eq!(a.tasks.len(), 1);
    assert_eq!(a.tasks[0].id, y);
    assert_eq!(a.trashed_tasks[0].id, x);
    assert_eq!(a.trashed_tasks[0].deletion_date, Some(30));
    a.restore(x, 40).unwrap();
    assert!(a.trashed_tasks.is_empty());
    assert_eq!(a.tasks[0].id, x);
    assert_eq!(a.tasks[0].deletion_date, None);
    assert_eq!(a.tasks[0].changed_date, 40);
    assert_eq!(a.tasks[1].id, y);
}

#[test]
fn delete_matches_what_reload_gives() {
    let mut a = app();
    let x = create(&mut a, "x", "", 1);
    a.delete(x, 30).unwrap();
    assert_eq!(a.trashed_tasks.len(), 1);
    a.permanent_delete(x).unwrap();
    assert!(a.trashed_tasks.is_empty());
    assert!(a.tasks.is_empty());
}

#[test]
fn empty_trash_keeps_active_items() {
    let mut a = app();
    let x = create(&mut a, "x", "", 1);
    let y = create(&mut a, "y", "", 1);
    let z = create(&mut a, "z", "", 1);
    a.delete(x, 5).unwrap();
    a.delete(y, 6).unwrap();
    assert_eq!(a.trashed_tasks.len(), 2);
    assert_eq!(a.trashed_tasks[0].id, y);
    a.empty_trash().unwrap();
    assert!(a.trashed_tasks.is_empty());
    assert_eq!(a.tasks.len(), 1);
    assert_eq!(a.tasks[0].id, z);
}

#[test]
fn edit_and_save() {
    let mut a = app();
    let x = create(&mut a, "x", "dx", 1);
    a.navigate(Navigation::Detail(x));
    a.navigate(Navigation::Edit);
    assert_eq!(a.view_mode, ViewMode::Edit);
    a.edit_selected("x2".to_string(), "dx2".to_string());
    assert_eq!(a.tasks[0].title, "x2");
    assert_eq!(a.tasks[0].changed_date, 1);
    a.save_edit(9).unwrap();
    assert_eq!(a.view_mode, ViewMode::Detail);
    assert_eq!(a.tasks[0].changed_date, 9);
}

#[test]
fn navigation_follows_the_buttons() {
    let mut a = app();
    let x = create(&mut a, "x", "", 1);
    a.navigate(Navigation::Detail(x));
    assert_eq!((a.view_mode, a.selected_id), (ViewMode::Detail, Some(x)));
    a.navigate(Navigation::Edit);
    assert_eq!((a.view_mode, a.selected_id), (ViewMode::Edit, Some(x)));
    a.navigate(Navigation::CancelEdit);
    assert_eq!((a.view_mode, a.selected_id), (ViewMode::Detail, Some(x)));
    a.navigate(Navigation::Detail(x + 1000));
    a.navigate(Navigation::Edit);
    assert_eq!(a.view_mode, ViewMode::Detail);
    a.navigate(Navigation::Tasks);
    assert_eq!((a.view_mode, a.selected_id), (ViewMode::List, None));
    a.navigate(Navigation::Detail(2));
    a.navigate(Navigation::Trash);
    assert_eq!((a.view_mode, a.selected_id), (ViewMode::Trash, None));
    a.navigate(Navigation::LeaveTrash);
    assert_eq!((a.view_mode, a.selected_id), (ViewMode::List, None));
}

#[test]
fn locked_items_are_not_edited() {
    let mut a = app();
    let x = create(&mut a, "x", "dx", 1);
    a.toggle_readonly(x, 2).unwrap();
    a.navigate(Navigation::Detail(x));
    a.navigate(Navigation::Edit);
    assert_eq!(a.view_mode, ViewMode::Detail);
    a.edit_selected("changed".to_string(), "changed".to_string());
    assert_eq!(a.tasks[0].title, "x");
    a.save_edit(3).unwrap();
    assert_eq!(a.tasks[0].changed_date, 2);
    assert_eq!(a.view_mode, ViewMode::Detail);
}

#[test]
fn can_edit_only_unlocked_selected_items() {
    let mut a = app();
    assert!(!a.can_edit());
    let x = create(&mut a, "x", "", 1);
    a.navigate(Navigation::Detail(x));
    assert!(a.can_edit());
    a.toggle_readonly(x, 2).unwrap();
    assert!(!a.can_edit());
}

#[test]
fn reopening_shows_what_was_stored() {
    let mut a = app();
    let x = create(&mut a, "x", "dx", 1);
    let y = create(&mut a, "y", "dy", 2);
    a.delete(y, 3).unwrap();
    todo_app::database::add_tag(&mut a.db, x, " Home ").unwrap();
    let active = todo_app::database::load_active_todos(&mut a.db).unwrap();
    assert_eq!(active.len(), 1);
    assert_eq!(active[0].id, x);
    assert_eq!(active[0].tags, vec!["home".to_string()]);
    let trashed = todo_app::database::load_trashed_todos(&mut a.db).unwrap();
    assert_eq!(trashed[0].id, y);
}
