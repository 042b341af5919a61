use vstd::prelude::*;
use crate::database::{self, Database, items_loaded, tag_queries};
use crate::error::DbError;
use crate::sqlite::Answer;
use crate::requests::{self, RequestView};
use crate::todo::{TodoItem, fits_storage};

verus! {

/// The screen the application shows.
#[derive(Clone, Copy, Debug, PartialEq, Eq, Structural)]
pub enum ViewMode {
    List,
    Detail,
    Edit,
    Trash,
}

/// A switch between screens asked for by a button.
#[derive(Clone, Copy, Debug, PartialEq, Eq, Structural)]
pub enum Navigation {
    /// "Tasks", and "Back" from a detail: the list, nothing selected.
    Tasks,
    /// "Back" from the trash: the list, the selection kept.
    LeaveTrash,
    /// "Trash": the trash, nothing selected.
    Trash,
    /// "View #id": the detail of item `id`.
    Detail(usize),
    /// "Edit" in a detail: the editor, only for an item that is not locked.
    Edit,
    /// "Cancel" in the editor: back to the detail.
    CancelEdit,
}

/// The screen and selection a navigation leads to from the state `v`.
pub open spec fn navigated(v: AppView, nav: Navigation) -> (ViewMode, Option<usize>) {
    match nav {
        Navigation::Tasks => (ViewMode::List, None),
        Navigation::LeaveTrash => (ViewMode::List, v.selected_id),
        Navigation::Trash => (ViewMode::Trash, None),
        Navigation::Detail(id) => (ViewMode::Detail, Some(id)),
        Navigation::Edit => if editable_position(v) is Some {
            (ViewMode::Edit, v.selected_id)
        } else {
            (v.view_mode, v.selected_id)
        },
        Navigation::CancelEdit => (ViewMode::Detail, v.selected_id),
    }
}

/// `i` is the first index of `s` whose item has the id `id`.
pub open spec fn is_first_with_id(s: Seq<TodoItem>, id: usize, i: int) -> bool {
    &&& 0 <= i < s.len()
    &&& s[i].id == id
    &&& forall|j: int| 0 <= j < i ==> (#[trigger] s[j]).id != id
}

/// The first index of `s` holding an item with the id `id`.
pub open spec fn position_of(s: Seq<TodoItem>, id: usize) -> Option<int> {
    if exists|i: int| is_first_with_id(s, id, i) {
        Some(choose|i: int| is_first_with_id(s, id, i))
    } else {
        None
    }
}

pub proof fn lemma_position_of(s: Seq<TodoItem>, id: usize, i: int)
    requires
        is_first_with_id(s, id, i),
    ensures
        position_of(s, id) == Some(i),
{
    let j: int = choose|j: int| is_first_with_id(s, id, j);
    if j < i {
        assert(s[j].id != id);
    }
    if i < j {
        assert(s[i].id != id);
    }
}

pub proof fn lemma_no_position(s: Seq<TodoItem>, id: usize)
    requires
        forall|k: int| 0 <= k < s.len() ==> (#[trigger] s[k]).id != id,
    ensures
        position_of(s, id) is None,
{
}

/// The index of the first item of `v` with the id `id`.
pub fn find_position(v: &Vec<TodoItem>, id: usize) -> (r: Option<usize>)
    ensures
        match r {
            Some(i) => position_of(v@, id) == Some(i as int),
            None => position_of(v@, id) is None,
        },
{
    let n: usize = v.len();
    let mut i: usize = 0;
    while i < n
        invariant
            n == v@.len(),
            i <= n,
            forall|k: int| 0 <= k < i ==> (#[trigger] v@[k]).id != id,
        decreases n - i,
    {
        if v[i].id == id {
            proof {
                lemma_position_of(v@, id, i as int);
            }
            return Some(i);
        }
        i = i + 1;
    }
    proof {
        lemma_no_position(v@, id);
    }
    None
}

/// `t` marked completed or pending as `completed` says, changed at `now`.
pub open spec fn with_completed(t: TodoItem, completed: bool, now: u64) -> TodoItem {
    TodoItem { completed, changed_date: now, ..t }
}

/// `t` locked or unlocked as `readonly` says, changed at `now`.
pub open spec fn with_readonly(t: TodoItem, readonly: bool, now: u64) -> TodoItem {
    TodoItem { readonly, changed_date: now, ..t }
}

/// `t` in the trash since `now`.
pub open spec fn trashed_at(t: TodoItem, now: u64) -> TodoItem {
    TodoItem { deletion_date: Some(now), ..t }
}

/// `t` taken out of the trash, changed at `now`.
pub open spec fn restored_at(t: TodoItem, now: u64) -> TodoItem {
    TodoItem { deletion_date: None, changed_date: now, ..t }
}

/// The active list after flipping the completion of the first item `id`
/// (unchanged when there is none).
pub open spec fn after_toggle_done(tasks: Seq<TodoItem>, id: usize, now: u64) -> Seq<TodoItem> {
    match position_of(tasks, id) {
        Some(i) => tasks.update(i, with_completed(tasks[i], !tasks[i].completed, now)),
        None => tasks,
    }
}

/// The active list after flipping the lock of the first item `id`.
pub open spec fn after_toggle_readonly(tasks: Seq<TodoItem>, id: usize, now: u64) -> Seq<TodoItem> {
    match position_of(tasks, id) {
        Some(i) => tasks.update(i, with_readonly(tasks[i], !tasks[i].readonly, now)),
        None => tasks,
    }
}

/// The active list and the trash after moving the first active item `id` to
/// the front of the trash.
pub open spec fn after_soft_delete(tasks: Seq<TodoItem>, trashed: Seq<TodoItem>, id: usize, now: u64) -> (
    Seq<TodoItem>,
    Seq<TodoItem>,
) {
    match position_of(tasks, id) {
        Some(i) => (tasks.remove(i), seq![trashed_at(tasks[i], now)] + trashed),
        None => (tasks, trashed),
    }
}

/// The active list and the trash after moving the first trashed item `id` to
/// the front of the active list.
pub open spec fn after_restore(tasks: Seq<TodoItem>, trashed: Seq<TodoItem>, id: usize, now: u64) -> (
    Seq<TodoItem>,
    Seq<TodoItem>,
) {
    match position_of(trashed, id) {
        Some(i) => (seq![restored_at(trashed[i], now)] + tasks, trashed.remove(i)),
        None => (tasks, trashed),
    }
}

/// Holds of the items whose id is not `id`.
pub open spec fn id_is_not(id: usize) -> spec_fn(TodoItem) -> bool {
    |t: TodoItem| t.id != id
}

/// The trash after removing every item with the id `id`.
pub open spec fn after_permanent_delete(trashed: Seq<TodoItem>, id: usize) -> Seq<TodoItem> {
    trashed.filter(id_is_not(id))
}

proof fn lemma_filter_step(s: Seq<TodoItem>, k: int, id: usize)
    requires
        0 <= k < s.len(),
    ensures
        s.take(k + 1).filter(id_is_not(id)) == if s[k].id != id {
            s.take(k).filter(id_is_not(id)).push(s[k])
        } else {
            s.take(k).filter(id_is_not(id))
        },
{
    reveal_with_fuel(Seq::<_>::filter, 1);
    assert(s.take(k + 1).drop_last() =~= s.take(k));
    assert(s.take(k + 1).last() == s[k]);
}

/// `t` is a freshly created item: stored with the id `id`, the given texts
/// and priority, order index 0, pending, unlocked, created and changed at
/// `now`, not in the trash, without tags.
pub open spec fn is_new_item(
    t: TodoItem,
    id: usize,
    title: Seq<char>,
    description: Seq<char>,
    priority: u8,
    now: u64,
) -> bool {
    &&& t.id == id
    &&& t.title@ == title
    &&& t.description@ == description
    &&& !t.completed
    &&& !t.readonly
    &&& t.priority == priority
    &&& t.order_index == 0
    &&& t.creation_date == now
    &&& t.changed_date == now
    &&& t.deletion_date is None
    &&& t.tags@.len() == 0
}

/// The state of the application: the items shown, what is typed into the
/// form, and which screen is up.
pub struct AppView {
    pub tasks: Seq<TodoItem>,
    pub trashed: Seq<TodoItem>,
    pub input_title: Seq<char>,
    pub input_description: Seq<char>,
    pub input_priority: u8,
    pub selected_id: Option<usize>,
    pub view_mode: ViewMode,
    /// The statements handed to the database so far.
    pub sent: Seq<RequestView>,
}

/// The index of the item the editor works on: the first active item with
/// the selected id, unless that item is locked against editing.
pub open spec fn editable_position(v: AppView) -> Option<int> {
    match v.selected_id {
        Some(id) => match position_of(v.tasks, id) {
            Some(i) => if v.tasks[i].readonly {
                None
            } else {
                Some(i)
            },
            None => None,
        },
        None => None,
    }
}

/// Why the application could not start.
#[derive(Debug)]
pub enum StartupError {
    /// The database could not be opened or set up.
    Init(DbError),
    /// The active items could not be loaded.
    LoadActive(DbError),
    /// The trashed items could not be loaded.
    LoadTrashed(DbError),
}

/// The errors starting can end in: SQLite failing to open or set up the
/// database, or, while loading either list, SQLite failing or a stored value
/// not fitting its field.
pub open spec fn startup_failure(e: StartupError) -> bool {
    match e {
        StartupError::Init(d) => d is Sqlite,
        StartupError::LoadActive(d) => d is Sqlite || d is ColumnOutOfRange,
        StartupError::LoadTrashed(d) => d is Sqlite || d is ColumnOutOfRange,
    }
}

/// The todo application: its database, the items it shows and its form and
/// screen state. Each operation sends its statement to the database first and
/// changes the items shown only when the database took it.
pub struct TodoApp {
    pub db: Database,
    pub tasks: Vec<TodoItem>,
    pub trashed_tasks: Vec<TodoItem>,
    pub input_title: String,
    pub input_description: String,
    pub input_priority: u8,
    pub selected_id: Option<usize>,
    pub view_mode: ViewMode,
}

impl View for TodoApp {
    type V = AppView;

    open spec fn view(&self) -> AppView {
        AppView {
            tasks: self.tasks@,
            trashed: self.trashed_tasks@,
            input_title: self.input_title@,
            input_description: self.input_description@,
            input_priority: self.input_priority,
            selected_id: self.selected_id,
            view_mode: self.view_mode,
            sent: self.db@,
        }
    }
}

/// The priority a new item gets unless another is picked (P3).
pub const DEFAULT_PRIORITY: u8 = 3;

impl TodoApp {
    /// Opens the database `todo.db` (`get_db_path`) as `open` does.
    pub fn new() -> (r: Result<TodoApp, StartupError>)
        ensures
            r matches Ok(app) ==> app.is_fresh() && app.loaded(),
            r matches Err(e) ==> startup_failure(e),
    {
        let path = database::get_db_path();
        TodoApp::open(path.as_str())
    }

    /// Nothing typed into the form but the default priority, the list shown
    /// and nothing selected.
    pub open spec fn is_fresh(&self) -> bool {
        &&& self@.input_title.len() == 0
        &&& self@.input_description.len() == 0
        &&& self@.input_priority == DEFAULT_PRIORITY
        &&& self@.selected_id is None
        &&& self@.view_mode == ViewMode::List
    }

    /// The statements sent so far are those of opening: set up the tables,
    /// select the active items, ask for the tags of each shown active item,
    /// select the trashed items, ask for the tags of each trashed item; the
    /// answers read so far are those loads, the shown active items being
    /// what the first read and the trashed items what the second read; and
    /// every shown item holds only values SQLite can store.
    pub open spec fn loaded(&self) -> bool {
        &&& exists|k: int|
            0 <= k <= self.db.reads().len() && #[trigger] items_loaded(
                Seq::<Answer>::empty(),
                self.db.reads().take(k),
                self@.tasks,
            ) && items_loaded(self.db.reads().take(k), self.db.reads(), self@.trashed)
        &&& self@.sent == requests::setup_reqs().push(requests::select_active_req()) + tag_queries(
            self@.tasks,
        ).push(requests::select_trashed_req()) + tag_queries(self@.trashed)
        &&& forall|i: int| 0 <= i < self@.tasks.len() ==> fits_storage(#[trigger] self@.tasks[i])
        &&& forall|i: int| 0 <= i < self@.trashed.len() ==> fits_storage(#[trigger] self@.trashed[i])
    }

    /// Opens the database at `db_path`, creating its tables where missing,
    /// and loads the active and the trashed items; the form is empty, the
    /// priority `DEFAULT_PRIORITY`, the list shown and nothing selected.
    pub fn open(db_path: &str) -> (r: Result<TodoApp, StartupError>)
        ensures
            r matches Ok(app) ==> app.is_fresh() && app.loaded(),
            r matches Err(e) ==> startup_failure(e),
    {
        let mut db = match database::init_database(db_path) {
            Ok(d) => d,
            Err(e) => return Err(StartupError::Init(e)),
        };
        let tasks = match database::load_active_todos(&mut db) {
            Ok(t) => t,
            Err(e) => return Err(StartupError::LoadActive(e)),
        };
        let ghost mid = db.reads();
        let trashed_tasks = match database::load_trashed_todos(&mut db) {
            Ok(t) => t,
            Err(e) => return Err(StartupError::LoadTrashed(e)),
        };
        assert(db.reads().take(mid.len() as int) =~= mid);
        Ok(
            TodoApp {
                db,
                tasks,
                trashed_tasks,
                input_title: String::new(),
                input_description: String::new(),
                input_priority: DEFAULT_PRIORITY,
                selected_id: None,
                view_mode: ViewMode::List,
            },
        )
    }

    /// Switches screens as a navigation button does; sends nothing to the
    /// database.
    pub fn navigate(&mut self, nav: Navigation)
        ensures
            final(self)@ == (AppView {
                view_mode: navigated(old(self)@, nav).0,
                selected_id: navigated(old(self)@, nav).1,
                ..old(self)@
            }),
    {
        match nav {
            Navigation::Tasks => {
                self.view_mode = ViewMode::List;
                self.selected_id = None;
            },
            Navigation::LeaveTrash => {
                self.view_mode = ViewMode::List;
            },
            Navigation::Trash => {
                self.view_mode = ViewMode::Trash;
                self.selected_id = None;
            },
            Navigation::Detail(id) => {
                self.view_mode = ViewMode::Detail;
                self.selected_id = Some(id);
            },
            Navigation::Edit => {
                if self.find_editable().is_some() {
                    self.view_mode = ViewMode::Edit;
                }
            },
            Navigation::CancelEdit => {
                self.view_mode = ViewMode::Detail;
            },
        }
    }

    /// "Create": stores a new item made of the form (with order index 0) and
    /// shows it first; then clears the title and description of the form. Does
    /// nothing when the title is empty. Gives back the id of the new item: the
    /// rowid SQLite reported right after the INSERT.
    pub fn create(&mut self, now: u64) -> (r: Result<Option<usize>, DbError>)
        ensures
            old(self)@.input_title.len() == 0 ==> r == Ok::<Option<usize>, DbError>(None)
                && final(self)@ == old(self)@,
            old(self)@.input_title.len() != 0 ==> {
                &&& final(self)@.input_title.len() == 0
                &&& final(self)@.input_description.len() == 0
                &&& final(self)@.trashed == old(self)@.trashed
                &&& final(self)@.input_priority == old(self)@.input_priority
                &&& final(self)@.selected_id == old(self)@.selected_id
                &&& final(self)@.view_mode == old(self)@.view_mode
                &&& now > i64::MAX ==> r == Err::<Option<usize>, DbError>(DbError::ParamOutOfRange(now))
                    && final(self)@.sent == old(self)@.sent
                &&& now <= i64::MAX ==> final(self)@.sent == old(self)@.sent.push(
                    requests::insert_todo_req(
                        old(self)@.input_title,
                        old(self)@.input_description,
                        old(self)@.input_priority,
                        0,
                        now,
                        now,
                    ),
                ) && (r matches Err(e) ==> e is Sqlite)
                &&& match r {
                    Ok(Some(id)) => {
                        &&& final(self)@.tasks.len() == old(self)@.tasks.len() + 1
                        &&& final(self)@.tasks.drop_first() == old(self)@.tasks
                        &&& is_new_item(
                            final(self)@.tasks[0],
                            id,
                            old(self)@.input_title,
                            old(self)@.input_description,
                            old(self)@.input_priority,
                            now,
                        )
                        &&& database::rowid_read(old(self).db.reads(), final(self).db.reads(), id)
                    },
                    Ok(None) => false,
                    Err(e) => final(self)@.tasks == old(self)@.tasks,
                }
            },
    {
        if self.input_title.as_str().is_empty() {
            return Ok(None);
        }
        let result = database::insert_todo(
            &mut self.db,
            self.input_title.as_str(),
            self.input_description.as_str(),
            self.input_priority,
            0,
            now,
            now,
        );
        let r = match result {
            Ok(id) => {
                let item = TodoItem {
                    id,
                    title: self.input_title.clone(),
                    description: self.input_description.clone(),
                    completed: false,
                    readonly: false,
                    priority: self.input_priority,
                    order_index: 0,
                    creation_date: now,
                    changed_date: now,
                    deletion_date: None,
                    tags: Vec::new(),
                };
                self.tasks.insert(0, item);
                assert(self.tasks@.drop_first() =~= old(self).tasks@);
                Ok(Some(id))
            },
            Err(e) => Err(e),
        };
        self.input_title = String::new();
        self.input_description = String::new();
        r
    }

    /// "Toggle Done" on item `id`: flips whether the first item `id` is
    /// completed and sets its change date, once the database took the change.
    /// Does nothing when no active item has that id.
    pub fn toggle_done(&mut self, id: usize, now: u64) -> (r: Result<(), DbError>)
        ensures
            position_of(old(self)@.tasks, id) is None ==> r is Ok && final(self)@ == old(self)@,
            position_of(old(self)@.tasks, id) matches Some(i) ==> {
                let sent = old(self)@.sent.push(
                    requests::update_completed_req(id, !old(self)@.tasks[i].completed, now),
                );
                match r {
                    Ok(()) => final(self)@ == (AppView {
                        tasks: after_toggle_done(old(self)@.tasks, id, now),
                        sent,
                        ..old(self)@
                    }),
                    Err(e) => final(self)@ == (AppView { sent, ..old(self)@ }) && e is Sqlite,
                }
            },
    {
        match find_position(&self.tasks, id) {
            None => Ok(()),
            Some(i) => {
                let completed: bool = !self.tasks[i].completed;
                match database::toggle_todo(&mut self.db, id, completed, now) {
                    Ok(()) => {
                        let mut t = self.tasks.remove(i);
                        t.completed = completed;
                        t.changed_date = now;
                        self.tasks.insert(i, t);
                        assert(self.tasks@ =~= old(self).tasks@.update(
                            i as int,
                            with_completed(old(self).tasks@[i as int], completed, now),
                        ));
                        Ok(())
                    },
                    Err(e) => Err(e),
                }
            },
        }
    }

    /// "Toggle RO" on item `id`: flips whether the first item `id` is locked
    /// against editing and sets its change date, once the database took the
    /// change. Does nothing when no active item has that id.
    pub fn toggle_readonly(&mut self, id: usize, now: u64) -> (r: Result<(), DbError>)
        ensures
            position_of(old(self)@.tasks, id) is None ==> r is Ok && final(self)@ == old(self)@,
            position_of(old(self)@.tasks, id) matches Some(i) ==> {
                let sent = old(self)@.sent.push(
                    requests::update_readonly_req(id, !old(self)@.tasks[i].readonly, now),
                );
                match r {
                    Ok(()) => final(self)@ == (AppView {
                        tasks: after_toggle_readonly(old(self)@.tasks, id, now),
                        sent,
                        ..old(self)@
                    }),
                    Err(e) => final(self)@ == (AppView { sent, ..old(self)@ }) && e is Sqlite,
                }
            },
    {
        match find_position(&self.tasks, id) {
            None => Ok(()),
            Some(i) => {
                let readonly = !self.tasks[i].readonly;
                match database::set_readonly(&mut self.db, id, readonly, now) {
                    Ok(()) => {
                        let mut t = self.tasks.remove(i);
                        t.readonly = readonly;
                        t.changed_date = now;
                        self.tasks.insert(i, t);
                        assert(self.tasks@ =~= old(self).tasks@.update(
                            i as int,
                            with_readonly(old(self).tasks@[i as int], readonly, now),
                        ));
                        Ok(())
                    },
                    Err(e) => Err(e),
                }
            },
        }
    }

    /// "Delete" on item `id`: moves it to the trash in the database; once that
    /// succeeded, moves the first active item `id` to the front of the trash
    /// with its deletion date, and shows the list.
    pub fn delete(&mut self, id: usize, now: u64) -> (r: Result<(), DbError>)
        ensures
            ({
                let sent = old(self)@.sent.push(requests::soft_delete_req(id, now));
                match r {
                    Ok(()) => final(self)@ == (AppView {
                        tasks: after_soft_delete(old(self)@.tasks, old(self)@.trashed, id, now).0,
                        trashed: after_soft_delete(old(self)@.tasks, old(self)@.trashed, id, now).1,
                        view_mode: ViewMode::List,
                        sent,
                        ..old(self)@
                    }),
                    Err(e) => final(self)@ == (AppView { sent, ..old(self)@ }) && e is Sqlite,
                }
            }),
    {
        match database::soft_delete_todo(&mut self.db, id, now) {
            Ok(()) => {},
            Err(e) => return Err(e),
        }
        match find_position(&self.tasks, id) {
            Some(i) => {
                let mut t = self.tasks.remove(i);
                t.deletion_date = Some(now);
                self.trashed_tasks.insert(0, t);
                assert(self.trashed_tasks@ =~= seq![trashed_at(old(self).tasks@[i as int], now)]
                    + old(self).trashed_tasks@);
            },
            None => {},
        }
        self.view_mode = ViewMode::List;
        Ok(())
    }

    /// "Restore" on trashed item `id`: takes it out of the trash in the
    /// database; once that succeeded, moves the first trashed item `id` to the
    /// front of the active list, without deletion date and changed at `now`.
    pub fn restore(&mut self, id: usize, now: u64) -> (r: Result<(), DbError>)
        ensures
            ({
                let sent = old(self)@.sent.push(requests::restore_req(id, now));
                match r {
                    Ok(()) => final(self)@ == (AppView {
                        tasks: after_restore(old(self)@.tasks, old(self)@.trashed, id, now).0,
                        trashed: after_restore(old(self)@.tasks, old(self)@.trashed, id, now).1,
                        sent,
                        ..old(self)@
                    }),
                    Err(e) => final(self)@ == (AppView { sent, ..old(self)@ }) && e is Sqlite,
                }
            }),
    {
        match database::restore_todo(&mut self.db, id, now) {
            Ok(()) => {},
            Err(e) => return Err(e),
        }
        match find_position(&self.trashed_tasks, id) {
            Some(i) => {
                let mut t = self.trashed_tasks.remove(i);
                t.deletion_date = None;
                t.changed_date = now;
                self.tasks.insert(0, t);
                assert(self.tasks@ =~= seq![restored_at(old(self).trashed_tasks@[i as int], now)]
                    + old(self).tasks@);
            },
            None => {},
        }
        Ok(())
    }

    /// "Permanent Delete" on trashed item `id`: removes it from the database;
    /// once that succeeded, drops every trashed item with that id.
    pub fn permanent_delete(&mut self, id: usize) -> (r: Result<(), DbError>)
        ensures
            ({
                let sent = old(self)@.sent.push(requests::delete_todo_req(id));
                match r {
                    Ok(()) => final(self)@ == (AppView {
                        trashed: after_permanent_delete(old(self)@.trashed, id),
                        sent,
                        ..old(self)@
                    }),
                    Err(e) => final(self)@ == (AppView { sent, ..old(self)@ }) && e is Sqlite,
                }
            }),
    {
        match database::permanent_delete_todo(&mut self.db, id) {
            Ok(()) => {},
            Err(e) => return Err(e),
        }
        let ghost all = self.trashed_tasks@;
        let mut rest: Vec<TodoItem> = Vec::new();
        std::mem::swap(&mut rest, &mut self.trashed_tasks);
        let mut kept: Vec<TodoItem> = Vec::new();
        let n: usize = rest.len();
        let mut k: usize = 0;
        while k < n
            invariant
                n == all.len(),
                k <= n,
                rest@ == all.skip(k as int),
                kept@ == all.take(k as int).filter(id_is_not(id)),
            decreases n - k,
        {
            let t = rest.remove(0);
            assert(t == all[k as int]);
            assert(all.skip(k as int).remove(0) =~= all.skip(k + 1));
            proof {
                lemma_filter_step(all, k as int, id);
            }
            if t.id != id {
                kept.push(t);
            }
            k = k + 1;
        }
        assert(all.take(n as int) =~= all);
        self.trashed_tasks = kept;
        Ok(())
    }

    /// "Empty Trash": removes every trashed item from the database; once that
    /// succeeded, the trash is empty.
    pub fn empty_trash(&mut self) -> (r: Result<(), DbError>)
        ensures
            ({
                let sent = old(self)@.sent.push(requests::empty_trash_req());
                match r {
                    Ok(()) => final(self)@ == (AppView { trashed: Seq::empty(), sent, ..old(self)@ }),
                    Err(e) => final(self)@ == (AppView { sent, ..old(self)@ }) && e is Sqlite,
                }
            }),
    {
        match database::empty_trash(&mut self.db) {
            Ok(()) => {},
            Err(e) => return Err(e),
        }
        self.trashed_tasks.clear();
        Ok(())
    }

    /// Whether the editor may be opened: the selected item is shown and is
    /// not locked.
    pub fn can_edit(&self) -> (r: bool)
        ensures
            r == editable_position(self@) is Some,
    {
        self.find_editable().is_some()
    }

    fn find_editable(&self) -> (r: Option<usize>)
        ensures
            match r {
                Some(i) => editable_position(self@) == Some(i as int),
                None => editable_position(self@) is None,
            },
    {
        let id: usize = match self.selected_id {
            Some(id) => id,
            None => return None,
        };
        match find_position(&self.tasks, id) {
            Some(i) => if self.tasks[i].readonly {
                None
            } else {
                Some(i)
            },
            None => None,
        }
    }

    /// Typing in the editor: the selected item takes the title and
    /// description typed. A locked (read-only) item is not edited.
    pub fn edit_selected(&mut self, title: String, description: String)
        ensures
            match editable_position(old(self)@) {
                Some(i) => {
                    &&& final(self)@ == (AppView { tasks: final(self)@.tasks, ..old(self)@ })
                    &&& final(self)@.tasks.len() == old(self)@.tasks.len()
                    &&& final(self)@.tasks[i].title@ == title@
                    &&& final(self)@.tasks[i].description@ == description@
                    &&& final(self)@.tasks[i] == (TodoItem {
                        title: final(self)@.tasks[i].title,
                        description: final(self)@.tasks[i].description,
                        ..old(self)@.tasks[i]
                    })
                    &&& forall|j: int|
                        0 <= j < old(self)@.tasks.len() && j != i ==> final(self)@.tasks[j]
                            == old(self)@.tasks[j]
                },
                None => final(self)@ == old(self)@,
            },
    {
        match self.find_editable() {
            Some(i) => {
                let mut t = self.tasks.remove(i);
                t.title = title;
                t.description = description;
                self.tasks.insert(i, t);
            },
            None => {},
        }
    }

    /// "Save" in the editor: stores the title and description of the selected
    /// item; once that succeeded, sets its change date and shows its detail.
    /// Does nothing when no active item is selected or the item is locked.
    pub fn save_edit(&mut self, now: u64) -> (r: Result<(), DbError>)
        ensures
            match editable_position(old(self)@) {
                Some(i) => {
                    let t = old(self)@.tasks[i];
                    let sent = old(self)@.sent.push(
                        requests::update_todo_req(t.id, t.title@, t.description@, now),
                    );
                    match r {
                        Ok(()) => final(self)@ == (AppView {
                            tasks: old(self)@.tasks.update(i, TodoItem { changed_date: now, ..t }),
                            view_mode: ViewMode::Detail,
                            sent,
                            ..old(self)@
                        }),
                        Err(e) => final(self)@ == (AppView { sent, ..old(self)@ }) && e is Sqlite,
                    }
                },
                None => r is Ok && final(self)@ == old(self)@,
            },
    {
        let i: usize = match self.find_editable() {
            Some(i) => i,
            None => return Ok(()),
        };
        let id: usize = self.tasks[i].id;
        match database::update_todo(
            &mut self.db,
            id,
            self.tasks[i].title.as_str(),
            self.tasks[i].description.as_str(),
            now,
        ) {
            Ok(()) => {},
            Err(e) => return Err(e),
        }
        let mut t = self.tasks.remove(i);
        t.changed_date = now;
        self.tasks.insert(i, t);
        assert(self.tasks@ =~= old(self).tasks@.update(
            i as int,
            TodoItem { changed_date: now, ..old(self).tasks@[i as int] },
        ));
        self.view_mode = ViewMode::Detail;
        Ok(())
    }
}


/// Restoring an item right after deleting it puts it back at the front of
/// the active list, changed at the time of the restore and without deletion
/// date, and leaves the trash as it was before the delete.
pub proof fn lemma_restore_undoes_delete(
    tasks: Seq<TodoItem>,
    trashed: Seq<TodoItem>,
    id: usize,
    deleted_at: u64,
    restored_at_time: u64,
)
    requires
        position_of(tasks, id) is Some,
    ensures
        ({
            let i: int = position_of(tasks, id).unwrap();
            let (t1, tr1) = after_soft_delete(tasks, trashed, id, deleted_at);
            let (t2, tr2) = after_restore(t1, tr1, id, restored_at_time);
            &&& tr2 == trashed
            &&& t2 == seq![restored_at(tasks[i], restored_at_time)] + tasks.remove(i)
        }),
{
    let i: int = position_of(tasks, id).unwrap();
    let (t1, tr1) = after_soft_delete(tasks, trashed, id, deleted_at);
    lemma_position_of(tr1, id, 0);
    assert(tr1.remove(0) =~= trashed);
}

/// Moving an item to the trash or back keeps the number of items shown.
pub proof fn lemma_trash_moves_keep_count(
    tasks: Seq<TodoItem>,
    trashed: Seq<TodoItem>,
    id: usize,
    now: u64,
)
    ensures
        after_soft_delete(tasks, trashed, id, now).0.len() + after_soft_delete(
            tasks,
            trashed,
            id,
            now,
        ).1.len() == tasks.len() + trashed.len(),
        after_restore(tasks, trashed, id, now).0.len() + after_restore(tasks, trashed, id, now).1.len()
            == tasks.len() + trashed.len(),
{
}

/// Flipping completion twice gives the item back its completion; only its
/// change date (the second one) differs.
pub proof fn lemma_toggle_done_twice(tasks: Seq<TodoItem>, id: usize, first: u64, second: u64)
    ensures
        after_toggle_done(after_toggle_done(tasks, id, first), id, second) == match position_of(
            tasks,
            id,
        ) {
            Some(i) => tasks.update(i, TodoItem { changed_date: second, ..tasks[i] }),
            None => tasks,
        },
{
    match position_of(tasks, id) {
        Some(i) => {
            let once = after_toggle_done(tasks, id, first);
            assert(is_first_with_id(once, id, i));
            lemma_position_of(once, id, i);
            assert(after_toggle_done(once, id, second) =~= tasks.update(
                i,
                TodoItem { changed_date: second, ..tasks[i] },
            ));
        },
        None => {},
    }
}

/// Flipping the lock twice gives the item back its lock; only its change date
/// (the second one) differs.
pub proof fn lemma_toggle_readonly_twice(tasks: Seq<TodoItem>, id: usize, first: u64, second: u64)
    ensures
        after_toggle_readonly(after_toggle_readonly(tasks, id, first), id, second) == match position_of(
            tasks,
            id,
        ) {
            Some(i) => tasks.update(i, TodoItem { changed_date: second, ..tasks[i] }),
            None => tasks,
        },
{
    match position_of(tasks, id) {
        Some(i) => {
            let once = after_toggle_readonly(tasks, id, first);
            assert(is_first_with_id(once, id, i));
            lemma_position_of(once, id, i);
            assert(after_toggle_readonly(once, id, second) =~= tasks.update(
                i,
                TodoItem { changed_date: second, ..tasks[i] },
            ));
        },
        None => {},
    }
}

/// After a permanent delete no trashed item has the id, and every trashed
/// item with another id is still there.
pub proof fn lemma_permanent_delete_removes_exactly(trashed: Seq<TodoItem>, id: usize)
    ensures
        forall|k: int|
            0 <= k < after_permanent_delete(trashed, id).len() ==> (#[trigger] after_permanent_delete(
                trashed,
                id,
            )[k]).id != id,
        forall|k: int|
            0 <= k < trashed.len() && (#[trigger] trashed[k]).id != id ==> after_permanent_delete(
                trashed,
                id,
            ).contains(trashed[k]),
        after_permanent_delete(trashed, id).len() <= trashed.len(),
{
    let r = after_permanent_delete(trashed, id);
    trashed.lemma_filter_len(id_is_not(id));
    assert forall|k: int| 0 <= k < r.len() implies (#[trigger] r[k]).id != id by {
        trashed.lemma_filter_pred(id_is_not(id), k);
    }
    assert forall|k: int| 0 <= k < trashed.len() && (#[trigger] trashed[k]).id != id implies r.contains(
        trashed[k],
    ) by {
        trashed.lemma_filter_contains(id_is_not(id), k);
    }
}


/// The editor never changes an item that is locked against editing: when
/// the selected item is read-only there is nothing for it to edit.
pub proof fn lemma_locked_item_is_not_editable(v: AppView, id: usize)
    requires
        v.selected_id == Some(id),
        position_of(v.tasks, id) is Some,
        v.tasks[position_of(v.tasks, id).unwrap()].readonly,
    ensures
        editable_position(v) is None,
{
}

/// No two items of `s` share an id.
pub open spec fn ids_distinct(s: Seq<TodoItem>) -> bool {
    forall|i: int, j: int| 0 <= i < j < s.len() ==> (#[trigger] s[i]).id != (#[trigger] s[j]).id
}

/// `s2` has distinct ids when `s1` has and each position of `s2` holds the
/// id of a position of `s1`, different positions of `s2` coming from
/// different positions of `s1`.
proof fn lemma_distinct_by_map(s1: Seq<TodoItem>, s2: Seq<TodoItem>, f: spec_fn(int) -> int)
    requires
        ids_distinct(s1),
        forall|p: int| 0 <= p < s2.len() ==> 0 <= #[trigger] f(p) < s1.len() && s2[p].id == s1[f(p)].id,
        forall|p: int, q: int| 0 <= p < q < s2.len() ==> #[trigger] f(p) != #[trigger] f(q),
    ensures
        ids_distinct(s2),
{
    assert forall|p: int, q: int| 0 <= p < q < s2.len() implies (#[trigger] s2[p]).id != (
    #[trigger] s2[q]).id by {
        let a: int = f(p);
        let b: int = f(q);
        assert(a != b);
        if a < b {
            assert(s1[a].id != s1[b].id);
        } else {
            assert(s1[b].id != s1[a].id);
        }
    }
}

proof fn lemma_filter_distinct(s: Seq<TodoItem>, id: usize)
    requires
        ids_distinct(s),
    ensures
        ids_distinct(s.filter(id_is_not(id))),
        forall|p: int|
            0 <= p < s.filter(id_is_not(id)).len() ==> exists|k: int|
                0 <= k < s.len() && #[trigger] s.filter(id_is_not(id))[p] == s[k],
    decreases s.len(),
{
    reveal_with_fuel(Seq::<_>::filter, 1);
    if s.len() > 0 {
        let d = s.drop_last();
        assert(ids_distinct(d));
        lemma_filter_distinct(d, id);
        let fd = d.filter(id_is_not(id));
        let f = s.filter(id_is_not(id));
        assert forall|p: int| 0 <= p < fd.len() implies exists|k: int|
            0 <= k < s.len() && #[trigger] fd[p] == s[k] by {
            let k: int = choose|k: int| 0 <= k < d.len() && fd[p] == d[k];
            assert(fd[p] == s[k]);
        }
        if id_is_not(id)(s.last()) {
            assert(f == fd.push(s.last()));
            assert forall|p: int, q: int| 0 <= p < q < f.len() implies (#[trigger] f[p]).id != (
            #[trigger] f[q]).id by {
                if q == f.len() - 1 {
                    let k: int = choose|k: int| 0 <= k < d.len() && fd[p] == d[k];
                    assert(s[k] == d[k]);
                    assert(s[k].id != s[s.len() - 1].id);
                } else {
                    assert(f[p] == fd[p] && f[q] == fd[q]);
                }
            }
            assert forall|p: int| 0 <= p < f.len() implies exists|k: int|
                0 <= k < s.len() && #[trigger] f[p] == s[k] by {
                if p == f.len() - 1 {
                    assert(f[p] == s[s.len() - 1]);
                } else {
                    assert(f[p] == fd[p]);
                }
            }
        } else {
            assert(f == fd);
        }
    }
}

/// Moving items between the active list and the trash, deleting from the
/// trash, emptying it and flipping flags keep every id on at most one item.
pub proof fn lemma_ids_stay_distinct(
    tasks: Seq<TodoItem>,
    trashed: Seq<TodoItem>,
    id: usize,
    now: u64,
)
    requires
        ids_distinct(tasks + trashed),
    ensures
        ids_distinct(
            after_soft_delete(tasks, trashed, id, now).0 + after_soft_delete(tasks, trashed, id, now).1,
        ),
        ids_distinct(after_restore(tasks, trashed, id, now).0 + after_restore(tasks, trashed, id, now).1),
        ids_distinct(tasks + after_permanent_delete(trashed, id)),
        ids_distinct(tasks + Seq::<TodoItem>::empty()),
        ids_distinct(after_toggle_done(tasks, id, now) + trashed),
        ids_distinct(after_toggle_readonly(tasks, id, now) + trashed),
{
    let c = tasks + trashed;
    let n: int = tasks.len() as int;
    // soft delete
    match position_of(tasks, id) {
        Some(i) => {
            let c2 = tasks.remove(i) + (seq![trashed_at(tasks[i], now)] + trashed);
            let f = |p: int| if p < i { p } else if p < n - 1 { p + 1 } else if p == n - 1 { i } else { p };
            assert forall|p: int| 0 <= p < c2.len() implies 0 <= #[trigger] f(p) < c.len() && c2[p].id
                == c[f(p)].id by {}
            lemma_distinct_by_map(c, c2, f);
            assert(after_soft_delete(tasks, trashed, id, now).0 + after_soft_delete(tasks, trashed, id, now).1 =~= c2);
            let t1 = after_toggle_done(tasks, id, now) + trashed;
            let g = |p: int| p;
            assert forall|p: int| 0 <= p < t1.len() implies 0 <= #[trigger] g(p) < c.len() && t1[p].id
                == c[g(p)].id by {}
            lemma_distinct_by_map(c, t1, g);
            let t2 = after_toggle_readonly(tasks, id, now) + trashed;
            assert forall|p: int| 0 <= p < t2.len() implies 0 <= #[trigger] g(p) < c.len() && t2[p].id
                == c[g(p)].id by {}
            lemma_distinct_by_map(c, t2, g);
        },
        None => {},
    }
    // restore
    match position_of(trashed, id) {
        Some(i) => {
            let c2 = (seq![restored_at(trashed[i], now)] + tasks) + trashed.remove(i);
            let f = |p: int| if p == 0 { n + i } else if p <= n { p - 1 } else if p - n - 1 < i { p - 1 } else { p };
            assert forall|p: int| 0 <= p < c2.len() implies 0 <= #[trigger] f(p) < c.len() && c2[p].id
                == c[f(p)].id by {}
            lemma_distinct_by_map(c, c2, f);
        },
        None => {},
    }
    // permanent delete
    assert(ids_distinct(trashed)) by {
        assert forall|i: int, j: int| 0 <= i < j < trashed.len() implies (#[trigger] trashed[i]).id != (
        #[trigger] trashed[j]).id by {
            assert(c[n + i] == trashed[i] && c[n + j] == trashed[j]);
        }
    }
    lemma_filter_distinct(trashed, id);
    let fl = after_permanent_delete(trashed, id);
    let c3 = tasks + fl;
    assert forall|p: int, q: int| 0 <= p < q < c3.len() implies (#[trigger] c3[p]).id != (
    #[trigger] c3[q]).id by {
        if q < n {
            assert(c3[p] == c[p] && c3[q] == c[q]);
        } else if p >= n {
            assert(c3[p] == fl[p - n] && c3[q] == fl[q - n]);
        } else {
            let k: int = choose|k: int| 0 <= k < trashed.len() && fl[q - n] == trashed[k];
            assert(c3[q] == c[n + k]);
            assert(c3[p] == c[p]);
        }
    }
    assert forall|i: int, j: int| 0 <= i < j < (tasks + Seq::<TodoItem>::empty()).len() implies (
    #[trigger] (tasks + Seq::<TodoItem>::empty())[i]).id != (#[trigger] (tasks + Seq::<
        TodoItem,
    >::empty())[j]).id by {
        assert(c[i] == tasks[i] && c[j] == tasks[j]);
    }
}

} // verus!
