use vstd::prelude::*;
use crate::database::{encodes, Database, PersistenceError};
use crate::detail_view::{buffer_of, new_buffer, subject_valid, DetailMode, DetailView, DetailViewModel};
use crate::dialog::ConfirmDialog;
use crate::main_view::MainView;
use crate::todo::{clock_or, fresh_id, toggled, Todo, TodoView};

verus! {

/// Which screen the controller shows.
#[derive(Debug, Clone, Copy, PartialEq, Eq, Structural)]
pub enum AppState {
    Main,
    Detail,
    Confirm,
}

/// What a call that may change the collection hands back: `Ok(Some(bytes))`
/// when it changed and `bytes` is the snapshot that the backing store is now
/// to hold, `Ok(None)` when nothing changed. The error is that of a snapshot
/// that could not be encoded, which does not happen for these records.
pub type Persisted = Result<Option<Vec<u8>>, PersistenceError>;

/// `r` reports a rewrite of the collection, now `m` (or, where `wrote` is
/// false, that nothing was to be written).
pub open spec fn reports(r: Persisted, wrote: bool, m: Map<Seq<char>, TodoView>) -> bool {
    if wrote {
        r matches Ok(Some(bytes)) && encodes(bytes@, m)
    } else {
        r == Ok::<Option<Vec<u8>>, PersistenceError>(None)
    }
}

/// The prompt that asks whether to delete the item with subject `subject`.
pub open spec fn delete_prompt(subject: Seq<char>) -> Seq<char> {
    "Delete todo: \""@ + subject + "\"?"@
}

/// `m` is `before` with a new open item under `id`, an identifier that
/// `before` did not hold, that the buffer `dv` describes.
pub open spec fn created_from(before: Map<Seq<char>, TodoView>, m: Map<Seq<char>, TodoView>, id: Seq<char>, dv: DetailViewModel) -> bool {
    &&& m.contains_key(id)
    &&& m == before.insert(id, m[id])
    &&& !before.contains_key(id)
    &&& m[id].id == id
    &&& m[id].subject == dv.subject
    &&& m[id].description == dv.description
    &&& m[id].closed_at is None
    &&& m[id].created_at == m[id].last_modified_at
}

/// `m` is `before` with the item under `id` given the buffer's subject and
/// description and a later stamp.
pub open spec fn edited_from(before: Map<Seq<char>, TodoView>, m: Map<Seq<char>, TodoView>, id: Seq<char>, dv: DetailViewModel) -> bool {
    let t = before[id];
    let u = m[id];
    &&& m.contains_key(id)
    &&& m == before.insert(id, u)
    &&& u.id == t.id
    &&& u.subject == dv.subject
    &&& u.description == dv.description
    &&& u.created_at == t.created_at
    &&& u.closed_at == t.closed_at
    &&& u.last_modified_at >= t.last_modified_at
    &&& t.last_modified_at < i64::MAX ==> u.last_modified_at > t.last_modified_at
}

/// `b` is `a` with the item under the cursor opened in `mode`; with no item
/// under the cursor nothing changes.
pub open spec fn opens(a: App, b: App, mode: DetailMode) -> bool {
    match a.selected_item() {
        Some(t) => {
            &&& b.detail_view matches Some(dv) && dv@ == buffer_of(t, mode)
            &&& b.current_todo_id matches Some(id) && id@ == t.id
            &&& b == (App {
                state: AppState::Detail,
                detail_view: b.detail_view,
                current_todo_id: b.current_todo_id,
                ..a
            })
        },
        None => b == a,
    }
}

/// `b` is `a` with an empty draft opened.
pub open spec fn opens_draft(a: App, b: App) -> bool {
    &&& b.detail_view matches Some(dv) && dv@ == new_buffer()
    &&& b == (App { state: AppState::Detail, detail_view: b.detail_view, current_todo_id: None, ..a })
}

/// `b` is `a` with the edit buffer replaced by one that `v` describes.
pub open spec fn buffer_becomes(a: App, b: App, v: DetailViewModel) -> bool {
    &&& b.detail_view matches Some(dv) && dv@ == v
    &&& b == (App { detail_view: b.detail_view, ..a })
}

/// `b` is `a` back on the main screen, without a buffer.
pub open spec fn detail_closed(a: App, b: App) -> bool {
    b == (App { state: AppState::Main, detail_view: None, current_todo_id: None, ..a })
}

/// `b` is `a` back on the main screen, without a prompt.
pub open spec fn confirm_closed(a: App, b: App) -> bool {
    b == (App { state: AppState::Main, confirm_dialog: None, pending_delete_id: None, ..a })
}

/// Explicit save from `a` gives `b` and reports `r`.
pub open spec fn saves_buffer(a: App, b: App, r: Persisted) -> bool {
    if a.detail_view is None {
        r == Ok::<Option<Vec<u8>>, PersistenceError>(None) && detail_closed(a, b)
    } else {
        &&& a.stored_buffer(b.database@)
        &&& reports(r, a.buffer_stores(), b.database@)
        &&& if a.buffer_stores() && a.detail_view->0.mode == DetailMode::New {
            &&& b.current_todo_id matches Some(id) && created_from(a.database@, b.database@, id@, a.detail_view->0@)
            &&& b.detail_view matches Some(dv) && dv@ == (DetailViewModel { mode: DetailMode::Edit, ..a.detail_view->0@ })
            &&& b == (App {
                database: b.database,
                current_todo_id: b.current_todo_id,
                detail_view: b.detail_view,
                ..a
            })
        } else {
            b == (App { database: b.database, ..a })
        }
    }
}

/// Closing the detail screen from `a` gives `b` and reports `r`.
pub open spec fn closes_buffer(a: App, b: App, r: Persisted) -> bool {
    &&& a.stored_buffer(b.database@)
    &&& reports(r, a.buffer_stores(), b.database@)
    &&& b == (App {
        database: b.database,
        state: AppState::Main,
        detail_view: None,
        current_todo_id: None,
        ..a
    })
}

/// Toggling the item under the cursor from `a` gives `b` and reports `r`.
pub open spec fn toggles_selected(a: App, b: App, r: Persisted) -> bool {
    &&& b == (App { database: b.database, ..a })
    &&& match a.selected_item() {
        Some(t) => {
            &&& b.database@ == a.database@.insert(t.id, b.database@[t.id])
            &&& toggled(t, b.database@[t.id])
            &&& reports(r, true, b.database@)
        },
        None => r == Ok::<Option<Vec<u8>>, PersistenceError>(None) && b == a,
    }
}

/// `b` is `a` asking whether to delete the item under the cursor; with no
/// item under the cursor nothing changes.
pub open spec fn asks_delete(a: App, b: App) -> bool {
    match a.selected_item() {
        Some(t) => {
            &&& b.pending_delete_id matches Some(id) && id@ == t.id
            &&& b.confirm_dialog matches Some(d) && d.title@ == "Delete Todo"@ && d.message@ == delete_prompt(t.subject)
            &&& b == (App {
                state: AppState::Confirm,
                pending_delete_id: b.pending_delete_id,
                confirm_dialog: b.confirm_dialog,
                ..a
            })
        },
        None => b == a,
    }
}

/// Confirming the prompt from `a` gives `b` and reports `r`.
pub open spec fn deletes_pending(a: App, b: App, r: Persisted) -> bool {
    &&& match a.pending_delete_id {
        Some(id) => b.database@ == a.database@.remove(id@) && reports(r, true, b.database@),
        None => r == Ok::<Option<Vec<u8>>, PersistenceError>(None) && b.database == a.database,
    }
    &&& b == (App {
        database: b.database,
        state: AppState::Main,
        confirm_dialog: None,
        pending_delete_id: None,
        ..a
    })
}

fn snapshot_written(r: Result<Vec<u8>, PersistenceError>) -> (p: Persisted)
    ensures
        r matches Ok(b) ==> p == Ok::<Option<Vec<u8>>, PersistenceError>(Some(b)),
        r matches Err(e) ==> p == Err::<Option<Vec<u8>>, PersistenceError>(e),
{
    match r {
        Ok(b) => Ok(Some(b)),
        Err(e) => Err(e),
    }
}

/// The application controller: the screen shown, the selection cursor, the
/// edit buffer and prompt, the storage engine, and the identifiers of the
/// item being edited and of the one about to be deleted.
pub struct App {
    pub state: AppState,
    pub main_view: MainView,
    pub detail_view: Option<DetailView>,
    pub confirm_dialog: Option<ConfirmDialog>,
    pub database: Database,
    pub should_quit: bool,
    pub current_todo_id: Option<String>,
    pub pending_delete_id: Option<String>,
}

impl App {
    pub open spec fn wf(&self) -> bool {
        self.database.wf()
    }

    /// The items as the main screen lists them.
    pub open spec fn listing(&self) -> Seq<TodoView> {
        self.database.listing()
    }

    /// The item under the cursor, if the cursor falls on one.
    pub open spec fn selected_item(&self) -> Option<TodoView> {
        match self.main_view.selected {
            Some(i) => if i < self.listing().len() {
                Some(self.listing()[i as int])
            } else {
                None
            },
            None => None,
        }
    }

    /// Whether the edit buffer is one that persisting would store: valid, and
    /// a draft or an edit of an item that is still there.
    pub open spec fn buffer_stores(&self) -> bool {
        match self.detail_view {
            Some(dv) => subject_valid(dv.subject@) && match dv.mode {
                DetailMode::New => true,
                DetailMode::Edit => self.current_todo_id matches Some(id) && self.database@.contains_key(id@),
                DetailMode::View => false,
            },
            None => false,
        }
    }

    /// `m` is what persisting the edit buffer makes of the collection.
    pub open spec fn stored_buffer(&self, m: Map<Seq<char>, TodoView>) -> bool {
        if self.buffer_stores() {
            let dv = self.detail_view->0;
            if dv.mode == DetailMode::New {
                exists|id: Seq<char>| #[trigger] created_from(self.database@, m, id, dv@)
            } else {
                edited_from(self.database@, m, self.current_todo_id->0@, dv@)
            }
        } else {
            m == self.database@
        }
    }

    /// A controller on the main screen over `database`, cursor on the first
    /// row.
    pub fn new(database: Database) -> (r: App)
        ensures
            r == (App {
                state: AppState::Main,
                main_view: MainView { selected: Some(0) },
                detail_view: None,
                confirm_dialog: None,
                database,
                should_quit: false,
                current_todo_id: None,
                pending_delete_id: None,
            }),
    {
        App {
            state: AppState::Main,
            main_view: MainView::new(),
            detail_view: None,
            confirm_dialog: None,
            database,
            should_quit: false,
            current_todo_id: None,
            pending_delete_id: None,
        }
    }

    /// The items in listing order.
    pub fn get_current_todos(&self) -> (r: Vec<Todo>)
        requires
            self.wf(),
        ensures
            r@.map_values(|t: Todo| t@) == self.listing(),
    {
        self.database.get_all_todos()
    }

    /// The item under the cursor, if the cursor falls on one.
    pub fn get_selected_todo(&self) -> (r: Option<Todo>)
        requires
            self.wf(),
        ensures
            r is Some == self.selected_item() is Some,
            r matches Some(t) ==> t@ == self.selected_item()->0,
    {
        let todos = self.database.get_all_todos();
        match self.main_view.selected_index() {
            Some(index) => {
                if index < todos.len() {
                    assert(todos@.map_values(|t: Todo| t@)[index as int] == todos@[index as int]@);
                    Some(todos[index].clone())
                } else {
                    None
                }
            },
            None => None,
        }
    }

    fn open_selected(&mut self, mode: DetailMode)
        requires
            old(self).wf(),
            mode != DetailMode::New,
        ensures
            final(self).wf(),
            opens(*old(self), *final(self), mode),
    {
        if let Some(todo) = self.get_selected_todo() {
            self.current_todo_id = Some(todo.id.clone());
            self.detail_view = Some(if mode == DetailMode::View {
                DetailView::new_for_viewing(&todo)
            } else {
                DetailView::new_for_editing(&todo)
            });
            self.state = AppState::Detail;
        }
    }

    /// Opens the item under the cursor for viewing.
    pub fn open_detail_view(&mut self)
        requires
            old(self).wf(),
        ensures
            final(self).wf(),
            opens(*old(self), *final(self), DetailMode::View),
    {
        self.open_selected(DetailMode::View);
    }

    /// Opens the item under the cursor for editing.
    pub fn open_edit_view(&mut self)
        requires
            old(self).wf(),
        ensures
            final(self).wf(),
            opens(*old(self), *final(self), DetailMode::Edit),
    {
        self.open_selected(DetailMode::Edit);
    }

    /// Opens an empty draft.
    pub fn open_new_todo(&mut self)
        requires
            old(self).wf(),
        ensures
            final(self).wf(),
            opens_draft(*old(self), *final(self)),
    {
        self.current_todo_id = None;
        self.detail_view = Some(DetailView::new_for_creation());
        self.state = AppState::Detail;
    }

    /// Leaves the detail screen, dropping the buffer.
    pub fn close_detail_view(&mut self)
        ensures
            detail_closed(*old(self), *final(self)),
    {
        self.detail_view = None;
        self.current_todo_id = None;
        self.state = AppState::Main;
    }

    /// Leaves the confirmation prompt without deleting.
    pub fn close_confirm_dialog(&mut self)
        ensures
            confirm_closed(*old(self), *final(self)),
    {
        self.confirm_dialog = None;
        self.pending_delete_id = None;
        self.state = AppState::Main;
    }

    /// An identifier for a new item that no stored item has: a freshly drawn
    /// one, drawn again a few times should it be taken, and otherwise one
    /// built to differ from every stored identifier.
    fn new_identifier(&self) -> (r: String)
        requires
            self.wf(),
        ensures
            !self.database@.contains_key(r@),
    {
        let mut id = fresh_id();
        let mut draws: usize = 1;
        while draws < 4
            invariant
                self.wf(),
                draws <= 4,
            decreases 4 - draws,
        {
            if self.database.contains(id.as_str()) {
                id = fresh_id();
            }
            draws = draws + 1;
        }
        if self.database.contains(id.as_str()) {
            self.database.unused_id()
        } else {
            id
        }
    }

    /// Persists the edit buffer where it stores; for a draft, also hands back
    /// the identifier of the item made from it.
    fn store_buffer(&mut self) -> (r: (Persisted, Option<String>))
        requires
            old(self).wf(),
        ensures
            final(self).wf(),
            *final(self) == (App { database: final(self).database, ..*old(self) }),
            old(self).stored_buffer(final(self).database@),
            reports(r.0, old(self).buffer_stores(), final(self).database@),
            old(self).buffer_stores() && old(self).detail_view->0.mode == DetailMode::New ==> (r.1 matches Some(id)
                && created_from(old(self).database@, final(self).database@, id@, old(self).detail_view->0@)),
            !(old(self).buffer_stores() && old(self).detail_view->0.mode == DetailMode::New) ==> r.1 is None,
    {
        let (subject, description, mode, valid) = match &self.detail_view {
            Some(dv) => (dv.subject.clone(), dv.description.clone(), dv.mode, dv.is_valid()),
            None => {
                return (Ok(None), None);
            },
        };
        if !valid {
            return (Ok(None), None);
        }
        match mode {
            DetailMode::New => {
                let todo = Todo::from_parts(self.new_identifier(), subject, description, clock_or(0));
                let id = todo.id.clone();
                let r = self.database.add_todo(todo);
                assert(created_from(old(self).database@, self.database@, id@, old(self).detail_view->0@));
                (snapshot_written(r), Some(id))
            },
            DetailMode::Edit => {
                let id = match &self.current_todo_id {
                    Some(id) => id.clone(),
                    None => {
                        return (Ok(None), None);
                    },
                };
                let found = self.database.get_todo(id.as_str());
                match found {
                    Some(t) => {
                        let mut todo = t.clone();
                        todo.update(subject, description);
                        let r = self.database.update_todo(todo);
                        (snapshot_written(r), None)
                    },
                    None => (Ok(None), None),
                }
            },
            DetailMode::View => (Ok(None), None),
        }
    }

    /// Explicit save: persists a valid buffer (a draft becomes an item, an
    /// edit updates its item) and keeps the detail screen open; a draft that
    /// was stored goes on as an edit of the new item, so that closing later
    /// updates it rather than adding a second one. An invalid buffer is
    /// left as it is. Without a buffer the detail screen is closed.
    pub fn save_current_todo(&mut self) -> (r: Persisted)
        requires
            old(self).wf(),
        ensures
            final(self).wf(),
            saves_buffer(*old(self), *final(self), r),
    {
        if self.detail_view.is_none() {
            self.close_detail_view();
            return Ok(None);
        }
        let (r, created) = self.store_buffer();
        if let Some(id) = created {
            self.current_todo_id = Some(id);
            if let Some(dv) = &mut self.detail_view {
                dv.mode = DetailMode::Edit;
            }
        }
        r
    }

    /// Close: persists a valid buffer as an explicit save would, then leaves
    /// the detail screen, dropping the buffer.
    pub fn close_detail_view_with_save(&mut self) -> (r: Persisted)
        requires
            old(self).wf(),
        ensures
            final(self).wf(),
            closes_buffer(*old(self), *final(self), r),
    {
        let (r, _created) = self.store_buffer();
        self.close_detail_view();
        r
    }

    /// Flips completion of the item under the cursor.
    pub fn toggle_selected_todo(&mut self) -> (r: Persisted)
        requires
            old(self).wf(),
        ensures
            final(self).wf(),
            toggles_selected(*old(self), *final(self), r),
    {
        if let Some(mut todo) = self.get_selected_todo() {
            todo.toggle_completion();
            let r = self.database.update_todo(todo);
            snapshot_written(r)
        } else {
            Ok(None)
        }
    }

    /// Asks whether to delete the item under the cursor.
    pub fn confirm_delete_selected(&mut self)
        requires
            old(self).wf(),
        ensures
            final(self).wf(),
            asks_delete(*old(self), *final(self)),
    {
        if let Some(todo) = self.get_selected_todo() {
            self.pending_delete_id = Some(todo.id.clone());
            let mut message = String::from_str("Delete todo: \"");
            message.append(todo.subject.as_str());
            message.append("\"?");
            self.confirm_dialog = Some(ConfirmDialog::new(String::from_str("Delete Todo"), message));
            self.state = AppState::Confirm;
        }
    }

    /// Deletes the item that the prompt asked about and leaves the prompt.
    pub fn delete_confirmed_todo(&mut self) -> (r: Persisted)
        requires
            old(self).wf(),
        ensures
            final(self).wf(),
            deletes_pending(*old(self), *final(self), r),
    {
        let mut r: Persisted = Ok(None);
        if let Some(id) = &self.pending_delete_id {
            let id = id.clone();
            let written = self.database.delete_todo(id.as_str());
            r = snapshot_written(written);
        }
        self.close_confirm_dialog();
        r
    }

    pub fn quit(&mut self)
        ensures
            *final(self) == (App { should_quit: true, ..*old(self) }),
    {
        self.should_quit = true;
    }
}

} // verus!
