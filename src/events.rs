use vstd::prelude::*;
use crate::app::{
    asks_delete, buffer_becomes, closes_buffer, confirm_closed, deletes_pending, opens, opens_draft,
    saves_buffer, toggles_selected, App, AppState, Persisted,
};
use crate::database::PersistenceError;
use crate::detail_view::{
    next_field_of, previous_field_of, with_char, without_last_char, DetailMode, DetailViewModel,
};
use crate::main_view::{next_selection, previous_selection, MainView};

verus! {

/// The keys that the controller tells apart.
#[derive(Debug, Clone, Copy, PartialEq, Eq, Structural)]
pub enum KeyCode {
    Char(char),
    Enter,
    Esc,
    Tab,
    BackTab,
    Backspace,
    Up,
    Down,
    Other,
}

/// A key press: the key, and whether Control was held.
#[derive(Debug, Clone, Copy, PartialEq, Eq, Structural)]
pub struct KeyEvent {
    pub code: KeyCode,
    pub control: bool,
}

impl KeyEvent {
    pub fn new(code: KeyCode, control: bool) -> (r: KeyEvent)
        ensures
            r == (KeyEvent { code, control }),
    {
        KeyEvent { code, control }
    }
}

/// What the input source yields: a key press, or a tick when none came in
/// time, which only asks for a redraw.
#[derive(Debug, Clone, Copy, PartialEq, Eq, Structural)]
pub enum AppEvent {
    Key(KeyEvent),
    Tick,
}

/// The source of input events; the terminal side polls it.
#[derive(Debug)]
pub struct EventHandler;

impl EventHandler {
    pub fn new() -> (r: EventHandler) {
        EventHandler
    }
}

/// Unchanged, and nothing to write.
pub open spec fn ignores(a: App, b: App, r: Persisted) -> bool {
    b == a && r == Ok::<Option<Vec<u8>>, PersistenceError>(None)
}

/// What `key` does on the main screen.
pub open spec fn main_key_step(a: App, b: App, key: KeyEvent, r: Persisted) -> bool {
    let len = a.listing().len() as usize;
    let none = Ok::<Option<Vec<u8>>, PersistenceError>(None);
    match key.code {
        KeyCode::Char('q') => r == none && b == (App { should_quit: true, ..a }),
        KeyCode::Char('j') | KeyCode::Down => r == none && b == (App {
            main_view: MainView { selected: next_selection(a.main_view.selected, len) },
            ..a
        }),
        KeyCode::Char('k') | KeyCode::Up => r == none && b == (App {
            main_view: MainView { selected: previous_selection(a.main_view.selected, len) },
            ..a
        }),
        KeyCode::Enter => r == none && opens(a, b, DetailMode::View),
        KeyCode::Char('d') => toggles_selected(a, b, r),
        KeyCode::Char('n') => r == none && opens_draft(a, b),
        KeyCode::Char('x') => r == none && asks_delete(a, b),
        KeyCode::Char('e') => r == none && opens(a, b, DetailMode::Edit),
        _ => ignores(a, b, r),
    }
}

/// What `key` does on the detail screen.
pub open spec fn detail_key_step(a: App, b: App, key: KeyEvent, r: Persisted) -> bool {
    let none = Ok::<Option<Vec<u8>>, PersistenceError>(None);
    match a.detail_view {
        None => ignores(a, b, r),
        Some(dv) => {
            let v = dv@;
            if v.mode == DetailMode::View {
                match key.code {
                    KeyCode::Esc => closes_buffer(a, b, r),
                    KeyCode::Char('e') => r == none && buffer_becomes(a, b, DetailViewModel { mode: DetailMode::Edit, ..v }),
                    _ => ignores(a, b, r),
                }
            } else {
                match key.code {
                    KeyCode::Esc => closes_buffer(a, b, r),
                    KeyCode::Tab => r == none && buffer_becomes(a, b, next_field_of(v)),
                    KeyCode::BackTab => r == none && buffer_becomes(a, b, previous_field_of(v)),
                    KeyCode::Char(c) => if c == 's' && key.control {
                        saves_buffer(a, b, r)
                    } else {
                        r == none && buffer_becomes(a, b, with_char(v, c))
                    },
                    KeyCode::Backspace => r == none && buffer_becomes(a, b, without_last_char(v)),
                    KeyCode::Enter => if v.current_field == 1 {
                        r == none && buffer_becomes(a, b, with_char(v, '\n'))
                    } else {
                        ignores(a, b, r)
                    },
                    _ => ignores(a, b, r),
                }
            }
        },
    }
}

/// What `key` does on the confirmation prompt.
pub open spec fn confirm_key_step(a: App, b: App, key: KeyEvent, r: Persisted) -> bool {
    match key.code {
        KeyCode::Char('y') => deletes_pending(a, b, r),
        KeyCode::Char('n') | KeyCode::Esc => r == Ok::<Option<Vec<u8>>, PersistenceError>(None) && confirm_closed(a, b),
        _ => ignores(a, b, r),
    }
}

/// What `key` does on the screen that `a` shows.
pub open spec fn key_step(a: App, b: App, key: KeyEvent, r: Persisted) -> bool {
    match a.state {
        AppState::Main => main_key_step(a, b, key, r),
        AppState::Detail => detail_key_step(a, b, key, r),
        AppState::Confirm => confirm_key_step(a, b, key, r),
    }
}

/// Interprets `key` on the screen that the controller shows.
pub fn handle_key_event(app: &mut App, key: KeyEvent) -> (r: Persisted)
    requires
        old(app).wf(),
    ensures
        final(app).wf(),
        key_step(*old(app), *final(app), key, r),
{
    match app.state {
        AppState::Main => handle_main_keys(app, key),
        AppState::Detail => handle_detail_keys(app, key),
        AppState::Confirm => handle_confirm_keys(app, key),
    }
}

/// Interprets `key` on the main screen.
pub fn handle_main_keys(app: &mut App, key: KeyEvent) -> (r: Persisted)
    requires
        old(app).wf(),
    ensures
        final(app).wf(),
        main_key_step(*old(app), *final(app), key, r),
{
    let todos = app.get_current_todos();
    let len = todos.len();
    proof {
        app.database.lemma_listing();
        assert(todos@.map_values(|t: crate::todo::Todo| t@).len() == todos@.len());
    }
    match key.code {
        KeyCode::Char('q') => app.quit(),
        KeyCode::Char('j') | KeyCode::Down => app.main_view.next(len),
        KeyCode::Char('k') | KeyCode::Up => app.main_view.previous(len),
        KeyCode::Enter => app.open_detail_view(),
        KeyCode::Char('d') => {
            return app.toggle_selected_todo();
        },
        KeyCode::Char('n') => app.open_new_todo(),
        KeyCode::Char('x') => app.confirm_delete_selected(),
        KeyCode::Char('e') => app.open_edit_view(),
        _ => {},
    }
    Ok(None)
}

/// Interprets `key` on the detail screen.
pub fn handle_detail_keys(app: &mut App, key: KeyEvent) -> (r: Persisted)
    requires
        old(app).wf(),
    ensures
        final(app).wf(),
        detail_key_step(*old(app), *final(app), key, r),
{
    let (mode, field) = match &app.detail_view {
        Some(dv) => (dv.mode, dv.current_field),
        None => {
            return Ok(None);
        },
    };
    match mode {
        DetailMode::View => {
            match key.code {
                KeyCode::Esc => {
                    return app.close_detail_view_with_save();
                },
                KeyCode::Char('e') => {
                    if let Some(dv) = &mut app.detail_view {
                        dv.mode = DetailMode::Edit;
                    }
                },
                _ => {},
            }
        },
        DetailMode::Edit | DetailMode::New => {
            match key.code {
                KeyCode::Esc => {
                    return app.close_detail_view_with_save();
                },
                KeyCode::Char(c) => {
                    if c == 's' && key.control {
                        return app.save_current_todo();
                    }
                    if let Some(dv) = &mut app.detail_view {
                        dv.add_char(c);
                    }
                },
                KeyCode::Tab => {
                    if let Some(dv) = &mut app.detail_view {
                        dv.next_field();
                    }
                },
                KeyCode::BackTab => {
                    if let Some(dv) = &mut app.detail_view {
                        dv.previous_field();
                    }
                },
                KeyCode::Backspace => {
                    if let Some(dv) = &mut app.detail_view {
                        dv.delete_char();
                    }
                },
                KeyCode::Enter => {
                    if field == 1 {
                        if let Some(dv) = &mut app.detail_view {
                            dv.add_char('\n');
                        }
                    }
                },
                _ => {},
            }
        },
    }
    Ok(None)
}

/// Interprets `key` on the confirmation prompt.
pub fn handle_confirm_keys(app: &mut App, key: KeyEvent) -> (r: Persisted)
    requires
        old(app).wf(),
    ensures
        final(app).wf(),
        confirm_key_step(*old(app), *final(app), key, r),
{
    match key.code {
        KeyCode::Char('y') => app.delete_confirmed_todo(),
        KeyCode::Char('n') | KeyCode::Esc => {
            app.close_confirm_dialog();
            Ok(None)
        },
        _ => Ok(None),
    }
}

} // verus!
