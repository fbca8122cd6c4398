use todo_cli::app::{App, AppState};
use todo_cli::database::Database;
use todo_cli::detail_view::DetailMode;
use todo_cli::events::{
    handle_confirm_keys, handle_detail_keys, handle_key_event, handle_main_keys, EventHandler,
    KeyCode, KeyEvent,
};
use todo_cli::main_view::MainView;
use todo_cli::todo::Todo;

fn create_test_app() -> App {
    let database = Database::new_in_memory().unwrap();
    App {
        state: AppState::Main,
        main_view: MainView::new(),
        detail_view: None,
        confirm_dialog: None,
        database,
        should_quit: false,
        current_todo_id: None,
        pending_delete_id: None,
    }
}

fn create_key_event(code: KeyCode) -> KeyEvent {
    KeyEvent::new(code, false)
}

fn create_key_event_with_control(code: KeyCode) -> KeyEvent {
    KeyEvent::new(code, true)
}

#[test]
fn test_event_handler_creation() {
    let handler = EventHandler::new();
    assert_eq!(std::mem::size_of_val(&handler), 0);
}

#[test]
fn test_main_keys_quit() {
    let mut app = create_test_app();
    let key = create_key_event(KeyCode::Char('q'));

    let result = handle_main_keys(&mut app, key);
    assert!(result.is_ok());
    assert!(app.should_quit);
}

#[test]
fn test_main_keys_navigation() {
    let mut app = create_test_app();

    let todo1 = Todo::new("Todo 1".to_string(), "Description 1".to_string());
    let todo2 = Todo::new("Todo 2".to_string(), "Description 2".to_string());
    app.database.insert_todo_for_test(todo1);
    app.database.insert_todo_for_test(todo2);

    let key = create_key_event(KeyCode::Char('j'));
    let result = handle_main_keys(&mut app, key);
    assert!(result.is_ok());

    let key = create_key_event(KeyCode::Char('k'));
    let result = handle_main_keys(&mut app, key);
    assert!(result.is_ok());

    let key = create_key_event(KeyCode::Down);
    let result = handle_main_keys(&mut app, key);
    assert!(result.is_ok());

    let key = create_key_event(KeyCode::Up);
    let result = handle_main_keys(&mut app, key);
    assert!(result.is_ok());
}

#[test]
fn test_main_keys_open_detail_view() {
    let mut app = create_test_app();

    let todo = Todo::new("Test Todo".to_string(), "Description".to_string());
    app.database.insert_todo_for_test(todo);

    let key = create_key_event(KeyCode::Enter);
    let result = handle_main_keys(&mut app, key);
    assert!(result.is_ok());
    assert!(matches!(app.state, AppState::Detail));
    assert!(app.detail_view.is_some());
}

#[test]
fn test_main_keys_new_todo() {
    let mut app = create_test_app();

    let key = create_key_event(KeyCode::Char('n'));
    let result = handle_main_keys(&mut app, key);
    assert!(result.is_ok());
    assert!(matches!(app.state, AppState::Detail));
    assert!(app.detail_view.is_some());

    let detail_view = app.detail_view.as_ref().unwrap();
    assert!(matches!(detail_view.mode, DetailMode::New));
}

#[test]
fn test_main_keys_edit_todo() {
    let mut app = create_test_app();

    let todo = Todo::new("Test Todo".to_string(), "Description".to_string());
    app.database.insert_todo_for_test(todo);

    let key = create_key_event(KeyCode::Char('e'));
    let result = handle_main_keys(&mut app, key);
    assert!(result.is_ok());
    assert!(matches!(app.state, AppState::Detail));
    assert!(app.detail_view.is_some());

    let detail_view = app.detail_view.as_ref().unwrap();
    assert!(matches!(detail_view.mode, DetailMode::Edit));
}

#[test]
fn test_main_keys_confirm_delete() {
    let mut app = create_test_app();

    let todo = Todo::new("Test Todo".to_string(), "Description".to_string());
    app.database.insert_todo_for_test(todo);

    let key = create_key_event(KeyCode::Char('x'));
    let result = handle_main_keys(&mut app, key);
    assert!(result.is_ok());
    assert!(matches!(app.state, AppState::Confirm));
    assert!(app.confirm_dialog.is_some());
}

#[test]
fn test_detail_keys_view_mode() {
    let mut app = create_test_app();
    app.open_new_todo();

    if let Some(detail_view) = &mut app.detail_view {
        detail_view.mode = DetailMode::View;
    }

    let key = create_key_event(KeyCode::Esc);
    let result = handle_detail_keys(&mut app, key);
    assert!(result.is_ok());

    app.open_new_todo();
    if let Some(detail_view) = &mut app.detail_view {
        detail_view.mode = DetailMode::View;
    }

    let key = create_key_event(KeyCode::Char('e'));
    let result = handle_detail_keys(&mut app, key);
    assert!(result.is_ok());

    if let Some(detail_view) = &app.detail_view {
        assert!(matches!(detail_view.mode, DetailMode::Edit));
    }
}

#[test]
fn test_detail_keys_edit_mode() {
    let mut app = create_test_app();
    app.open_new_todo();

    let key = create_key_event(KeyCode::Tab);
    let result = handle_detail_keys(&mut app, key);
    assert!(result.is_ok());

    let key = create_key_event(KeyCode::Char('H'));
    let result = handle_detail_keys(&mut app, key);
    assert!(result.is_ok());

    let key = create_key_event(KeyCode::Backspace);
    let result = handle_detail_keys(&mut app, key);
    assert!(result.is_ok());

    let key = create_key_event_with_control(KeyCode::Char('s'));
    let result = handle_detail_keys(&mut app, key);
    assert!(result.is_ok());
}

#[test]
fn test_confirm_keys() {
    let mut app = create_test_app();

    let todo = Todo::new("Test Todo".to_string(), "Description".to_string());
    app.database.insert_todo_for_test(todo);
    app.confirm_delete_selected();

    let key = create_key_event(KeyCode::Char('n'));
    let result = handle_confirm_keys(&mut app, key);
    assert!(result.is_ok());
    assert!(matches!(app.state, AppState::Main));
    assert!(app.confirm_dialog.is_none());

    app.confirm_delete_selected();

    let key = create_key_event(KeyCode::Esc);
    let result = handle_confirm_keys(&mut app, key);
    assert!(result.is_ok());
    assert!(matches!(app.state, AppState::Main));
    assert!(app.confirm_dialog.is_none());
}

#[test]
fn test_handle_key_event_routing() {
    let mut app = create_test_app();

    let key = create_key_event(KeyCode::Char('q'));
    let result = handle_key_event(&mut app, key);
    assert!(result.is_ok());
    assert!(app.should_quit);

    app = create_test_app();
    app.open_new_todo();

    let key = create_key_event(KeyCode::Char('H'));
    let result = handle_key_event(&mut app, key);
    assert!(result.is_ok());

    app = create_test_app();
    let todo = Todo::new("Test Todo".to_string(), "Description".to_string());
    app.database.insert_todo_for_test(todo);
    app.confirm_delete_selected();

    let key = create_key_event(KeyCode::Char('n'));
    let result = handle_key_event(&mut app, key);
    assert!(result.is_ok());
    assert!(matches!(app.state, AppState::Main));
}
