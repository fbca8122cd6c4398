use todo_cli::app::{App, AppState};
use todo_cli::database::Database;
use todo_cli::detail_view::DetailMode;
use todo_cli::main_view::MainView;
use todo_cli::todo::Todo;

fn create_test_app() -> App {
    let database = Database::new_in_memory().unwrap();
    App {
        state: AppState::Main,
        main_view: MainView::new(),
        detail_view: None,
        confirm_dialog: None,
        database,
        should_quit: false,
        current_todo_id: None,
        pending_delete_id: None,
    }
}

#[test]
fn test_app_creation() {
    let app = create_test_app();
    assert!(matches!(app.state, AppState::Main));
    assert!(!app.should_quit);
    assert!(app.detail_view.is_none());
    assert!(app.confirm_dialog.is_none());
    assert!(app.current_todo_id.is_none());
    assert!(app.pending_delete_id.is_none());
}

#[test]
fn test_get_current_todos_empty() {
    let app = create_test_app();
    let todos = app.get_current_todos();
    assert!(todos.is_empty());
}

#[test]
fn test_get_current_todos_with_data() {
    let mut app = create_test_app();

    let todo1 = Todo::new("Todo 1".to_string(), "Description 1".to_string());
    let todo2 = Todo::new("Todo 2".to_string(), "Description 2".to_string());

    app.database.insert_todo_for_test(todo1);
    app.database.insert_todo_for_test(todo2);

    let todos = app.get_current_todos();
    assert_eq!(todos.len(), 2);
}

#[test]
fn test_get_selected_todo() {
    let mut app = create_test_app();

    assert!(app.get_selected_todo().is_none());

    let todo = Todo::new("Test Todo".to_string(), "Description".to_string());
    app.database.insert_todo_for_test(todo.clone());

    let selected = app.get_selected_todo();
    assert!(selected.is_some());
    assert_eq!(selected.unwrap().subject, "Test Todo");
}

#[test]
fn test_open_detail_view() {
    let mut app = create_test_app();

    let todo = Todo::new("Test Todo".to_string(), "Description".to_string());
    let todo_id = todo.id.clone();
    app.database.insert_todo_for_test(todo);

    app.open_detail_view();

    assert!(matches!(app.state, AppState::Detail));
    assert!(app.detail_view.is_some());
    assert_eq!(app.current_todo_id, Some(todo_id));

    let detail_view = app.detail_view.as_ref().unwrap();
    assert_eq!(detail_view.subject, "Test Todo");
    assert!(matches!(detail_view.mode, DetailMode::View));
}

#[test]
fn test_open_edit_view() {
    let mut app = create_test_app();

    let todo = Todo::new("Test Todo".to_string(), "Description".to_string());
    let todo_id = todo.id.clone();
    app.database.insert_todo_for_test(todo);

    app.open_edit_view();

    assert!(matches!(app.state, AppState::Detail));
    assert!(app.detail_view.is_some());
    assert_eq!(app.current_todo_id, Some(todo_id));

    let detail_view = app.detail_view.as_ref().unwrap();
    assert_eq!(detail_view.subject, "Test Todo");
    assert!(matches!(detail_view.mode, DetailMode::Edit));
}

#[test]
fn test_open_new_todo() {
    let mut app = create_test_app();

    app.open_new_todo();

    assert!(matches!(app.state, AppState::Detail));
    assert!(app.detail_view.is_some());
    assert!(app.current_todo_id.is_none());

    let detail_view = app.detail_view.as_ref().unwrap();
    assert!(detail_view.subject.is_empty());
    assert!(matches!(detail_view.mode, DetailMode::New));
}

#[test]
fn test_close_detail_view() {
    let mut app = create_test_app();

    app.open_new_todo();
    assert!(matches!(app.state, AppState::Detail));

    app.close_detail_view();

    assert!(matches!(app.state, AppState::Main));
    assert!(app.detail_view.is_none());
    assert!(app.current_todo_id.is_none());
}

#[test]
fn test_toggle_selected_todo() {
    let mut app = create_test_app();

    let todo = Todo::new("Test Todo".to_string(), "Description".to_string());
    let todo_id = todo.id.clone();
    app.database.insert_todo_for_test(todo);

    let _result = app.toggle_selected_todo();

    if let Some(mut todo) = app.database.get_todo(&todo_id).cloned() {
        let was_completed = todo.is_completed();
        todo.toggle_completion();
        assert_ne!(todo.is_completed(), was_completed);
    }
}

#[test]
fn test_confirm_delete_selected() {
    let mut app = create_test_app();

    let todo = Todo::new("Test Todo".to_string(), "Description".to_string());
    let todo_id = todo.id.clone();
    app.database.insert_todo_for_test(todo);

    app.confirm_delete_selected();

    assert!(matches!(app.state, AppState::Confirm));
    assert!(app.confirm_dialog.is_some());
    assert_eq!(app.pending_delete_id, Some(todo_id));
}

#[test]
#[allow(unused_variables)]
fn test_close_confirm_dialog() {
    let mut app = create_test_app();

    let todo = Todo::new("Test Todo".to_string(), "Description".to_string());
    let todo_id = todo.id.clone();
    app.database.insert_todo_for_test(todo);
    app.confirm_delete_selected();

    app.close_confirm_dialog();

    assert!(matches!(app.state, AppState::Main));
    assert!(app.confirm_dialog.is_none());
    assert!(app.pending_delete_id.is_none());
}

#[test]
fn test_quit() {
    let mut app = create_test_app();
    assert!(!app.should_quit);

    app.quit();
    assert!(app.should_quit);
}
