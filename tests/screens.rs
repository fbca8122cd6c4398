use todo_cli::detail_view::{DetailMode, DetailView};
use todo_cli::main_view::MainView;
use todo_cli::todo::Todo;

fn create_test_todo() -> Todo {
    Todo::new("Test Subject".to_string(), "Test Description".to_string())
}

#[test]
fn test_detail_view_creation_for_viewing() {
    let todo = create_test_todo();
    let detail_view = DetailView::new_for_viewing(&todo);

    assert!(matches!(detail_view.mode, DetailMode::View));
    assert_eq!(detail_view.subject, "Test Subject");
    assert_eq!(detail_view.description, "Test Description");
    assert_eq!(detail_view.current_field, 0);
    assert!(detail_view.created_at.is_some());
    assert!(detail_view.last_modified_at.is_some());
    assert_eq!(detail_view.closed_at, None);
}

#[test]
fn test_detail_view_creation_for_editing() {
    let todo = create_test_todo();
    let detail_view = DetailView::new_for_editing(&todo);

    assert!(matches!(detail_view.mode, DetailMode::Edit));
    assert_eq!(detail_view.subject, "Test Subject");
    assert_eq!(detail_view.description, "Test Description");
    assert_eq!(detail_view.current_field, 0);
    assert!(detail_view.created_at.is_some());
    assert!(detail_view.last_modified_at.is_some());
}

#[test]
fn test_detail_view_creation_for_new() {
    let detail_view = DetailView::new_for_creation();

    assert!(matches!(detail_view.mode, DetailMode::New));
    assert!(detail_view.subject.is_empty());
    assert!(detail_view.description.is_empty());
    assert_eq!(detail_view.current_field, 0);
    assert!(detail_view.created_at.is_none());
    assert!(detail_view.last_modified_at.is_none());
    assert_eq!(detail_view.closed_at, None);
}

#[test]
fn test_field_navigation() {
    let mut detail_view = DetailView::new_for_creation();

    assert_eq!(detail_view.current_field, 0);

    detail_view.next_field();
    assert_eq!(detail_view.current_field, 1);

    detail_view.next_field();
    assert_eq!(detail_view.current_field, 0);

    detail_view.previous_field();
    assert_eq!(detail_view.current_field, 1);

    detail_view.previous_field();
    assert_eq!(detail_view.current_field, 0);
}

#[test]
fn test_add_char() {
    let mut detail_view = DetailView::new_for_creation();

    detail_view.current_field = 0;
    detail_view.add_char('H');
    detail_view.add_char('i');
    assert_eq!(detail_view.subject, "Hi");

    detail_view.current_field = 1;
    detail_view.add_char('T');
    detail_view.add_char('e');
    detail_view.add_char('s');
    detail_view.add_char('t');
    assert_eq!(detail_view.description, "Test");

    assert_eq!(detail_view.subject, "Hi");
}

#[test]
fn test_delete_char() {
    let mut detail_view = DetailView::new_for_creation();

    detail_view.subject = "Hello".to_string();
    detail_view.description = "World".to_string();

    detail_view.current_field = 0;
    detail_view.delete_char();
    assert_eq!(detail_view.subject, "Hell");

    detail_view.current_field = 1;
    detail_view.delete_char();
    assert_eq!(detail_view.description, "Worl");

    detail_view.subject = String::new();
    detail_view.current_field = 0;
    detail_view.delete_char();
    assert_eq!(detail_view.subject, "");
}

#[test]
fn test_is_valid() {
    let mut detail_view = DetailView::new_for_creation();

    assert!(!detail_view.is_valid());

    detail_view.subject = "   ".to_string();
    assert!(!detail_view.is_valid());

    detail_view.subject = "Valid Subject".to_string();
    assert!(detail_view.is_valid());

    detail_view.subject = "  Valid Subject  ".to_string();
    assert!(detail_view.is_valid());
}

#[test]
fn test_completed_todo_detail_view() {
    let mut todo = create_test_todo();
    todo.toggle_completion();

    let detail_view = DetailView::new_for_viewing(&todo);

    assert!(detail_view.closed_at.is_some());
    assert_eq!(detail_view.closed_at, todo.closed_at);
}

#[test]
fn test_main_view_creation() {
    let main_view = MainView::new();
    assert_eq!(main_view.selected_index(), Some(0));
}

#[test]
fn test_navigation_next() {
    let mut main_view = MainView::new();

    main_view.next(0);
    assert_eq!(main_view.selected_index(), Some(0));

    main_view.next(1);
    assert_eq!(main_view.selected_index(), Some(0));

    main_view.next(3);
    assert_eq!(main_view.selected_index(), Some(1));

    main_view.next(3);
    assert_eq!(main_view.selected_index(), Some(2));

    main_view.next(3);
    assert_eq!(main_view.selected_index(), Some(0));
}

#[test]
fn test_navigation_previous() {
    let mut main_view = MainView::new();

    main_view.previous(0);
    assert_eq!(main_view.selected_index(), Some(0));

    main_view.previous(1);
    assert_eq!(main_view.selected_index(), Some(0));

    main_view.previous(3);
    assert_eq!(main_view.selected_index(), Some(2));

    main_view.previous(3);
    assert_eq!(main_view.selected_index(), Some(1));

    main_view.previous(3);
    assert_eq!(main_view.selected_index(), Some(0));

    main_view.previous(3);
    assert_eq!(main_view.selected_index(), Some(2));
}

#[test]
fn test_navigation_with_no_selection() {
    let mut main_view = MainView::new();
    main_view.select(None);

    main_view.next(3);
    assert_eq!(main_view.selected_index(), Some(0));

    main_view.select(None);
    main_view.previous(3);
    assert_eq!(main_view.selected_index(), Some(0));
}

#[test]
fn test_selection_state() {
    let mut main_view = MainView::new();

    assert_eq!(main_view.selected_index(), Some(0));

    main_view.select(Some(5));
    assert_eq!(main_view.selected_index(), Some(5));

    main_view.select(None);
    assert_eq!(main_view.selected_index(), None);
}
