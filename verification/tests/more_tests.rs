use benihime::buffer::{Buffer, BufferId, Cursor};
use benihime::buffer_manager::BufferManager;
use benihime::command::command_registry::CommandRegistry;
use benihime::command::default_commands::register_default_commands;
use benihime::command::{CommandError, HandleKeyError};
use benihime::editor_state::EditorState;
use benihime::project::project_manager::ProjectManager;

#[test]
fn nesting_is_limited() {
    let mut registry = CommandRegistry::new();
    register_default_commands(&mut registry);
    let mut state = EditorState::new();
    state.command_buffer = "echo deep".to_string();
    let result = registry.execute_at("execute-command-buffer", &mut state, &None, 1, 0);
    assert!(matches!(
        result,
        Err(HandleKeyError::ExecutionFailed(CommandError::NestedTooDeep))
    ));
    assert_eq!(state.message, None);
    assert_eq!(state.error_message, Some("Commands nested too deep".to_string()));
    state.command_buffer = "echo deep".to_string();
    assert!(registry.execute_at("execute-command-buffer", &mut state, &None, 1, 1).is_ok());
    assert_eq!(state.message, Some("deep".to_string()));
}

#[test]
fn buffers_are_copied_with_their_history() {
    let mut buf = Buffer::from(BufferId(3), "n", "abc", Some("/p".to_string()));
    buf.insert_idx(3, "def");
    buf.cursor = Cursor { row: 0, col: 2 };
    let mut copy = buf.duplicate();
    assert_eq!(copy.to_string(), "abcdef");
    assert_eq!(copy.cursor, Cursor { row: 0, col: 2 });
    assert_eq!(copy.id, BufferId(3));
    assert_eq!(copy.file_path, Some("/p".to_string()));
    assert!(copy.is_modified());
    copy.undo();
    assert_eq!(copy.to_string(), "abc");
    assert_eq!(buf.to_string(), "abcdef");
    let mut bm = BufferManager::new();
    bm.create_buffer_from("a", "1", None);
    bm.create_buffer_from("b", "2", None);
    let copies = bm.get_buffers_cloned();
    assert_eq!(copies.len(), 2);
    assert_eq!(copies[1].to_string(), "2");
    assert_eq!(copies[0].name, "a");
}

#[test]
fn view_follows_the_cursor() {
    let mut buf = Buffer::from(BufferId(1), "n", "", None);
    buf.cursor = Cursor { row: 40, col: 100 };
    assert_eq!(buf.ensure_cursor_on_screen(0, 0, 80, 25), (17, 21));
    buf.cursor = Cursor { row: 3, col: 2 };
    assert_eq!(buf.ensure_cursor_on_screen(10, 5, 80, 25), (3, 2));
    assert_eq!(buf.ensure_cursor_on_screen(0, 0, 80, 25), (0, 0));
    assert_eq!(buf.ensure_cursor_on_screen(0, 0, 80, 0), (4, 0));
}

#[test]
fn buffer_line_lists_the_project_buffers() {
    let mut state = EditorState::new();
    let b = state.create_buffer_from_text("b", "x").unwrap();
    state.project_manager.add_buffer_to_current(BufferId(99));
    state.focus(b);
    state.focused_buf_mut().insert_str("!");
    let tabs = state.buffer_line();
    assert_eq!(tabs.len(), 2);
    assert_eq!((tabs[0].id, tabs[0].name.as_str(), tabs[0].active, tabs[0].modified),
        (BufferId(1), "[No Name]", false, false));
    assert_eq!((tabs[1].id, tabs[1].name.as_str(), tabs[1].active, tabs[1].modified),
        (b, "b", true, true));
}

#[test]
fn discovered_projects_keep_their_order() {
    let mut pm = ProjectManager::new();
    pm.discover(vec![
        ("b".to_string(), "/b".to_string()),
        ("a".to_string(), "/a".to_string()),
        ("b".to_string(), "/again".to_string()),
    ]);
    let names: Vec<String> = pm.get_projects().iter().map(|p| p.name.clone()).collect();
    assert_eq!(names, vec!["empty", "b", "a"]);
}
