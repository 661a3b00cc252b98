use benihime::buffer::{BufferId, Cursor, Mode};
use benihime::buffer_manager::BufferManager;
use benihime::command::CommandError;
use benihime::editor::Editor;
use benihime::editor_state::EditorState;
use benihime::keymap::key_chord::{KeyChord, KeyCode, KeyModifiers};
use benihime::mini_buffer::{
    contains_run, MiniBuffer, MiniBufferDisplay, MiniBufferManager, PickerItem, PickerKind,
};
use benihime::position::Position;
use benihime::project::project_manager::{CloseProjectError, ProjectManager};
use benihime::project::ProjectId;

fn press(editor: &mut Editor, c: char) {
    editor.handle_key(KeyCode::Char(c), KeyModifiers::none());
}

fn type_text(editor: &mut Editor, text: &str) {
    for c in text.chars() {
        press(editor, c);
    }
}

#[test]
fn position_arithmetic() {
    assert_eq!(Position::new(1, 2), Position { row: 1, col: 2 });
    assert!(Position::new(0, 0).is_zero());
    assert!(!Position::new(0, 1).is_zero());
    assert_eq!(Position::from_pair((3, 4)), Position { row: 3, col: 4 });
    assert_eq!(Position::new(1, 2).checked_add(Position::new(3, 4)), Some(Position::new(4, 6)));
    assert_eq!(Position::new(usize::MAX, 0).checked_add(Position::new(1, 0)), None);
    assert_eq!(Position::new(5, 5).checked_sub(Position::new(2, 5)), Some(Position::new(3, 0)));
    assert_eq!(Position::new(1, 5).checked_sub(Position::new(2, 5)), None);
}

#[test]
fn buffer_manager_gives_out_rising_identities() {
    let mut bm = BufferManager::new();
    assert_eq!(bm.buffers_len(), 0);
    assert!(bm.get_first_buffer().is_none());
    let a = bm.create_empty_buffer("a");
    let b = bm.create_buffer_from("b", "text", Some("/b".to_string()));
    assert_eq!(a, BufferId(1));
    assert_eq!(b, BufferId(2));
    assert_eq!(bm.buffers_len(), 2);
    assert_eq!(bm.get_buffer(b).unwrap().to_string(), "text");
    assert_eq!(bm.get_buffer(b).unwrap().file_path, Some("/b".to_string()));
    assert!(bm.get_buffer(BufferId(9)).is_none());
    bm.get_buffer_mut(a).unwrap().insert_str("hi");
    assert_eq!(bm.get_buffer(a).unwrap().to_string(), "hi");
    assert_eq!(bm.get_buffer_ids(), vec![a, b]);
    assert_eq!(bm.get_buffers().len(), 2);
    assert_eq!(bm.get_first_buffer().unwrap().id, a);
    bm.kill_buffer(a);
    assert!(bm.get_buffer(a).is_none());
    assert_eq!(bm.get_first_buffer().unwrap().id, b);
    bm.kill_buffer(a);
    assert_eq!(bm.buffers_len(), 1);
    assert_eq!(bm.create_empty_buffer("c"), BufferId(3));
    assert_eq!(bm.index_of(b), 0);
    assert!(bm.has_free_id());
}

#[test]
fn project_manager_starts_with_the_default_project() {
    let mut pm = ProjectManager::new();
    assert_eq!(pm.len(), 1);
    assert_eq!(pm.current_id(), ProjectId(0));
    assert_eq!(pm.current_name(), "empty");
    assert!(pm.current().root.is_none());
    let a = pm.add("alpha".to_string(), "/alpha".to_string());
    let b = pm.add("beta".to_string(), "/beta".to_string());
    assert_eq!((a, b), (ProjectId(1), ProjectId(2)));
    assert_eq!(pm.len(), 3);
    assert_eq!(pm.current_id(), ProjectId(0));
    assert_eq!(pm.next_project_id(), a);
    assert_eq!(pm.previous_project_id(), b);
    assert_eq!(pm.switch_by_id(b).unwrap().name, "beta");
    assert_eq!(pm.current_id(), b);
    assert_eq!(pm.next_project_id(), ProjectId(0));
    assert_eq!(pm.previous_project_id(), a);
    assert!(pm.switch_by_id(ProjectId(77)).is_none());
    assert_eq!(pm.current_id(), b);
    assert_eq!(pm.switch_by_name("alpha").unwrap().id, a);
    assert!(pm.switch_by_name("gamma").is_none());
    assert_eq!(pm.current_name(), "alpha");
    pm.add_buffer_to_current(BufferId(5));
    pm.add_buffer_to_current(BufferId(6));
    pm.add_buffer_to_current(BufferId(5));
    assert_eq!(pm.current().buffers, vec![BufferId(5), BufferId(6), BufferId(5)]);
    pm.remove_buffer_from_current(BufferId(5));
    assert_eq!(pm.current().buffers, vec![BufferId(6)]);
    pm.current_mut().name = "renamed".to_string();
    assert_eq!(pm.current_name(), "renamed");
    assert_eq!(pm.get_projects().len(), 3);
    assert_eq!(pm.get_projects_cloned()[1].name, "renamed");
    assert!(pm.has_name("beta"));
    assert!(!pm.has_name("alpha"));
}

#[test]
fn projects_are_discovered_once() {
    let mut pm = ProjectManager::new();
    let added = pm.discover(vec![
        ("one".to_string(), "/dev/one".to_string()),
        ("empty".to_string(), "/dev/empty".to_string()),
        ("two".to_string(), "/dev/two".to_string()),
        ("one".to_string(), "/other/one".to_string()),
    ]);
    assert_eq!(added, 2);
    assert_eq!(pm.len(), 3);
    assert_eq!(pm.switch_by_name("one").unwrap().root, Some("/dev/one".to_string()));
}

#[test]
fn closing_projects() {
    let mut pm = ProjectManager::new();
    assert_eq!(pm.close_project(ProjectId(0)), Err(CloseProjectError::DefaultProject));
    assert_eq!(pm.close_project(ProjectId(4)), Err(CloseProjectError::NotFound));
    assert_eq!(CloseProjectError::DefaultProject.message(), "Cannot close the default project");
    assert_eq!(CloseProjectError::NotFound.message(), "Project not found");
    let a = pm.add("a".to_string(), "/a".to_string());
    pm.switch_by_id(a);
    pm.add_buffer_to_current(BufferId(3));
    assert_eq!(pm.close_project(a), Ok(vec![BufferId(3)]));
    assert_eq!(pm.current_id(), ProjectId(0));
    assert_eq!(pm.len(), 1);
}

#[test]
fn picker_focus_goes_round_and_the_window_follows() {
    let items: Vec<PickerItem> = (0..25).map(|i| PickerItem::Command(format!("c{}", i))).collect();
    let mut mini = MiniBuffer::new("Pick: ", items, PickerKind::FindCommand);
    assert_eq!((mini.index(), mini.offset(), mini.len()), (0, 0, 25));
    mini.move_focus(-1);
    assert_eq!((mini.index(), mini.offset()), (24, 15));
    mini.move_focus(1);
    assert_eq!((mini.index(), mini.offset()), (0, 0));
    for _ in 0..9 {
        mini.move_focus(1);
    }
    assert_eq!((mini.index(), mini.offset()), (9, 1));
    mini.move_focus(3);
    assert_eq!((mini.index(), mini.offset()), (12, 4));
    mini.move_focus(-10);
    assert_eq!((mini.index(), mini.offset()), (2, 1));
    mini.move_focus(-53);
    assert_eq!(mini.index(), 24);
    mini.move_focus(50);
    assert_eq!(mini.index(), 24);
    let mut small = MiniBuffer::new("p", vec![PickerItem::Path("a".into()), PickerItem::Path("b".into())], PickerKind::FindFile);
    small.move_focus(1);
    small.move_focus(1);
    small.move_focus(1);
    assert_eq!((small.index(), small.offset()), (1, 0));
}

#[test]
fn picker_filters_by_input() {
    let items = vec![
        PickerItem::Path("src/Main.rs".to_string()),
        PickerItem::Path("README.md".to_string()),
        PickerItem::Buffer { id: BufferId(1), name: "main buffer".to_string() },
        PickerItem::Project { project: ProjectId(1), name: "other".to_string() },
    ];
    let mut mini = MiniBuffer::new("p", items, PickerKind::OpenFile);
    mini.state.input = "MAIN".to_string();
    mini.state.index = 2;
    mini.filter_items();
    assert_eq!(mini.render_candidates(), vec!["src/Main.rs", "main buffer"]);
    assert_eq!(mini.index(), 0);
    mini.state.input = "zzz".to_string();
    mini.filter_items();
    assert_eq!(mini.len(), 0);
    assert!(mini.focused().is_none());
    mini.state.input.clear();
    mini.filter_items();
    assert_eq!(mini.len(), 4);
    assert_eq!(mini.input(), "");
    assert!(matches!(mini.focused(), Some(PickerItem::Path(p)) if p == "src/Main.rs"));
    mini.set_items(vec![PickerItem::Path("x".to_string())]);
    assert_eq!(mini.render_candidates(), vec!["x"]);
    assert_eq!("plain".to_string().as_display_string(), "plain");
    assert_eq!(PickerItem::Command("cmd".to_string()).as_display_string(), "cmd");
}

#[test]
fn runs_of_characters_are_found() {
    let hay: Vec<char> = "hello world".chars().collect();
    let find = |n: &str| contains_run(&hay, &n.chars().collect());
    assert!(find("hello"));
    assert!(find("o w"));
    assert!(find("world"));
    assert!(find(""));
    assert!(!find("worlds"));
    assert!(!find("hello world!"));
    assert!(!find("xyz"));
}

#[test]
fn picker_manager_opens_and_closes() {
    let mut manager = MiniBufferManager::new();
    assert!(!manager.active());
    manager.activate(MiniBuffer::new("p", vec![], PickerKind::FindFile));
    assert!(manager.active());
    manager.deactivate();
    assert!(!manager.active());
}

#[test]
fn fresh_state_has_one_buffer_in_focus() {
    let state = EditorState::new();
    assert_eq!(state.focused_buf_id, BufferId(1));
    assert_eq!(state.focused_buf().name, "[No Name]");
    assert_eq!(state.status_line(), "NORMAL 1");
    assert!(state.cwd().is_none());
    assert_eq!(state.project_manager.current().buffers, vec![BufferId(1)]);
}

#[test]
fn messages_exclude_each_other() {
    let mut state = EditorState::new();
    state.show_error("bad".to_string());
    assert_eq!((state.message.clone(), state.error_message.clone()), (None, Some("bad".to_string())));
    state.echo("good".to_string());
    assert_eq!((state.message.clone(), state.error_message.clone()), (Some("good".to_string()), None));
    state.show_error("bad".to_string());
    state.clear_error();
    assert_eq!((state.message.clone(), state.error_message.clone()), (None, None));
    state.prefix_arg = Some(4);
    state.clear_prefix();
    assert_eq!(state.prefix_arg, None);
}

#[test]
fn killing_buffers_moves_the_focus() {
    let mut state = EditorState::new();
    let second = state.create_empty_buffer("second").unwrap();
    let third = state.create_buffer_from_text("third", "3").unwrap();
    state.focus(second);
    assert_eq!(state.status_line(), "NORMAL 2");
    state.kill_active_buffer().unwrap();
    assert_eq!(state.focused_buf_id, third);
    assert!(state.buffer_manager.get_buffer(second).is_none());
    state.focused_buf_mut().insert_str("edit");
    let err = state.kill_active_buffer().unwrap_err();
    assert!(matches!(
        err,
        CommandError::Message(m) if m == "Cannot kill modified buffer 'third'. Save it first."
    ));
    state.focused_buf_mut().mark_saved();
    state.kill_active_buffer().unwrap();
    assert_eq!(state.focused_buf_id, BufferId(1));
    state.kill_active_buffer().unwrap();
    // The last buffer is replaced by a new empty one.
    assert_eq!(state.focused_buf_id, BufferId(4));
    assert_eq!(state.focused_buf().name, "[No Name]");
    assert_eq!(state.buffer_manager.buffers_len(), 1);
}

#[test]
fn buffers_cycle_within_the_project() {
    let mut state = EditorState::new();
    let b = state.create_empty_buffer("b").unwrap();
    let c = state.create_empty_buffer("c").unwrap();
    state.cycle_buffer(true);
    assert_eq!(state.focused_buf_id, b);
    state.cycle_buffer(true);
    assert_eq!(state.focused_buf_id, c);
    state.cycle_buffer(true);
    assert_eq!(state.focused_buf_id, BufferId(1));
    state.cycle_buffer(false);
    assert_eq!(state.focused_buf_id, c);
    state.focus(BufferId(99));
    assert_eq!(state.focused_buf_id, c);
}

#[test]
fn projects_switch_and_close() {
    let mut state = EditorState::new();
    let p = state.project_manager.add("p".to_string(), "/p".to_string());
    state.switch_to_project(p);
    // A project without buffers gets an empty one.
    assert_eq!(state.project_manager.current_id(), p);
    assert_eq!(state.focused_buf_id, BufferId(2));
    assert_eq!(state.cwd(), Some(&"/p".to_string()));
    state.switch_to_next_project();
    assert_eq!(state.project_manager.current_id(), ProjectId(0));
    assert_eq!(state.focused_buf_id, BufferId(1));
    state.switch_to_previous_project();
    assert_eq!(state.project_manager.current_id(), p);
    assert_eq!(state.focused_buf_id, BufferId(2));
    state.switch_project(ProjectId(42));
    assert_eq!(state.project_manager.current_id(), p);
    state.close_current_project().unwrap();
    assert_eq!(state.project_manager.current_id(), ProjectId(0));
    assert_eq!(state.focused_buf_id, BufferId(1));
    assert!(state.buffer_manager.get_buffer(BufferId(2)).is_none());
    let err = state.close_current_project().unwrap_err();
    assert!(matches!(err, CommandError::Message(m) if m == "Cannot close the default project"));
}

#[test]
fn keys_type_in_insert_mode_and_run_commands_in_normal_mode() {
    let mut editor = Editor::new();
    press(&mut editor, 'i');
    assert_eq!(editor.state.focused_buf().mode, Mode::Insert);
    type_text(&mut editor, "hallo");
    editor.handle_key(KeyCode::Char('w'), KeyModifiers::shift());
    editor.handle_key(KeyCode::Enter, KeyModifiers::none());
    type_text(&mut editor, "xy");
    editor.handle_key(KeyCode::Backspace, KeyModifiers::none());
    editor.handle_key(KeyCode::Left, KeyModifiers::none());
    assert_eq!(editor.state.focused_buf().to_string(), "halloW\nx");
    editor.handle_key(KeyCode::Esc, KeyModifiers::none());
    assert_eq!(editor.state.focused_buf().mode, Mode::Normal);
    // In normal mode letters are commands, not text.
    press(&mut editor, 'k');
    press(&mut editor, '0');
    assert_eq!(editor.state.focused_buf().cursor, Cursor { row: 0, col: 0 });
    press(&mut editor, 'x');
    assert_eq!(editor.state.focused_buf().to_string(), "halloW\nx");
    // One undo takes back the whole insert session.
    press(&mut editor, 'u');
    assert_eq!(editor.state.focused_buf().to_string(), "");
    editor.handle_key(KeyCode::Char('r'), KeyModifiers::ctrl());
    assert_eq!(editor.state.focused_buf().to_string(), "halloW\nx");
}

#[test]
fn command_mode_edits_the_command_line() {
    let mut editor = Editor::new();
    editor.handle_key(KeyCode::Char(':'), KeyModifiers::shift());
    assert_eq!(editor.state.focused_buf().mode, Mode::Command);
    type_text(&mut editor, "echo hix");
    editor.handle_key(KeyCode::Backspace, KeyModifiers::none());
    assert_eq!(editor.state.command_buffer, "echo hi");
    editor.handle_key(KeyCode::Enter, KeyModifiers::none());
    assert_eq!(editor.state.message, Some("hi".to_string()));
    assert_eq!(editor.state.focused_buf().mode, Mode::Normal);
    editor.handle_key(KeyCode::Char(':'), KeyModifiers::shift());
    editor.handle_key(KeyCode::Backspace, KeyModifiers::none());
    assert_eq!(editor.state.command_buffer, "");
}

#[test]
fn picker_mode_edits_the_input_and_narrows() {
    let mut editor = Editor::new();
    editor.state.create_empty_buffer("notes").unwrap();
    editor.handle_key(KeyCode::Char('b'), KeyModifiers::super_key());
    assert_eq!(editor.state.focused_buf().mode, Mode::Minibuffer);
    type_text(&mut editor, "notx");
    editor.handle_key(KeyCode::Backspace, KeyModifiers::none());
    {
        let mini = editor.state.minibuffer_manager.current.as_ref().unwrap();
        assert_eq!(mini.input(), "not");
        assert_eq!(mini.render_candidates(), vec!["notes"]);
    }
    editor.handle_key(KeyCode::Enter, KeyModifiers::none());
    assert_eq!(editor.state.focused_buf().name, "notes");
    assert_eq!(editor.state.focused_buf_id, BufferId(2));
}

#[test]
fn two_key_bindings_work_through_the_editor() {
    let mut editor = Editor::new();
    editor.state.focused_buf_mut().insert_str("a\nb\nc");
    assert_eq!(editor.state.focused_buf().cursor.row, 2);
    press(&mut editor, 'g');
    assert_eq!(editor.keymap.buffer.chords, vec![KeyChord {
        code: KeyCode::Char('g'),
        modifiers: KeyModifiers::none(),
    }]);
    press(&mut editor, 'g');
    assert_eq!(editor.state.focused_buf().cursor.row, 0);
    assert!(editor.keymap.buffer.chords.is_empty());
    editor.handle_key(KeyCode::Char('g'), KeyModifiers::shift());
    assert_eq!(editor.state.focused_buf().cursor.row, 2);
}
