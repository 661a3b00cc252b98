use benihime::buffer::{Cursor, Mode};
use benihime::command::command_registry::{same_text, Cmd, CommandRegistry};
use benihime::command::default_commands::{
    default_command_table, register_default_commands, CommandFn,
};
use benihime::command::{
    duplicate_args, get_arg, get_mode_arg, get_str_arg, ArgAsOwned, CommandArg, CommandError,
    HandleKeyError,
};
use benihime::editor_state::{EditorState, Request};
use benihime::mini_buffer::PickerKind;
use benihime::movement::selection::Range;

fn setup() -> (CommandRegistry, EditorState) {
    let mut registry = CommandRegistry::new();
    register_default_commands(&mut registry);
    (registry, EditorState::new())
}

fn run(registry: &CommandRegistry, state: &mut EditorState, name: &str) -> Result<(), HandleKeyError> {
    registry.execute(name, state, &None, 1)
}

fn text(state: &EditorState) -> String {
    state.focused_buf().to_string()
}

#[test]
fn parse_arg_tries_the_readings_in_order() {
    assert!(matches!(CommandArg::parse_arg("src/main.rs"), CommandArg::Path(p) if p == "src/main.rs"));
    assert!(matches!(CommandArg::parse_arg("1.5"), CommandArg::Path(p) if p == "1.5"));
    assert!(matches!(CommandArg::parse_arg("3,14"), CommandArg::Position { row: 3, col: 14 }));
    assert!(matches!(CommandArg::parse_arg("+3,+4"), CommandArg::Position { row: 3, col: 4 }));
    assert!(matches!(CommandArg::parse_arg("3,x"), CommandArg::Str(s) if s == "3,x"));
    assert!(matches!(CommandArg::parse_arg("1,2,3"), CommandArg::Str(s) if s == "1,2,3"));
    assert!(matches!(CommandArg::parse_arg(",2"), CommandArg::Str(s) if s == ",2"));
    assert!(matches!(CommandArg::parse_arg("Insert"), CommandArg::Mode(Mode::Insert)));
    assert!(matches!(CommandArg::parse_arg("NORMAL"), CommandArg::Mode(Mode::Normal)));
    assert!(matches!(CommandArg::parse_arg("42"), CommandArg::Int(42)));
    assert!(matches!(CommandArg::parse_arg("-17"), CommandArg::Int(-17)));
    assert!(matches!(CommandArg::parse_arg("+8"), CommandArg::Int(8)));
    assert!(matches!(
        CommandArg::parse_arg("-9223372036854775808"),
        CommandArg::Int(i64::MIN)
    ));
    assert!(matches!(
        CommandArg::parse_arg("9223372036854775808"),
        CommandArg::Str(s) if s == "9223372036854775808"
    ));
    assert!(matches!(CommandArg::parse_arg("TRUE"), CommandArg::Bool(true)));
    assert!(matches!(CommandArg::parse_arg("False"), CommandArg::Bool(false)));
    assert!(matches!(CommandArg::parse_arg("hello"), CommandArg::Str(s) if s == "hello"));
    assert!(matches!(CommandArg::parse_arg(""), CommandArg::Str(s) if s.is_empty()));
    assert!(matches!(CommandArg::parse_arg("-"), CommandArg::Str(s) if s == "-"));
}

#[test]
fn typed_arguments_are_read_by_place() {
    let args = Some(vec![CommandArg::Str("a".to_string()), CommandArg::Mode(Mode::Visual)]);
    assert_eq!(get_str_arg(&args, 0).unwrap(), "a");
    assert_eq!(get_mode_arg(&args, 1).unwrap(), Mode::Visual);
    assert!(matches!(get_str_arg(&args, 1), Err(CommandError::WrongType(1))));
    assert!(matches!(get_mode_arg(&args, 0), Err(CommandError::WrongType(0))));
    assert!(matches!(get_str_arg(&args, 2), Err(CommandError::MissingArgument(2))));
    assert!(matches!(get_str_arg(&None, 0), Err(CommandError::NoArguments)));
    assert!(matches!(get_arg(&args, 1), Ok(CommandArg::Mode(Mode::Visual))));
    assert_eq!(duplicate_args(args.as_ref().unwrap()).len(), 2);
}

#[test]
fn arguments_convert_to_their_own_type_only() {
    let int: Option<i64> = CommandArg::Int(5).as_type_owned();
    assert_eq!(int, Some(5));
    let not_int: Option<i64> = CommandArg::Bool(true).as_type_owned();
    assert_eq!(not_int, None);
    let b: Option<bool> = CommandArg::Bool(true).as_type_owned();
    assert_eq!(b, Some(true));
    let m: Option<Mode> = CommandArg::Mode(Mode::Command).as_type_owned();
    assert_eq!(m, Some(Mode::Command));
    let p: Option<(usize, usize)> = CommandArg::Position { row: 2, col: 9 }.as_type_owned();
    assert_eq!(p, Some((2, 9)));
    let s: Option<String> = CommandArg::Str("x".to_string()).as_type_owned();
    assert_eq!(s, Some("x".to_string()));
    let path_as_str: Option<String> = CommandArg::Path("x".to_string()).as_type_owned();
    assert_eq!(path_as_str, None);
}

#[test]
fn error_messages() {
    assert_eq!(CommandError::NoArguments.message(), "No arguments provided");
    assert_eq!(CommandError::MissingArgument(3).message(), "Missing argument '3'");
    assert_eq!(CommandError::WrongType(10).message(), "Argument '10' has wrong type");
    assert_eq!(CommandError::Message("x".to_string()).message(), "x");
    assert_eq!(HandleKeyError::KeyNotFound.message(), "Key not found in keymap");
    assert_eq!(
        HandleKeyError::CommandNotFound("nope".to_string()).message(),
        "Command not found: nope"
    );
    assert_eq!(
        HandleKeyError::ExecutionFailed(CommandError::NoArguments).message(),
        "Command execution failed: No arguments provided"
    );
}

#[test]
fn echo_sets_the_message_and_a_failure_sets_the_error() {
    let (registry, mut state) = setup();
    state.error_message = Some("old".to_string());
    let args = Some(vec![CommandArg::Str("hello".to_string())]);
    assert!(registry.execute("echo", &mut state, &args, 1).is_ok());
    assert_eq!(state.message, Some("hello".to_string()));
    assert_eq!(state.error_message, None);
    // The next command fails: its message becomes the error, the
    // information goes.
    let result = registry.execute("set-mode", &mut state, &None, 1);
    assert!(matches!(
        result,
        Err(HandleKeyError::ExecutionFailed(CommandError::NoArguments))
    ));
    assert_eq!(state.error_message, Some("No arguments provided".to_string()));
    assert_eq!(state.message, None);
    // A command that succeeds clears the error.
    assert!(run(&registry, &mut state, "move-left").is_ok());
    assert_eq!(state.error_message, None);
}

#[test]
fn unknown_command_fails_and_changes_nothing() {
    let (registry, mut state) = setup();
    state.error_message = Some("kept".to_string());
    let result = run(&registry, &mut state, "no-such-command");
    assert!(matches!(result, Err(HandleKeyError::CommandNotFound(name)) if name == "no-such-command"));
    assert_eq!(state.error_message, Some("kept".to_string()));
}

#[test]
fn banner_commands_do_not_trigger_the_banner() {
    let (registry, mut state) = setup();
    let args = Some(vec![CommandArg::Str("boom".to_string())]);
    assert!(registry.execute("error-message", &mut state, &args, 1).is_ok());
    assert_eq!(state.error_message, Some("boom".to_string()));
    // Failing to show an error does not try to show another one.
    state.message = Some("still here".to_string());
    state.error_message = None;
    assert!(registry.execute("error-message", &mut state, &None, 1).is_err());
    assert_eq!(state.message, Some("still here".to_string()));
    assert_eq!(state.error_message, None);
    assert!(run(&registry, &mut state, "clear-error-message").is_ok());
}

#[test]
fn plain_commands_drop_the_range_and_motions_keep_it() {
    let (registry, mut state) = setup();
    state.focused_buf_mut().insert_str("foo bar baz");
    state.focused_buf_mut().cursor = Cursor { row: 0, col: 0 };
    assert!(run(&registry, &mut state, "word-forward").is_ok());
    assert_eq!(state.focused_buf().range, Some(Range::new(0, 4)));
    assert_eq!(state.focused_buf().cursor, Cursor { row: 0, col: 4 });
    assert!(run(&registry, &mut state, "word-end").is_ok());
    assert!(state.focused_buf().range.is_some());
    assert!(run(&registry, &mut state, "move-left").is_ok());
    assert_eq!(state.focused_buf().range, None);
}

#[test]
fn delete_range_consumes_the_pending_range() {
    let (registry, mut state) = setup();
    state.focused_buf_mut().insert_str("foo bar\nbaz");
    state.focused_buf_mut().cursor = Cursor { row: 0, col: 0 };
    assert!(run(&registry, &mut state, "word-forward").is_ok());
    assert!(run(&registry, &mut state, "delete-range").is_ok());
    assert_eq!(text(&state), "bar\nbaz");
    assert_eq!(state.focused_buf().range, None);
    assert_eq!(state.focused_buf().cursor, Cursor { row: 0, col: 0 });
    assert_eq!(state.focused_buf().line_len(0), 3);
    // Without a range the character under the cursor goes.
    assert!(run(&registry, &mut state, "delete-range").is_ok());
    assert_eq!(text(&state), "ar\nbaz");
}

#[test]
fn change_range_without_a_range_does_nothing() {
    let (registry, mut state) = setup();
    state.focused_buf_mut().insert_str("foo bar");
    state.focused_buf_mut().cursor = Cursor { row: 0, col: 0 };
    assert!(run(&registry, &mut state, "change-range").is_ok());
    assert_eq!(text(&state), "foo bar");
    assert_eq!(state.focused_buf().mode, Mode::Normal);
    assert!(run(&registry, &mut state, "word-forward").is_ok());
    assert!(run(&registry, &mut state, "change-range").is_ok());
    assert_eq!(text(&state), "bar");
    assert_eq!(state.focused_buf().mode, Mode::Insert);
}

#[test]
fn cursor_commands_move_within_the_text() {
    let (registry, mut state) = setup();
    state.focused_buf_mut().insert_str("  one\ntwo words\nz");
    state.focused_buf_mut().cursor = Cursor { row: 1, col: 5 };
    run(&registry, &mut state, "move-up").unwrap();
    assert_eq!(state.focused_buf().cursor, Cursor { row: 0, col: 5 });
    run(&registry, &mut state, "move-right").unwrap();
    assert_eq!(state.focused_buf().cursor, Cursor { row: 0, col: 5 });
    run(&registry, &mut state, "move-left").unwrap();
    assert_eq!(state.focused_buf().cursor, Cursor { row: 0, col: 4 });
    run(&registry, &mut state, "first-non-blank").unwrap();
    assert_eq!(state.focused_buf().cursor, Cursor { row: 0, col: 2 });
    run(&registry, &mut state, "beginning-of-line").unwrap();
    assert_eq!(state.focused_buf().cursor, Cursor { row: 0, col: 0 });
    run(&registry, &mut state, "move-left").unwrap();
    assert_eq!(state.focused_buf().cursor, Cursor { row: 0, col: 0 });
    run(&registry, &mut state, "move-up").unwrap();
    assert_eq!(state.focused_buf().cursor, Cursor { row: 0, col: 0 });
    run(&registry, &mut state, "move-down").unwrap();
    run(&registry, &mut state, "end-of-line").unwrap();
    assert_eq!(state.focused_buf().cursor, Cursor { row: 1, col: 9 });
    run(&registry, &mut state, "move-down").unwrap();
    assert_eq!(state.focused_buf().cursor, Cursor { row: 2, col: 1 });
    run(&registry, &mut state, "move-down").unwrap();
    assert_eq!(state.focused_buf().cursor, Cursor { row: 2, col: 1 });
    run(&registry, &mut state, "goto-first-line").unwrap();
    assert_eq!(state.focused_buf().cursor, Cursor { row: 0, col: 1 });
    run(&registry, &mut state, "goto-last-line").unwrap();
    assert_eq!(state.focused_buf().cursor, Cursor { row: 2, col: 1 });
}

#[test]
fn scroll_commands_move_by_the_screen_height() {
    let (registry, mut state) = setup();
    state.focused_buf_mut().insert_str(&"x\n".repeat(50));
    state.focused_buf_mut().cursor = Cursor { row: 0, col: 0 };
    state.screen_height = 20;
    run(&registry, &mut state, "scroll-half-down").unwrap();
    assert_eq!(state.focused_buf().cursor.row, 10);
    run(&registry, &mut state, "scroll-full-down").unwrap();
    assert_eq!(state.focused_buf().cursor.row, 30);
    run(&registry, &mut state, "scroll-full-down").unwrap();
    assert_eq!(state.focused_buf().cursor.row, 50);
    run(&registry, &mut state, "scroll-half-up").unwrap();
    assert_eq!(state.focused_buf().cursor.row, 40);
    run(&registry, &mut state, "scroll-full-up").unwrap();
    run(&registry, &mut state, "scroll-full-up").unwrap();
    run(&registry, &mut state, "scroll-full-up").unwrap();
    assert_eq!(state.focused_buf().cursor.row, 0);
    state.focused_buf_mut().cursor.row = 25;
    run(&registry, &mut state, "center-cursor").unwrap();
    assert_eq!(state.focused_buf().scroll_offset, 15);
}

#[test]
fn open_line_commands_enter_insert_mode() {
    let (registry, mut state) = setup();
    state.focused_buf_mut().insert_str("ab\ncd");
    state.focused_buf_mut().cursor = Cursor { row: 0, col: 1 };
    run(&registry, &mut state, "open-below").unwrap();
    assert_eq!(text(&state), "ab\n\ncd");
    assert_eq!(state.focused_buf().cursor, Cursor { row: 1, col: 0 });
    assert_eq!(state.focused_buf().mode, Mode::Insert);
    let args = Some(vec![CommandArg::Mode(Mode::Normal)]);
    registry.execute("set-mode", &mut state, &args, 1).unwrap();
    state.focused_buf_mut().cursor = Cursor { row: 2, col: 1 };
    run(&registry, &mut state, "open-above").unwrap();
    assert_eq!(text(&state), "ab\n\n\ncd");
    assert_eq!(state.focused_buf().cursor, Cursor { row: 2, col: 0 });
    assert_eq!(state.focused_buf().mode, Mode::Insert);
}

#[test]
fn visual_mode_selects_and_deletes() {
    let (registry, mut state) = setup();
    state.focused_buf_mut().insert_str("foo bar");
    state.focused_buf_mut().cursor = Cursor { row: 0, col: 1 };
    run(&registry, &mut state, "enter-visual-mode").unwrap();
    assert_eq!(state.focused_buf().mode, Mode::Visual);
    state.focused_buf_mut().cursor = Cursor { row: 0, col: 4 };
    run(&registry, &mut state, "visual_select_other_end").unwrap();
    assert_eq!(state.focused_buf().cursor, Cursor { row: 0, col: 1 });
    assert_eq!(state.focused_buf().selection.unwrap().start, Cursor { row: 0, col: 4 });
    run(&registry, &mut state, "delete-selection").unwrap();
    assert_eq!(text(&state), "fbar");
    assert_eq!(state.focused_buf().mode, Mode::Normal);
    assert!(state.focused_buf().selection.is_none());
    // Outside visual mode the command does nothing.
    run(&registry, &mut state, "delete-selection").unwrap();
    assert_eq!(text(&state), "fbar");
    run(&registry, &mut state, "enter-visual-mode").unwrap();
    run(&registry, &mut state, "exit-visual-mode").unwrap();
    assert_eq!(state.focused_buf().mode, Mode::Normal);
    assert!(state.focused_buf().selection.is_none());
    run(&registry, &mut state, "enter-visual-mode").unwrap();
    state.focused_buf_mut().cursor = Cursor { row: 0, col: 3 };
    run(&registry, &mut state, "change-selection").unwrap();
    assert_eq!(text(&state), "fr");
    assert_eq!(state.focused_buf().mode, Mode::Insert);
}

#[test]
fn undo_and_redo_commands() {
    let (registry, mut state) = setup();
    state.focused_buf_mut().insert_str("one");
    state.focused_buf_mut().insert_str(" two");
    run(&registry, &mut state, "undo").unwrap();
    assert_eq!(text(&state), "one");
    run(&registry, &mut state, "redo").unwrap();
    assert_eq!(text(&state), "one two");
}

#[test]
fn command_line_runs_the_named_command() {
    let (registry, mut state) = setup();
    state.command_buffer = "echo hello".to_string();
    let args = Some(vec![CommandArg::Mode(Mode::Command)]);
    // Entering command mode starts with an empty line.
    registry.execute("set-mode", &mut state, &args, 1).unwrap();
    assert_eq!(state.command_buffer, "");
    state.command_buffer = "  echo   hello  ".to_string();
    run(&registry, &mut state, "execute-command-buffer").unwrap();
    assert_eq!(state.message, Some("hello".to_string()));
    assert_eq!(state.command_buffer, "");
    assert_eq!(state.focused_buf().mode, Mode::Normal);
    // An empty line does nothing.
    run(&registry, &mut state, "execute-command-buffer").unwrap();
    // A line of blanks names no command.
    state.command_buffer = "   ".to_string();
    let result = run(&registry, &mut state, "execute-command-buffer");
    assert!(matches!(
        result,
        Err(HandleKeyError::ExecutionFailed(CommandError::Message(m))) if m == "Empty command"
    ));
    // An unknown command fails in words.
    state.command_buffer = "frobnicate 1".to_string();
    let result = run(&registry, &mut state, "execute-command-buffer");
    assert!(matches!(
        result,
        Err(HandleKeyError::ExecutionFailed(CommandError::Message(m)))
            if m == "Command not found: frobnicate"
    ));
    assert_eq!(state.error_message, Some("Command not found: frobnicate".to_string()));
    // Arguments are read from the words.
    state.command_buffer = "set-mode insert".to_string();
    run(&registry, &mut state, "execute-command-buffer").unwrap();
    assert_eq!(state.focused_buf().mode, Mode::Insert);
}

#[test]
fn file_commands_ask_the_application() {
    let (registry, mut state) = setup();
    let result = run(&registry, &mut state, "open-file");
    assert!(matches!(
        result,
        Err(HandleKeyError::ExecutionFailed(CommandError::Message(m))) if m == "Not in a Project"
    ));
    let id = state.project_manager.add("proj".to_string(), "/src/proj".to_string());
    state.switch_to_project(id);
    run(&registry, &mut state, "open-file").unwrap();
    run(&registry, &mut state, "find-file").unwrap();
    let requests = state.take_requests();
    assert!(matches!(&requests[0], Request::ListDirectory { path } if path == "/src/proj"));
    assert!(matches!(&requests[1], Request::WalkFiles { root } if root == "/src/proj"));
    assert!(state.take_requests().is_empty());
}

#[test]
fn save_asks_for_the_write_and_marks_the_buffer_saved() {
    let (registry, mut state) = setup();
    let id = state.open_file("a.txt", "abc", "/tmp/a.txt").unwrap();
    state.focus(id);
    state.focused_buf_mut().insert_str("X");
    assert!(state.focused_buf().is_modified());
    run(&registry, &mut state, "save-current-buffer").unwrap();
    assert!(!state.focused_buf().is_modified());
    let requests = state.take_requests();
    assert!(matches!(
        &requests[0],
        Request::SaveBuffer { id: saved, path, text } if *saved == id && path == "/tmp/a.txt" && text == "Xabc"
    ));
}

#[test]
fn pickers_are_filled_and_accepted() {
    let (registry, mut state) = setup();
    let second = state.create_buffer_from_text("second", "2").unwrap();
    run(&registry, &mut state, "find-buffer").unwrap();
    assert_eq!(state.focused_buf().mode, Mode::Minibuffer);
    {
        let mini = state.minibuffer_manager.current.as_ref().unwrap();
        assert_eq!(mini.prompt(), "Find Buffer: ");
        assert_eq!(mini.render_candidates(), vec!["[No Name]", "second"]);
        assert_eq!(mini.state.kind, PickerKind::FindBuffer);
    }
    run(&registry, &mut state, "minibuffer-next-completion").unwrap();
    assert_eq!(state.minibuffer_manager.current.as_ref().unwrap().index(), 1);
    run(&registry, &mut state, "minibuffer-next-completion").unwrap();
    assert_eq!(state.minibuffer_manager.current.as_ref().unwrap().index(), 0);
    run(&registry, &mut state, "minibuffer-previous-completion").unwrap();
    assert_eq!(state.minibuffer_manager.current.as_ref().unwrap().index(), 1);
    run(&registry, &mut state, "minibuffer-accept").unwrap();
    assert_eq!(state.focused_buf_id, second);
    assert!(!state.minibuffer_manager.active());
}

#[test]
fn find_command_runs_the_picked_command() {
    let (registry, mut state) = setup();
    state.focused_buf_mut().insert_str("abc");
    run(&registry, &mut state, "find-command").unwrap();
    {
        let mini = state.minibuffer_manager.current.as_mut().unwrap();
        assert_eq!(mini.len(), default_command_table().len());
        mini.state.input = "beginning".to_string();
        mini.filter_items();
        assert_eq!(mini.render_candidates(), vec!["beginning-of-line"]);
    }
    run(&registry, &mut state, "minibuffer-accept").unwrap();
    assert_eq!(state.focused_buf().cursor, Cursor { row: 0, col: 0 });
    assert_eq!(state.focused_buf().mode, Mode::Normal);
}

#[test]
fn accepting_a_path_asks_the_application() {
    let (registry, mut state) = setup();
    state.show_picker(
        "Open File: ",
        vec![benihime::mini_buffer::PickerItem::Path("/src".to_string())],
        PickerKind::OpenFile,
    );
    run(&registry, &mut state, "minibuffer-accept").unwrap();
    assert!(matches!(&state.take_requests()[0], Request::OpenPath { path } if path == "/src"));
    // The picker of a file to open stays for the entries of a directory.
    assert!(state.minibuffer_manager.active());
    state.show_picker(
        "Find File: ",
        vec![benihime::mini_buffer::PickerItem::Path("/src/a".to_string())],
        PickerKind::FindFile,
    );
    run(&registry, &mut state, "minibuffer-accept").unwrap();
    assert!(!state.minibuffer_manager.active());
}

#[test]
fn registry_replaces_and_categorizes() {
    let mut registry = CommandRegistry::new();
    registry.register("a", CommandFn::MoveLeft);
    registry.register_motion("b", CommandFn::MoveRight);
    registry.register_operator("c", CommandFn::DeleteRange);
    registry.register_navigation("d", CommandFn::GotoFirstLine);
    registry.register_system("e", CommandFn::ClearErrorMessage);
    registry.register_system("a", CommandFn::MoveUp);
    assert_eq!(registry.commands.len(), 5);
    assert_eq!(registry.get("a"), Some(Cmd::System(CommandFn::MoveUp)));
    assert_eq!(registry.get("b"), Some(Cmd::Motion(CommandFn::MoveRight)));
    assert_eq!(registry.get("c"), Some(Cmd::Operator(CommandFn::DeleteRange)));
    assert_eq!(registry.get("d"), Some(Cmd::Navigation(CommandFn::GotoFirstLine)));
    assert_eq!(registry.get("zzz"), None);
    assert_eq!(registry.names(), vec!["a", "b", "c", "d", "e"]);
    assert!(same_text("x", "x"));
    assert!(!same_text("x", "y"));
}

#[test]
fn navigation_commands_drop_the_range() {
    let mut registry = CommandRegistry::new();
    registry.register_navigation("top", CommandFn::GotoFirstLine);
    registry.register_motion("w", CommandFn::WordMotion(
        benihime::movement::movement::WordMotionTarget::NextWordStart,
    ));
    let mut state = EditorState::new();
    state.focused_buf_mut().insert_str("a b");
    state.focused_buf_mut().cursor = Cursor { row: 0, col: 0 };
    registry.execute("w", &mut state, &None, 1).unwrap();
    assert!(state.focused_buf().range.is_some());
    registry.execute("top", &mut state, &None, 1).unwrap();
    assert!(state.focused_buf().range.is_none());
}

#[test]
fn motions_repeat_by_the_count() {
    let (registry, mut state) = setup();
    state.focused_buf_mut().insert_str("a b c d");
    state.focused_buf_mut().cursor = Cursor { row: 0, col: 0 };
    state.prefix_arg = Some(3);
    state.exec(&registry, "word-forward", None).unwrap();
    assert_eq!(state.focused_buf().cursor, Cursor { row: 0, col: 6 });
    // The count is used up.
    assert_eq!(state.prefix_arg, None);
    state.focused_buf_mut().cursor = Cursor { row: 0, col: 0 };
    state.exec(&registry, "word-forward", None).unwrap();
    assert_eq!(state.focused_buf().cursor, Cursor { row: 0, col: 2 });
}
