//! The commands that every editor starts with.

use crate::buffer::{BufferView, Mode};
use crate::command::command_registry::{
    registered, Cmd, CommandRegistry, Registered, RegisteredView,
};
use crate::command::{
    args_view, get_mode_arg, get_str_arg, mode_arg, result_view, str_arg, ArgView, CommandArg,
    CommandError, ErrorView,
};
use crate::commands;
use crate::editor_state::{lemma_with_focused_wf, EditorState, Outcome, Request, RequestView, StateView};
use crate::mini_buffer::{item_views, ItemView, PickerItem, PickerKind, PickerView};
use crate::movement::movement::WordMotionTarget;
use crate::movement::movement_commands::move_word_impl;
use crate::project::ProjectView;
use vstd::prelude::*;

verus! {

/// The body of a command.
#[derive(Debug, Clone, Copy, PartialEq, Eq, Structural)]
pub enum CommandFn {
    MoveLeft,
    MoveDown,
    MoveUp,
    MoveRight,
    SetMode,
    BeginningOfLine,
    EndOfLine,
    FirstNonBlank,
    OpenAbove,
    OpenBelow,
    WordMotion(WordMotionTarget),
    ExecuteCommandBuffer,
    OpenFile,
    FindFile,
    Echo,
    ErrorMessage,
    ClearErrorMessage,
    NextBuffer,
    PreviousBuffer,
    CenterCursor,
    MinibufferNextCompletion,
    MinibufferPreviousCompletion,
    MinibufferAccept,
    FindCommand,
    KillThisBuffer,
    EnterVisualMode,
    ExitVisualMode,
    VisualSelectOtherEnd,
    DeleteSelection,
    ChangeSelection,
    FindBuffer,
    DeleteRange,
    ChangeRange,
    Undo,
    Redo,
    ScrollHalfDown,
    ScrollHalfUp,
    ScrollFullDown,
    ScrollFullUp,
    GotoFirstLine,
    GotoLastLine,
    SaveCurrentBuffer,
    OpenProject,
    KillCurrentProject,
}

impl CommandFn {
    /// Whether the command runs other commands by their name.
    pub open spec fn nests(self) -> bool {
        self is ExecuteCommandBuffer || self is MinibufferAccept || self is FindCommand
    }
}

/// A command that succeeded and led to `state`.
pub open spec fn done(state: StateView) -> Outcome {
    Outcome { state, result: Ok(()) }
}

/// A command that failed with `error` and changed nothing.
pub open spec fn failed(state: StateView, error: ErrorView) -> Outcome {
    Outcome { state, result: Err(error) }
}

/// The buffers as candidates of a picker.
pub open spec fn buffer_items(buffers: Seq<BufferView>) -> Seq<ItemView> {
    buffers.map_values(|b: BufferView| ItemView::Buffer { id: b.id, name: b.name })
}

/// The projects as candidates of a picker.
pub open spec fn project_items(projects: Seq<ProjectView>) -> Seq<ItemView> {
    projects.map_values(|p: ProjectView| ItemView::Project { project: p.id, name: p.name })
}

impl StateView {
    /// The focused buffer changed to `buffer`.
    pub open spec fn edited(self, buffer: BufferView) -> Outcome {
        done(self.with_focused(buffer))
    }

    /// The mode of the focused buffer set to the mode that is the first
    /// argument. Entering command mode starts with an empty command line.
    pub open spec fn set_mode(self, args: Option<Seq<ArgView>>) -> Outcome {
        match mode_arg(args, 0) {
            Ok(mode) => done(self.enter_mode(mode)),
            Err(e) => failed(self, e),
        }
    }

    /// The focused buffer in `mode`; with an empty command line for command
    /// mode.
    pub open spec fn enter_mode(self, mode: Mode) -> StateView {
        StateView {
            command_line: if mode == Mode::Command {
                Seq::empty()
            } else {
                self.command_line
            },
            ..self
        }.with_focused(self.focused_buffer().set_mode(mode))
    }

    /// The first argument shown as information.
    pub open spec fn echo_arg(self, args: Option<Seq<ArgView>>) -> Outcome {
        match str_arg(args, 0) {
            Ok(text) => done(self.echo(text)),
            Err(e) => failed(self, e),
        }
    }

    /// The first argument shown as an error.
    pub open spec fn error_arg(self, args: Option<Seq<ArgView>>) -> Outcome {
        match str_arg(args, 0) {
            Ok(text) => done(self.show_error(text)),
            Err(e) => failed(self, e),
        }
    }

    /// The application asked to offer the files of the current project, in
    /// its root or below it. Outside a project the command fails.
    pub open spec fn offer_files(self, below: bool) -> Outcome {
        match self.projects.current_project().root {
            Some(root) => done(
                self.ask(
                    if below {
                        RequestView::WalkFiles { root }
                    } else {
                        RequestView::ListDirectory { path: root }
                    },
                ),
            ),
            None => failed(self, ErrorView::Message("Not in a Project"@)),
        }
    }

    /// The focus of the picker moved by `delta`, where a picker with
    /// candidates is shown.
    pub open spec fn move_completion(self, delta: isize) -> StateView {
        match self.picker {
            Some(picker) if picker.items.len() > 0 => StateView {
                picker: Some(picker.move_focus(delta)),
                ..self
            },
            _ => self,
        }
    }

    /// The application asked to save the focused buffer, where it has a
    /// file; the buffer counts as saved.
    pub open spec fn save_current_buffer(self) -> StateView {
        let buffer = self.focused_buffer();
        match buffer.file_path {
            Some(path) => self.ask(
                RequestView::SaveBuffer { id: buffer.id, path, text: buffer.text },
            ).with_focused(BufferView { modified: false, ..buffer }),
            None => self,
        }
    }

    /// A picker of the buffers shown.
    pub open spec fn find_buffer(self) -> StateView {
        self.show_picker(
            PickerView::fresh(
                "Find Buffer: "@,
                buffer_items(self.buffers.buffers),
                PickerKind::FindBuffer,
            ),
        )
    }

    /// A picker of the projects shown.
    pub open spec fn open_project(self) -> StateView {
        self.show_picker(
            PickerView::fresh(
                "Open Project: "@,
                project_items(self.projects.projects),
                PickerKind::OpenProject,
            ),
        )
    }
}

/// What a command that runs no other command leads to.
pub open spec fn run_simple(f: CommandFn, s: StateView, args: Option<Seq<ArgView>>, count: usize) -> Outcome {
    let b = s.focused_buffer();
    match f {
        CommandFn::MoveLeft => s.edited(b.move_left()),
        CommandFn::MoveDown => s.edited(b.rows_down(1)),
        CommandFn::MoveUp => s.edited(b.move_up()),
        CommandFn::MoveRight => s.edited(b.move_right()),
        CommandFn::SetMode => s.set_mode(args),
        CommandFn::BeginningOfLine => s.edited(b.beginning_of_line()),
        CommandFn::EndOfLine => s.edited(b.end_of_line()),
        CommandFn::FirstNonBlank => s.edited(b.start_of_line()),
        CommandFn::OpenAbove => s.edited(b.new_line_above().set_mode(Mode::Insert)),
        CommandFn::OpenBelow => s.edited(b.new_line_below().set_mode(Mode::Insert)),
        CommandFn::WordMotion(target) => s.edited(b.move_word(target, count)),
        CommandFn::OpenFile => s.offer_files(false),
        CommandFn::FindFile => s.offer_files(true),
        CommandFn::Echo => s.echo_arg(args),
        CommandFn::ErrorMessage => s.error_arg(args),
        CommandFn::ClearErrorMessage => done(s.clear_error()),
        CommandFn::NextBuffer => done(s.cycle_buffer(true)),
        CommandFn::PreviousBuffer => done(s.cycle_buffer(false)),
        CommandFn::CenterCursor => s.edited(b.center_cursor(s.screen_height)),
        CommandFn::MinibufferNextCompletion => done(s.move_completion(1isize)),
        CommandFn::MinibufferPreviousCompletion => done(s.move_completion(-1isize)),
        CommandFn::KillThisBuffer => s.kill_active_buffer(),
        CommandFn::EnterVisualMode => s.edited(b.enter_visual_mode()),
        CommandFn::ExitVisualMode => s.edited(b.exit_visual_mode()),
        CommandFn::VisualSelectOtherEnd => s.edited(b.visual_select_other_end()),
        CommandFn::DeleteSelection => s.edited(b.consume_selection(Mode::Normal)),
        CommandFn::ChangeSelection => s.edited(b.consume_selection(Mode::Insert)),
        CommandFn::FindBuffer => done(s.find_buffer()),
        CommandFn::DeleteRange => s.edited(b.delete_range()),
        CommandFn::ChangeRange => s.edited(b.change_range()),
        CommandFn::Undo => s.edited(b.undo()),
        CommandFn::Redo => s.edited(b.redo()),
        CommandFn::ScrollHalfDown => s.edited(b.rows_down(s.screen_height / 2)),
        CommandFn::ScrollHalfUp => s.edited(b.rows_up(s.screen_height / 2)),
        CommandFn::ScrollFullDown => s.edited(b.rows_down(s.screen_height)),
        CommandFn::ScrollFullUp => s.edited(b.rows_up(s.screen_height)),
        CommandFn::GotoFirstLine => s.edited(b.goto_first_line()),
        CommandFn::GotoLastLine => s.edited(b.goto_last_line()),
        CommandFn::SaveCurrentBuffer => done(s.save_current_buffer()),
        CommandFn::OpenProject => done(s.open_project()),
        CommandFn::KillCurrentProject => s.close_current_project(),
        // The commands that run other commands are not simple.
        CommandFn::ExecuteCommandBuffer | CommandFn::MinibufferAccept | CommandFn::FindCommand => done(s),
    }
}

/// Sets the mode of the focused buffer.
pub fn enter_mode(state: &mut EditorState, mode: Mode)
    requires
        old(state).wf(),
    ensures
        final(state).wf(),
        final(state)@ == old(state)@.enter_mode(mode),
{
    if mode == Mode::Command {
        state.command_buffer = String::new();
    }
    let ghost mid = state@;
    let buf = state.focused_buf_mut();
    buf.set_mode(mode);
    proof {
        lemma_with_focused_wf(mid, old(state)@.focused_buffer().set_mode(mode));
    }
}

/// The buffers as candidates of a picker.
fn list_buffers(state: &EditorState) -> (items: Vec<PickerItem>)
    ensures
        item_views(items@) == buffer_items(state@.buffers.buffers),
{
    let buffers = state.buffer_manager.get_buffers();
    let mut items: Vec<PickerItem> = Vec::new();
    let mut i: usize = 0;
    while i < buffers.len()
        invariant
            i <= buffers.len(),
            buffers.len() == state@.buffers.buffers.len(),
            forall|k: int| 0 <= k < buffers.len() ==> (#[trigger] buffers[k])@ == state@.buffers.buffers[k],
            items.len() == i,
            forall|k: int|
                0 <= k < i ==> (#[trigger] items[k])@ == (ItemView::Buffer {
                    id: state@.buffers.buffers[k].id,
                    name: state@.buffers.buffers[k].name,
                }),
        decreases buffers.len() - i,
    {
        let b = buffers[i];
        items.push(PickerItem::Buffer { id: b.id, name: b.name.clone() });
        i = i + 1;
    }
    assert(item_views(items@) =~= buffer_items(state@.buffers.buffers));
    items
}

/// The projects as candidates of a picker.
fn list_projects(state: &EditorState) -> (items: Vec<PickerItem>)
    ensures
        item_views(items@) == project_items(state@.projects.projects),
{
    let projects = state.project_manager.get_projects();
    let mut items: Vec<PickerItem> = Vec::new();
    let mut i: usize = 0;
    while i < projects.len()
        invariant
            i <= projects.len(),
            projects.len() == state@.projects.projects.len(),
            forall|k: int| 0 <= k < projects.len() ==> (#[trigger] projects[k])@ == state@.projects.projects[k],
            items.len() == i,
            forall|k: int|
                0 <= k < i ==> (#[trigger] items[k])@ == (ItemView::Project {
                    project: state@.projects.projects[k].id,
                    name: state@.projects.projects[k].name,
                }),
        decreases projects.len() - i,
    {
        let p = projects[i];
        items.push(PickerItem::Project { project: p.id, name: p.name.clone() });
        i = i + 1;
    }
    assert(item_views(items@) =~= project_items(state@.projects.projects));
    items
}

/// Moves the focus of the picker.
fn move_completion(state: &mut EditorState, delta: isize)
    ensures
        final(state)@ == old(state)@.move_completion(delta),
{
    match &mut state.minibuffer_manager.current {
        Some(mini) => {
            if mini.len() > 0 {
                mini.move_focus(delta);
            }
        },
        None => {},
    }
}

/// Asks the application to save the focused buffer.
fn save_current_buffer(state: &mut EditorState)
    requires
        old(state).wf(),
    ensures
        final(state).wf(),
        final(state)@ == old(state)@.save_current_buffer(),
{
    let request = {
        let buf = state.focused_buf();
        match &buf.file_path {
            Some(path) => Some(
                Request::SaveBuffer { id: buf.id, path: path.clone(), text: buf.to_string() },
            ),
            None => None,
        }
    };
    match request {
        Some(request) => {
            state.ask(request);
            let ghost mid = state@;
            let buf = state.focused_buf_mut();
            buf.mark_saved();
            proof {
                lemma_with_focused_wf(
                    mid,
                    BufferView { modified: false, ..old(state)@.focused_buffer() },
                );
            }
        },
        None => {},
    }
}

/// Asks the application to offer the files of the current project.
fn offer_files(state: &mut EditorState, below: bool) -> (result: Result<(), CommandError>)
    requires
        old(state).wf(),
    ensures
        final(state).wf(),
        final(state)@ == old(state)@.offer_files(below).state,
        result_view(result) == old(state)@.offer_files(below).result,
{
    let root = match state.cwd() {
        Some(root) => root.clone(),
        None => {
            return Err(CommandError::Message(String::from_str("Not in a Project")));
        },
    };
    if below {
        state.ask(Request::WalkFiles { root });
    } else {
        state.ask(Request::ListDirectory { path: root });
    }
    Ok(())
}

impl CommandFn {
    /// Runs a command that runs no other command.
    #[verifier::rlimit(50)]
    pub fn call_simple(
        self,
        state: &mut EditorState,
        args: &Option<Vec<CommandArg>>,
        count: usize,
    ) -> (result: Result<(), CommandError>)
        requires
            old(state).wf(),
            !self.nests(),
        ensures
            final(state).wf(),
            final(state)@ == run_simple(self, old(state)@, args_view(*args), count).state,
            result_view(result) == run_simple(self, old(state)@, args_view(*args), count).result,
    {
        let ghost before = state@;
        let ghost b = before.focused_buffer();
        match self {
            CommandFn::SetMode => {
                let mode = get_mode_arg(args, 0)?;
                enter_mode(state, mode);
                return Ok(());
            },
            CommandFn::OpenFile => {
                return offer_files(state, false);
            },
            CommandFn::FindFile => {
                return offer_files(state, true);
            },
            CommandFn::Echo => {
                let text = get_str_arg(args, 0)?;
                state.echo(text);
                return Ok(());
            },
            CommandFn::ErrorMessage => {
                let text = get_str_arg(args, 0)?;
                state.show_error(text);
                return Ok(());
            },
            CommandFn::ClearErrorMessage => {
                state.clear_error();
                return Ok(());
            },
            CommandFn::NextBuffer => {
                state.cycle_buffer(true);
                return Ok(());
            },
            CommandFn::PreviousBuffer => {
                state.cycle_buffer(false);
                return Ok(());
            },
            CommandFn::MinibufferNextCompletion => {
                move_completion(state, 1);
                return Ok(());
            },
            CommandFn::MinibufferPreviousCompletion => {
                move_completion(state, -1);
                return Ok(());
            },
            CommandFn::KillThisBuffer => {
                return state.kill_active_buffer();
            },
            CommandFn::FindBuffer => {
                let items = list_buffers(state);
                state.show_picker("Find Buffer: ", items, PickerKind::FindBuffer);
                return Ok(());
            },
            CommandFn::SaveCurrentBuffer => {
                save_current_buffer(state);
                return Ok(());
            },
            CommandFn::OpenProject => {
                let items = list_projects(state);
                state.show_picker("Open Project: ", items, PickerKind::OpenProject);
                return Ok(());
            },
            CommandFn::KillCurrentProject => {
                return state.close_current_project();
            },
            _ => {},
        }
        let height = state.screen_height;
        let buf = state.focused_buf_mut();
        match self {
            CommandFn::MoveLeft => commands::move_left(buf),
            CommandFn::MoveDown => commands::move_down(buf),
            CommandFn::MoveUp => commands::move_up(buf),
            CommandFn::MoveRight => commands::move_right(buf),
            CommandFn::BeginningOfLine => commands::beginning_of_line(buf),
            CommandFn::EndOfLine => commands::end_of_line(buf),
            CommandFn::FirstNonBlank => commands::start_of_line(buf),
            CommandFn::OpenAbove => {
                commands::new_line_above(buf);
                buf.set_mode(Mode::Insert);
            },
            CommandFn::OpenBelow => {
                commands::new_line_below(buf);
                buf.set_mode(Mode::Insert);
            },
            CommandFn::WordMotion(target) => move_word_impl(buf, target, count),
            CommandFn::CenterCursor => buf.center_cursor(height),
            CommandFn::EnterVisualMode => commands::enter_visual_mode(buf),
            CommandFn::ExitVisualMode => commands::exit_visual_mode(buf),
            CommandFn::VisualSelectOtherEnd => commands::visual_select_other_end(buf),
            CommandFn::DeleteSelection => commands::consume_selection(buf, Mode::Normal),
            CommandFn::ChangeSelection => commands::consume_selection(buf, Mode::Insert),
            CommandFn::DeleteRange => commands::delete_range(buf),
            CommandFn::ChangeRange => commands::change_range(buf),
            CommandFn::Undo => buf.undo(),
            CommandFn::Redo => buf.redo(),
            CommandFn::ScrollHalfDown => commands::scroll_down(buf, height / 2),
            CommandFn::ScrollHalfUp => commands::scroll_up(buf, height / 2),
            CommandFn::ScrollFullDown => commands::scroll_down(buf, height),
            CommandFn::ScrollFullUp => commands::scroll_up(buf, height),
            CommandFn::GotoFirstLine => commands::goto_first_line(buf),
            CommandFn::GotoLastLine => commands::goto_last_line(buf),
            _ => {},
        }
        proof {
            lemma_with_focused_wf(before, buf@);
        }
        Ok(())
    }
}

/// The default commands: each name with its category and its body.
pub open spec fn default_commands() -> Seq<RegisteredView> {
    seq![
        RegisteredView { name: "move-left"@, cmd: Cmd::Plain(CommandFn::MoveLeft) },
        RegisteredView { name: "move-down"@, cmd: Cmd::Plain(CommandFn::MoveDown) },
        RegisteredView { name: "move-up"@, cmd: Cmd::Plain(CommandFn::MoveUp) },
        RegisteredView { name: "move-right"@, cmd: Cmd::Plain(CommandFn::MoveRight) },
        RegisteredView { name: "set-mode"@, cmd: Cmd::Plain(CommandFn::SetMode) },
        RegisteredView { name: "beginning-of-line"@, cmd: Cmd::Plain(CommandFn::BeginningOfLine) },
        RegisteredView { name: "end-of-line"@, cmd: Cmd::Plain(CommandFn::EndOfLine) },
        RegisteredView { name: "first-non-blank"@, cmd: Cmd::Plain(CommandFn::FirstNonBlank) },
        RegisteredView { name: "open-above"@, cmd: Cmd::Plain(CommandFn::OpenAbove) },
        RegisteredView { name: "open-below"@, cmd: Cmd::Plain(CommandFn::OpenBelow) },
        RegisteredView { name: "word-forward"@, cmd: Cmd::Motion(CommandFn::WordMotion(WordMotionTarget::NextWordStart)) },
        RegisteredView { name: "word-backward"@, cmd: Cmd::Motion(CommandFn::WordMotion(WordMotionTarget::PrevWordStart)) },
        RegisteredView { name: "word-end"@, cmd: Cmd::Motion(CommandFn::WordMotion(WordMotionTarget::NextWordEnd)) },
        RegisteredView { name: "word-backward-end"@, cmd: Cmd::Motion(CommandFn::WordMotion(WordMotionTarget::PrevWordEnd)) },
        RegisteredView { name: "long-word-forward"@, cmd: Cmd::Motion(CommandFn::WordMotion(WordMotionTarget::NextLongWordStart)) },
        RegisteredView { name: "long-word-forward-end"@, cmd: Cmd::Motion(CommandFn::WordMotion(WordMotionTarget::NextLongWordEnd)) },
        RegisteredView { name: "long-word-backward"@, cmd: Cmd::Motion(CommandFn::WordMotion(WordMotionTarget::PrevLongWordStart)) },
        RegisteredView { name: "long-word-backward-end"@, cmd: Cmd::Motion(CommandFn::WordMotion(WordMotionTarget::PrevLongWordEnd)) },
        RegisteredView { name: "sub-word-forward"@, cmd: Cmd::Motion(CommandFn::WordMotion(WordMotionTarget::NextSubWordStart)) },
        RegisteredView { name: "sub-word-forward-end"@, cmd: Cmd::Motion(CommandFn::WordMotion(WordMotionTarget::NextSubWordEnd)) },
        RegisteredView { name: "sub-word-backward"@, cmd: Cmd::Motion(CommandFn::WordMotion(WordMotionTarget::PrevSubWordStart)) },
        RegisteredView { name: "sub-word-backward-end"@, cmd: Cmd::Motion(CommandFn::WordMotion(WordMotionTarget::PrevSubWordEnd)) },
        RegisteredView { name: "execute-command-buffer"@, cmd: Cmd::Plain(CommandFn::ExecuteCommandBuffer) },
        RegisteredView { name: "open-file"@, cmd: Cmd::Plain(CommandFn::OpenFile) },
        RegisteredView { name: "find-file"@, cmd: Cmd::Plain(CommandFn::FindFile) },
        RegisteredView { name: "echo"@, cmd: Cmd::Plain(CommandFn::Echo) },
        RegisteredView { name: "error-message"@, cmd: Cmd::Plain(CommandFn::ErrorMessage) },
        RegisteredView { name: "clear-error-message"@, cmd: Cmd::System(CommandFn::ClearErrorMessage) },
        RegisteredView { name: "next-buffer"@, cmd: Cmd::Plain(CommandFn::NextBuffer) },
        RegisteredView { name: "previous-buffer"@, cmd: Cmd::Plain(CommandFn::PreviousBuffer) },
        RegisteredView { name: "center-cursor"@, cmd: Cmd::Plain(CommandFn::CenterCursor) },
        RegisteredView { name: "minibuffer-next-completion"@, cmd: Cmd::Plain(CommandFn::MinibufferNextCompletion) },
        RegisteredView { name: "minibuffer-previous-completion"@, cmd: Cmd::Plain(CommandFn::MinibufferPreviousCompletion) },
        RegisteredView { name: "minibuffer-accept"@, cmd: Cmd::Plain(CommandFn::MinibufferAccept) },
        RegisteredView { name: "find-command"@, cmd: Cmd::Plain(CommandFn::FindCommand) },
        RegisteredView { name: "kill-this-buffer"@, cmd: Cmd::Plain(CommandFn::KillThisBuffer) },
        RegisteredView { name: "enter-visual-mode"@, cmd: Cmd::Plain(CommandFn::EnterVisualMode) },
        RegisteredView { name: "exit-visual-mode"@, cmd: Cmd::Plain(CommandFn::ExitVisualMode) },
        RegisteredView { name: "visual_select_other_end"@, cmd: Cmd::Plain(CommandFn::VisualSelectOtherEnd) },
        RegisteredView { name: "delete-selection"@, cmd: Cmd::Plain(CommandFn::DeleteSelection) },
        RegisteredView { name: "change-selection"@, cmd: Cmd::Plain(CommandFn::ChangeSelection) },
        RegisteredView { name: "find-buffer"@, cmd: Cmd::Plain(CommandFn::FindBuffer) },
        RegisteredView { name: "delete-range"@, cmd: Cmd::Operator(CommandFn::DeleteRange) },
        RegisteredView { name: "change-range"@, cmd: Cmd::Operator(CommandFn::ChangeRange) },
        RegisteredView { name: "undo"@, cmd: Cmd::Plain(CommandFn::Undo) },
        RegisteredView { name: "redo"@, cmd: Cmd::Plain(CommandFn::Redo) },
        RegisteredView { name: "scroll-half-down"@, cmd: Cmd::Plain(CommandFn::ScrollHalfDown) },
        RegisteredView { name: "scroll-half-up"@, cmd: Cmd::Plain(CommandFn::ScrollHalfUp) },
        RegisteredView { name: "scroll-full-down"@, cmd: Cmd::Plain(CommandFn::ScrollFullDown) },
        RegisteredView { name: "scroll-full-up"@, cmd: Cmd::Plain(CommandFn::ScrollFullUp) },
        RegisteredView { name: "goto-first-line"@, cmd: Cmd::Plain(CommandFn::GotoFirstLine) },
        RegisteredView { name: "goto-last-line"@, cmd: Cmd::Plain(CommandFn::GotoLastLine) },
        RegisteredView { name: "save-current-buffer"@, cmd: Cmd::Plain(CommandFn::SaveCurrentBuffer) },
        RegisteredView { name: "open-project"@, cmd: Cmd::Plain(CommandFn::OpenProject) },
        RegisteredView { name: "kill-current-project"@, cmd: Cmd::Plain(CommandFn::KillCurrentProject) },
    ]
}

/// The commands with those of `table` registered, one after the other.
pub open spec fn register_all(commands: Seq<RegisteredView>, table: Seq<RegisteredView>) -> Seq<
    RegisteredView,
>
    decreases table.len(),
{
    if table.len() == 0 {
        commands
    } else {
        registered(
            register_all(commands, table.drop_last()),
            table.last().name,
            table.last().cmd,
        )
    }
}

/// The default commands: each name with its category and its body.
pub fn default_command_table() -> (table: Vec<Registered>)
    ensures
        table@.map_values(|r: Registered| r@) == default_commands(),
{
    let mut table: Vec<Registered> = Vec::new();
    table.push(Registered { name: String::from_str("move-left"), cmd: Cmd::Plain(CommandFn::MoveLeft) });
    table.push(Registered { name: String::from_str("move-down"), cmd: Cmd::Plain(CommandFn::MoveDown) });
    table.push(Registered { name: String::from_str("move-up"), cmd: Cmd::Plain(CommandFn::MoveUp) });
    table.push(Registered { name: String::from_str("move-right"), cmd: Cmd::Plain(CommandFn::MoveRight) });
    table.push(Registered { name: String::from_str("set-mode"), cmd: Cmd::Plain(CommandFn::SetMode) });
    table.push(Registered { name: String::from_str("beginning-of-line"), cmd: Cmd::Plain(CommandFn::BeginningOfLine) });
    table.push(Registered { name: String::from_str("end-of-line"), cmd: Cmd::Plain(CommandFn::EndOfLine) });
    table.push(Registered { name: String::from_str("first-non-blank"), cmd: Cmd::Plain(CommandFn::FirstNonBlank) });
    table.push(Registered { name: String::from_str("open-above"), cmd: Cmd::Plain(CommandFn::OpenAbove) });
    table.push(Registered { name: String::from_str("open-below"), cmd: Cmd::Plain(CommandFn::OpenBelow) });
    table.push(Registered { name: String::from_str("word-forward"), cmd: Cmd::Motion(CommandFn::WordMotion(WordMotionTarget::NextWordStart)) });
    table.push(Registered { name: String::from_str("word-backward"), cmd: Cmd::Motion(CommandFn::WordMotion(WordMotionTarget::PrevWordStart)) });
    table.push(Registered { name: String::from_str("word-end"), cmd: Cmd::Motion(CommandFn::WordMotion(WordMotionTarget::NextWordEnd)) });
    table.push(Registered { name: String::from_str("word-backward-end"), cmd: Cmd::Motion(CommandFn::WordMotion(WordMotionTarget::PrevWordEnd)) });
    table.push(Registered { name: String::from_str("long-word-forward"), cmd: Cmd::Motion(CommandFn::WordMotion(WordMotionTarget::NextLongWordStart)) });
    table.push(Registered { name: String::from_str("long-word-forward-end"), cmd: Cmd::Motion(CommandFn::WordMotion(WordMotionTarget::NextLongWordEnd)) });
    table.push(Registered { name: String::from_str("long-word-backward"), cmd: Cmd::Motion(CommandFn::WordMotion(WordMotionTarget::PrevLongWordStart)) });
    table.push(Registered { name: String::from_str("long-word-backward-end"), cmd: Cmd::Motion(CommandFn::WordMotion(WordMotionTarget::PrevLongWordEnd)) });
    table.push(Registered { name: String::from_str("sub-word-forward"), cmd: Cmd::Motion(CommandFn::WordMotion(WordMotionTarget::NextSubWordStart)) });
    table.push(Registered { name: String::from_str("sub-word-forward-end"), cmd: Cmd::Motion(CommandFn::WordMotion(WordMotionTarget::NextSubWordEnd)) });
    table.push(Registered { name: String::from_str("sub-word-backward"), cmd: Cmd::Motion(CommandFn::WordMotion(WordMotionTarget::PrevSubWordStart)) });
    table.push(Registered { name: String::from_str("sub-word-backward-end"), cmd: Cmd::Motion(CommandFn::WordMotion(WordMotionTarget::PrevSubWordEnd)) });
    table.push(Registered { name: String::from_str("execute-command-buffer"), cmd: Cmd::Plain(CommandFn::ExecuteCommandBuffer) });
    table.push(Registered { name: String::from_str("open-file"), cmd: Cmd::Plain(CommandFn::OpenFile) });
    table.push(Registered { name: String::from_str("find-file"), cmd: Cmd::Plain(CommandFn::FindFile) });
    table.push(Registered { name: String::from_str("echo"), cmd: Cmd::Plain(CommandFn::Echo) });
    table.push(Registered { name: String::from_str("error-message"), cmd: Cmd::Plain(CommandFn::ErrorMessage) });
    table.push(Registered { name: String::from_str("clear-error-message"), cmd: Cmd::System(CommandFn::ClearErrorMessage) });
    table.push(Registered { name: String::from_str("next-buffer"), cmd: Cmd::Plain(CommandFn::NextBuffer) });
    table.push(Registered { name: String::from_str("previous-buffer"), cmd: Cmd::Plain(CommandFn::PreviousBuffer) });
    table.push(Registered { name: String::from_str("center-cursor"), cmd: Cmd::Plain(CommandFn::CenterCursor) });
    table.push(Registered { name: String::from_str("minibuffer-next-completion"), cmd: Cmd::Plain(CommandFn::MinibufferNextCompletion) });
    table.push(Registered { name: String::from_str("minibuffer-previous-completion"), cmd: Cmd::Plain(CommandFn::MinibufferPreviousCompletion) });
    table.push(Registered { name: String::from_str("minibuffer-accept"), cmd: Cmd::Plain(CommandFn::MinibufferAccept) });
    table.push(Registered { name: String::from_str("find-command"), cmd: Cmd::Plain(CommandFn::FindCommand) });
    table.push(Registered { name: String::from_str("kill-this-buffer"), cmd: Cmd::Plain(CommandFn::KillThisBuffer) });
    table.push(Registered { name: String::from_str("enter-visual-mode"), cmd: Cmd::Plain(CommandFn::EnterVisualMode) });
    table.push(Registered { name: String::from_str("exit-visual-mode"), cmd: Cmd::Plain(CommandFn::ExitVisualMode) });
    table.push(Registered { name: String::from_str("visual_select_other_end"), cmd: Cmd::Plain(CommandFn::VisualSelectOtherEnd) });
    table.push(Registered { name: String::from_str("delete-selection"), cmd: Cmd::Plain(CommandFn::DeleteSelection) });
    table.push(Registered { name: String::from_str("change-selection"), cmd: Cmd::Plain(CommandFn::ChangeSelection) });
    table.push(Registered { name: String::from_str("find-buffer"), cmd: Cmd::Plain(CommandFn::FindBuffer) });
    table.push(Registered { name: String::from_str("delete-range"), cmd: Cmd::Operator(CommandFn::DeleteRange) });
    table.push(Registered { name: String::from_str("change-range"), cmd: Cmd::Operator(CommandFn::ChangeRange) });
    table.push(Registered { name: String::from_str("undo"), cmd: Cmd::Plain(CommandFn::Undo) });
    table.push(Registered { name: String::from_str("redo"), cmd: Cmd::Plain(CommandFn::Redo) });
    table.push(Registered { name: String::from_str("scroll-half-down"), cmd: Cmd::Plain(CommandFn::ScrollHalfDown) });
    table.push(Registered { name: String::from_str("scroll-half-up"), cmd: Cmd::Plain(CommandFn::ScrollHalfUp) });
    table.push(Registered { name: String::from_str("scroll-full-down"), cmd: Cmd::Plain(CommandFn::ScrollFullDown) });
    table.push(Registered { name: String::from_str("scroll-full-up"), cmd: Cmd::Plain(CommandFn::ScrollFullUp) });
    table.push(Registered { name: String::from_str("goto-first-line"), cmd: Cmd::Plain(CommandFn::GotoFirstLine) });
    table.push(Registered { name: String::from_str("goto-last-line"), cmd: Cmd::Plain(CommandFn::GotoLastLine) });
    table.push(Registered { name: String::from_str("save-current-buffer"), cmd: Cmd::Plain(CommandFn::SaveCurrentBuffer) });
    table.push(Registered { name: String::from_str("open-project"), cmd: Cmd::Plain(CommandFn::OpenProject) });
    table.push(Registered { name: String::from_str("kill-current-project"), cmd: Cmd::Plain(CommandFn::KillCurrentProject) });
    assert(table@.map_values(|r: Registered| r@) =~= default_commands());
    table
}

/// Registers the default commands under their names.
pub fn register_default_commands(registry: &mut CommandRegistry)
    ensures
        final(registry)@ == register_all(old(registry)@, default_commands()),
{
    let table = default_command_table();
    let ghost all = default_commands();
    let mut i: usize = 0;
    assert(all.take(0) =~= Seq::<RegisteredView>::empty());
    while i < table.len()
        invariant
            i <= table.len(),
            all == table@.map_values(|r: Registered| r@),
            registry@ == register_all(old(registry)@, all.take(i as int)),
        decreases table.len() - i,
    {
        proof {
            assert(all.take(i + 1).drop_last() =~= all.take(i as int));
            assert(all.take(i + 1).last() == table@[i as int]@);
        }
        registry.insert(table[i].name.as_str(), table[i].cmd);
        i = i + 1;
    }
    assert(all.take(all.len() as int) =~= all);
}

} // verus!
