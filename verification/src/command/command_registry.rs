//! The registry of commands.
//!
//! A command is registered under a name and in one of five categories. The
//! category decides what the registry does around the body of the command:
//! before a plain or a navigation command it drops the pending range, and
//! after any command but the two that manage the error banner it updates the
//! banner.

use crate::buffer::{BufferView, Mode};
use crate::command::default_commands::{done, enter_mode, failed, run_simple, CommandFn};
use crate::command::{
    arg_of_token, arg_views, args_view, result_view, str_arg, ArgView, CommandArg, CommandError,
    ErrorView, HandleKeyError,
};
use crate::editor_state::{
    lemma_with_focused_wf, EditorState, Outcome, Request, RequestView, StateView,
};
use crate::mini_buffer::{item_views, ItemView, MiniBuffer, PickerItem, PickerKind, PickerView};
use crate::parse::{chars_of, split_whitespace, split_words, text_views};
use vstd::prelude::*;

verus! {

/// How deep commands may run other commands.
pub const NESTING_LIMIT: usize = 8;

/// A command body in its category.
#[derive(Debug, Clone, Copy, PartialEq, Eq, Structural)]
pub enum Cmd {
    /// Has side effects; a pending range is dropped before it runs.
    Plain(CommandFn),
    /// Moves the cursor; a pending range stays.
    Motion(CommandFn),
    /// Consumes the pending range or the selection.
    Operator(CommandFn),
    /// Goes to another place; a pending range is dropped before it runs.
    Navigation(CommandFn),
    /// Bookkeeping of the editor.
    System(CommandFn),
}

impl Cmd {
    /// The body of the command.
    pub open spec fn body(self) -> CommandFn {
        match self {
            Cmd::Plain(f) => f,
            Cmd::Motion(f) => f,
            Cmd::Operator(f) => f,
            Cmd::Navigation(f) => f,
            Cmd::System(f) => f,
        }
    }

    /// Whether a pending range is dropped before the command runs.
    pub open spec fn drops_range(self) -> bool {
        self is Plain || self is Navigation
    }
}

/// A command under its name.
#[derive(Debug, Clone)]
pub struct Registered {
    pub name: String,
    pub cmd: Cmd,
}

/// What a [`Registered`] stands for.
#[verifier::ext_equal]
pub struct RegisteredView {
    pub name: Seq<char>,
    pub cmd: Cmd,
}

impl View for Registered {
    type V = RegisteredView;

    open spec fn view(&self) -> RegisteredView {
        RegisteredView { name: self.name@, cmd: self.cmd }
    }
}

/// The commands of an editor.
#[derive(Debug, Clone)]
pub struct CommandRegistry {
    pub commands: Vec<Registered>,
}

impl View for CommandRegistry {
    type V = Seq<RegisteredView>;

    open spec fn view(&self) -> Seq<RegisteredView> {
        self.commands@.map_values(|r: Registered| r@)
    }
}

/// The place of the first command at or after `from` with the name `name`,
/// or the number of commands.
pub open spec fn command_index(commands: Seq<RegisteredView>, name: Seq<char>, from: int) -> int
    decreases commands.len() - from,
{
    if from < 0 || from >= commands.len() {
        commands.len() as int
    } else if commands[from].name == name {
        from
    } else {
        command_index(commands, name, from + 1)
    }
}

/// The command registered under `name`.
pub open spec fn lookup(commands: Seq<RegisteredView>, name: Seq<char>) -> Option<Cmd> {
    let i = command_index(commands, name, 0);
    if i < commands.len() {
        Some(commands[i].cmd)
    } else {
        None
    }
}

/// The commands with `cmd` under `name`, in place of what was there.
pub open spec fn registered(commands: Seq<RegisteredView>, name: Seq<char>, cmd: Cmd) -> Seq<
    RegisteredView,
> {
    let i = command_index(commands, name, 0);
    if i < commands.len() {
        commands.update(i, RegisteredView { name, cmd })
    } else {
        commands.push(RegisteredView { name, cmd })
    }
}

/// The name of the command that takes the error banner away.
pub open spec fn clear_error_name() -> Seq<char> {
    "clear-error-message"@
}

/// The name of the command that shows an error in the banner.
pub open spec fn show_error_name() -> Seq<char> {
    "error-message"@
}

/// Whether `name` is one of the two commands that manage the error banner.
pub open spec fn manages_banner(name: Seq<char>) -> bool {
    name == clear_error_name() || name == show_error_name()
}

/// What a [`HandleKeyError`] stands for.
#[verifier::ext_equal]
pub enum HandleErrorView {
    KeyNotFound,
    CommandNotFound(Seq<char>),
    ExecutionFailed(ErrorView),
}

impl HandleErrorView {
    /// The words of the error.
    pub open spec fn message(self) -> Seq<char> {
        match self {
            HandleErrorView::KeyNotFound => "Key not found in keymap"@,
            HandleErrorView::CommandNotFound(name) => "Command not found: "@ + name,
            HandleErrorView::ExecutionFailed(e) => "Command execution failed: "@ + e.message(),
        }
    }
}

/// The view of a failure to carry out a command.
pub open spec fn handle_error_view(e: HandleKeyError) -> HandleErrorView {
    match e {
        HandleKeyError::KeyNotFound => HandleErrorView::KeyNotFound,
        HandleKeyError::CommandNotFound(name) => HandleErrorView::CommandNotFound(name@),
        HandleKeyError::ExecutionFailed(e) => HandleErrorView::ExecutionFailed(e@),
    }
}

/// The view of what a dispatch gave back.
pub open spec fn dispatch_result_view(result: Result<(), HandleKeyError>) -> Result<
    (),
    HandleErrorView,
> {
    match result {
        Ok(_) => Ok(()),
        Err(e) => Err(handle_error_view(e)),
    }
}

/// A state and whether the dispatch that led to it succeeded.
#[verifier::ext_equal]
pub struct Dispatched {
    pub state: StateView,
    pub result: Result<(), HandleErrorView>,
}

impl StateView {
    /// The state without a pending range in the focused buffer.
    pub open spec fn without_range(self) -> StateView {
        self.with_focused(BufferView { range: None, ..self.focused_buffer() })
    }
}

/// The commands as candidates of a picker.
pub open spec fn command_items(commands: Seq<RegisteredView>) -> Seq<ItemView> {
    commands.map_values(|r: RegisteredView| ItemView::Command(r.name))
}

/// The arguments that the words of a command line stand for.
pub open spec fn token_args(words: Seq<Seq<char>>) -> Seq<ArgView> {
    words.map_values(|w: Seq<char>| arg_of_token(w))
}

/// What running the command line leads to. The focused buffer goes back to
/// normal mode and the line is taken. Its first word names the command, the
/// others are its arguments. A failure of the command is handed on in
/// words.
pub open spec fn run_command_line(commands: Seq<RegisteredView>, s: StateView, depth: nat) -> Outcome
    decreases depth, 0nat,
{
    let taken = StateView { command_line: Seq::empty(), ..s.enter_mode(Mode::Normal) };
    let words = split_words(s.command_line);
    if s.command_line.len() == 0 {
        done(taken)
    } else if words.len() == 0 {
        failed(taken, ErrorView::Message("Empty command"@))
    } else if depth == 0 {
        failed(taken, ErrorView::NestedTooDeep)
    } else {
        let d = dispatch(
            commands,
            words[0],
            taken,
            Some(token_args(words.drop_first())),
            1,
            (depth - 1) as nat,
        );
        Outcome {
            state: d.state,
            result: match d.result {
                Ok(_) => Ok(()),
                Err(e) => Err(ErrorView::Message(e.message())),
            },
        }
    }
}

/// What accepting the candidate in focus leads to. The focused buffer goes
/// back to normal mode and the picker is closed. A command is run, a buffer
/// gets the focus, a project becomes current, and for a path the
/// application is asked to open it; the picker of a file to open stays for
/// the entries of a directory.
pub open spec fn accept_candidate(commands: Seq<RegisteredView>, s: StateView, depth: nat) -> Outcome
    decreases depth, 0nat,
{
    let left = s.enter_mode(Mode::Normal);
    match left.picker {
        None => done(left),
        Some(picker) => {
            let closed = StateView { picker: None, ..left };
            match picker.focused() {
                None => done(closed),
                Some(ItemView::Command(name)) => if depth == 0 {
                    failed(closed, ErrorView::NestedTooDeep)
                } else {
                    done(dispatch(commands, name, closed, None, 1, (depth - 1) as nat).state)
                },
                Some(ItemView::Buffer { id, name: _ }) => done(closed.focus(id)),
                Some(ItemView::Project { project, name: _ }) => done(
                    closed.switch_to_project(project),
                ),
                Some(ItemView::Path(path)) => done(
                    StateView {
                        picker: if picker.kind == PickerKind::OpenFile {
                            Some(picker)
                        } else {
                            None
                        },
                        ..closed
                    }.ask(RequestView::OpenPath { path }),
                ),
            }
        },
    }
}

/// What a command leads to.
pub open spec fn run(
    f: CommandFn,
    commands: Seq<RegisteredView>,
    s: StateView,
    args: Option<Seq<ArgView>>,
    count: usize,
    depth: nat,
) -> Outcome
    decreases depth, 1nat,
{
    match f {
        CommandFn::FindCommand => done(
            s.show_picker(
                PickerView::fresh(
                    "Find Command: "@,
                    command_items(commands),
                    PickerKind::FindCommand,
                ),
            ),
        ),
        CommandFn::ExecuteCommandBuffer => run_command_line(commands, s, depth),
        CommandFn::MinibufferAccept => accept_candidate(commands, s, depth),
        _ => run_simple(f, s, args, count),
    }
}

/// The body of a command run in its category: a plain or a navigation
/// command finds no pending range.
pub open spec fn run_in_category(
    commands: Seq<RegisteredView>,
    cmd: Cmd,
    state: StateView,
    args: Option<Seq<ArgView>>,
    count: usize,
    depth: nat,
) -> Outcome
    decreases depth, 2nat,
{
    run(
        cmd.body(),
        commands,
        if cmd.drops_range() {
            state.without_range()
        } else {
            state
        },
        args,
        count,
        depth,
    )
}

/// The state after the command that manages the banner has run, if it is
/// registered. Whether it succeeds does not matter.
pub open spec fn banner_updated(
    commands: Seq<RegisteredView>,
    name: Seq<char>,
    state: StateView,
    args: Option<Seq<ArgView>>,
    depth: nat,
) -> StateView
    decreases depth, 3nat,
{
    match lookup(commands, name) {
        Some(cmd) => run_in_category(commands, cmd, state, args, 1, depth).state,
        None => state,
    }
}

/// What dispatching `name` leads to. An unknown name fails and changes
/// nothing. A known command runs in its category. After it succeeds the
/// error banner is cleared, after it fails its message is shown in the
/// banner and the failure is handed on; the two commands that manage the
/// banner are left alone.
pub open spec fn dispatch(
    commands: Seq<RegisteredView>,
    name: Seq<char>,
    state: StateView,
    args: Option<Seq<ArgView>>,
    count: usize,
    depth: nat,
) -> Dispatched
    decreases depth, 4nat,
{
    match lookup(commands, name) {
        None => Dispatched { state, result: Err(HandleErrorView::CommandNotFound(name)) },
        Some(cmd) => {
            let out = run_in_category(commands, cmd, state, args, count, depth);
            match out.result {
                Ok(_) => Dispatched {
                    state: if manages_banner(name) {
                        out.state
                    } else {
                        banner_updated(commands, clear_error_name(), out.state, None, depth)
                    },
                    result: Ok(()),
                },
                Err(e) => Dispatched {
                    state: if manages_banner(name) {
                        out.state
                    } else {
                        banner_updated(
                            commands,
                            show_error_name(),
                            out.state,
                            Some(seq![ArgView::Str(e.message())]),
                            depth,
                        )
                    },
                    result: Err(HandleErrorView::ExecutionFailed(e)),
                },
            }
        },
    }
}

impl CommandRegistry {
    pub fn new() -> (registry: CommandRegistry)
        ensures
            registry@ == Seq::<RegisteredView>::empty(),
    {
        let registry = CommandRegistry { commands: Vec::new() };
        assert(registry@ =~= Seq::<RegisteredView>::empty());
        registry
    }

    /// The place of the command `name`, or the number of commands.
    pub fn index_of(&self, name: &str) -> (i: usize)
        ensures
            i == command_index(self@, name@, 0),
            i <= self@.len(),
    {
        let wanted = String::from_str(name);
        let mut i: usize = 0;
        while i < self.commands.len()
            invariant
                i <= self.commands.len(),
                wanted@ == name@,
                command_index(self@, name@, i as int) == command_index(self@, name@, 0),
            decreases self.commands.len() - i,
        {
            assert(self@[i as int] == self.commands@[i as int]@);
            if self.commands[i].name == wanted {
                return i;
            }
            i = i + 1;
        }
        i
    }

    /// The command registered under `name`.
    pub fn get(&self, name: &str) -> (cmd: Option<Cmd>)
        ensures
            cmd == lookup(self@, name@),
    {
        let i = self.index_of(name);
        if i < self.commands.len() {
            assert(self@[i as int] == self.commands@[i as int]@);
            Some(self.commands[i].cmd)
        } else {
            None
        }
    }

    /// Puts `cmd` under `name`, in place of what was there.
    pub fn insert(&mut self, name: &str, cmd: Cmd)
        ensures
            final(self)@ == registered(old(self)@, name@, cmd),
    {
        let i = self.index_of(name);
        let entry = Registered { name: String::from_str(name), cmd };
        if i < self.commands.len() {
            self.commands[i] = entry;
            assert(self@ =~= old(self)@.update(i as int, RegisteredView { name: name@, cmd }));
        } else {
            self.commands.push(entry);
            assert(self@ =~= old(self)@.push(RegisteredView { name: name@, cmd }));
        }
    }

    pub fn register(&mut self, name: &str, cmd: CommandFn)
        ensures
            final(self)@ == registered(old(self)@, name@, Cmd::Plain(cmd)),
    {
        self.insert(name, Cmd::Plain(cmd));
    }

    pub fn register_motion(&mut self, name: &str, cmd: CommandFn)
        ensures
            final(self)@ == registered(old(self)@, name@, Cmd::Motion(cmd)),
    {
        self.insert(name, Cmd::Motion(cmd));
    }

    pub fn register_operator(&mut self, name: &str, cmd: CommandFn)
        ensures
            final(self)@ == registered(old(self)@, name@, Cmd::Operator(cmd)),
    {
        self.insert(name, Cmd::Operator(cmd));
    }

    pub fn register_navigation(&mut self, name: &str, cmd: CommandFn)
        ensures
            final(self)@ == registered(old(self)@, name@, Cmd::Navigation(cmd)),
    {
        self.insert(name, Cmd::Navigation(cmd));
    }

    pub fn register_system(&mut self, name: &str, cmd: CommandFn)
        ensures
            final(self)@ == registered(old(self)@, name@, Cmd::System(cmd)),
    {
        self.insert(name, Cmd::System(cmd));
    }

    /// The names of the commands, in the order in which they were registered.
    pub fn names(&self) -> (names: Vec<String>)
        ensures
            names.len() == self@.len(),
            forall|i: int| 0 <= i < names.len() ==> (#[trigger] names[i])@ == self@[i].name,
    {
        let mut names: Vec<String> = Vec::new();
        let mut i: usize = 0;
        while i < self.commands.len()
            invariant
                i <= self.commands.len(),
                names.len() == i,
                forall|k: int| 0 <= k < i ==> (#[trigger] names[k])@ == self@[k].name,
            decreases self.commands.len() - i,
        {
            assert(self@[i as int] == self.commands@[i as int]@);
            names.push(self.commands[i].name.clone());
            i = i + 1;
        }
        names
    }

    /// Runs the body of a command in its category.
    pub fn call_cmd(
        &self,
        cmd: Cmd,
        state: &mut EditorState,
        args: &Option<Vec<CommandArg>>,
        count: usize,
        depth: usize,
    ) -> (result: Result<(), CommandError>)
        requires
            old(state).wf(),
        ensures
            final(state).wf(),
            final(state)@ == run_in_category(
                self@,
                cmd,
                old(state)@,
                args_view(*args),
                count,
                depth as nat,
            ).state,
            result_view(result) == run_in_category(
                self@,
                cmd,
                old(state)@,
                args_view(*args),
                count,
                depth as nat,
            ).result,
        decreases depth, 2nat,
    {
        let f = match cmd {
            Cmd::Plain(f) | Cmd::Navigation(f) => {
                let ghost before = state@;
                let buf = state.focused_buf_mut();
                buf.range = None;
                proof {
                    lemma_with_focused_wf(
                        before,
                        BufferView { range: None, ..before.focused_buffer() },
                    );
                }
                f
            },
            Cmd::Motion(f) => f,
            Cmd::Operator(f) => f,
            Cmd::System(f) => f,
        };
        f.call(self, state, args, count, depth)
    }

    /// Runs the command that manages the banner, if it is registered.
    fn update_banner(
        &self,
        name: &str,
        state: &mut EditorState,
        args: &Option<Vec<CommandArg>>,
        depth: usize,
    )
        requires
            old(state).wf(),
        ensures
            final(state).wf(),
            final(state)@ == banner_updated(
                self@,
                name@,
                old(state)@,
                args_view(*args),
                depth as nat,
            ),
        decreases depth, 3nat,
    {
        match self.get(name) {
            Some(cmd) => {
                let _ = self.call_cmd(cmd, state, args, 1, depth);
            },
            None => {},
        }
    }

    /// Dispatches `name` with commands allowed to run commands `depth` deep.
    pub fn execute_at(
        &self,
        name: &str,
        state: &mut EditorState,
        args: &Option<Vec<CommandArg>>,
        count: usize,
        depth: usize,
    ) -> (result: Result<(), HandleKeyError>)
        requires
            old(state).wf(),
        ensures
            final(state).wf(),
            final(state)@ == dispatch(
                self@,
                name@,
                old(state)@,
                args_view(*args),
                count,
                depth as nat,
            ).state,
            dispatch_result_view(result) == dispatch(
                self@,
                name@,
                old(state)@,
                args_view(*args),
                count,
                depth as nat,
            ).result,
        decreases depth, 4nat,
    {
        let cmd = match self.get(name) {
            Some(cmd) => cmd,
            None => {
                return Err(HandleKeyError::CommandNotFound(String::from_str(name)));
            },
        };
        let managing = same_text(name, "clear-error-message") || same_text(name, "error-message");
        match self.call_cmd(cmd, state, args, count, depth) {
            Ok(_) => {
                if !managing {
                    self.update_banner("clear-error-message", state, &None, depth);
                }
                Ok(())
            },
            Err(e) => {
                if !managing {
                    let mut shown: Vec<CommandArg> = Vec::new();
                    shown.push(CommandArg::Str(e.message()));
                    let shown = Some(shown);
                    assert(args_view(shown) =~= Some(seq![ArgView::Str(e@.message())]));
                    self.update_banner("error-message", state, &shown, depth);
                }
                Err(HandleKeyError::ExecutionFailed(e))
            },
        }
    }

    /// Dispatches the command `name`: looks it up, runs it in its category
    /// and updates the error banner.
    pub fn execute(
        &self,
        name: &str,
        state: &mut EditorState,
        args: &Option<Vec<CommandArg>>,
        count: usize,
    ) -> (result: Result<(), HandleKeyError>)
        requires
            old(state).wf(),
        ensures
            final(state).wf(),
            final(state)@ == dispatch(
                self@,
                name@,
                old(state)@,
                args_view(*args),
                count,
                NESTING_LIMIT as nat,
            ).state,
            dispatch_result_view(result) == dispatch(
                self@,
                name@,
                old(state)@,
                args_view(*args),
                count,
                NESTING_LIMIT as nat,
            ).result,
    {
        self.execute_at(name, state, args, count, NESTING_LIMIT)
    }
}

/// Whether two texts are the same.
pub fn same_text(a: &str, b: &str) -> (same: bool)
    ensures
        same == (a@ == b@),
{
    String::from_str(a) == String::from_str(b)
}

/// The commands as candidates of a picker.
fn list_commands(registry: &CommandRegistry) -> (items: Vec<PickerItem>)
    ensures
        item_views(items@) == command_items(registry@),
{
    let names = registry.names();
    let mut items: Vec<PickerItem> = Vec::new();
    let mut i: usize = 0;
    while i < names.len()
        invariant
            i <= names.len(),
            names.len() == registry@.len(),
            forall|k: int| 0 <= k < names.len() ==> (#[trigger] names[k])@ == registry@[k].name,
            items.len() == i,
            forall|k: int| 0 <= k < i ==> (#[trigger] items[k])@ == ItemView::Command(registry@[k].name),
        decreases names.len() - i,
    {
        items.push(PickerItem::Command(names[i].clone()));
        i = i + 1;
    }
    assert(item_views(items@) =~= command_items(registry@));
    items
}

/// The arguments that the words after the first stand for.
fn parse_words(words: &Vec<String>) -> (args: Vec<CommandArg>)
    requires
        words.len() > 0,
    ensures
        arg_views(args@) == token_args(text_views(words@).drop_first()),
{
    let mut args: Vec<CommandArg> = Vec::new();
    let mut i: usize = 1;
    while i < words.len()
        invariant
            1 <= i <= words.len(),
            args.len() == i - 1,
            forall|k: int| 0 <= k < i - 1 ==> (#[trigger] args[k])@ == arg_of_token(words[k + 1]@),
        decreases words.len() - i,
    {
        args.push(CommandArg::parse_arg(words[i].as_str()));
        i = i + 1;
    }
    assert(arg_views(args@) =~= token_args(text_views(words@).drop_first()));
    args
}

impl CommandFn {
    /// Runs the command line.
    fn call_command_line(registry: &CommandRegistry, state: &mut EditorState, depth: usize) -> (result:
        Result<(), CommandError>)
        requires
            old(state).wf(),
        ensures
            final(state).wf(),
            final(state)@ == run_command_line(registry@, old(state)@, depth as nat).state,
            result_view(result) == run_command_line(registry@, old(state)@, depth as nat).result,
        decreases depth, 0nat,
    {
        let chars = chars_of(state.command_buffer.as_str());
        enter_mode(state, Mode::Normal);
        state.command_buffer = String::new();
        if chars.len() == 0 {
            return Ok(());
        }
        let words = split_whitespace(&chars);
        if words.len() == 0 {
            return Err(CommandError::Message(String::from_str("Empty command")));
        }
        if depth == 0 {
            return Err(CommandError::NestedTooDeep);
        }
        let args = Some(parse_words(&words));
        assert(text_views(words@)[0] == words@[0]@);
        match registry.execute_at(words[0].as_str(), state, &args, 1, depth - 1) {
            Ok(_) => Ok(()),
            Err(e) => Err(CommandError::Message(e.message())),
        }
    }

    /// Accepts the candidate of the picker that is in focus.
    fn call_accept(registry: &CommandRegistry, state: &mut EditorState, depth: usize) -> (result:
        Result<(), CommandError>)
        requires
            old(state).wf(),
        ensures
            final(state).wf(),
            final(state)@ == accept_candidate(registry@, old(state)@, depth as nat).state,
            result_view(result) == accept_candidate(registry@, old(state)@, depth as nat).result,
        decreases depth, 0nat,
    {
        enter_mode(state, Mode::Normal);
        let mut taken: Option<MiniBuffer> = None;
        std::mem::swap(&mut state.minibuffer_manager.current, &mut taken);
        let mini = match taken {
            Some(mini) => mini,
            None => {
                return Ok(());
            },
        };
        match mini.focused() {
            None => Ok(()),
            Some(PickerItem::Command(name)) => {
                if depth == 0 {
                    return Err(CommandError::NestedTooDeep);
                }
                let _ = registry.execute_at(name.as_str(), state, &None, 1, depth - 1);
                Ok(())
            },
            Some(PickerItem::Buffer { id, name: _ }) => {
                state.focus(id);
                Ok(())
            },
            Some(PickerItem::Project { project, name: _ }) => {
                state.switch_to_project(project);
                Ok(())
            },
            Some(PickerItem::Path(path)) => {
                if mini.state.kind == PickerKind::OpenFile {
                    state.minibuffer_manager.current = Some(mini);
                }
                state.ask(Request::OpenPath { path });
                Ok(())
            },
        }
    }

    /// Runs the body of the command on `state`. Commands that it runs by
    /// name are looked up in `registry` and may nest `depth` deep.
    pub fn call(
        self,
        registry: &CommandRegistry,
        state: &mut EditorState,
        args: &Option<Vec<CommandArg>>,
        count: usize,
        depth: usize,
    ) -> (result: Result<(), CommandError>)
        requires
            old(state).wf(),
        ensures
            final(state).wf(),
            final(state)@ == run(self, registry@, old(state)@, args_view(*args), count, depth as nat).state,
            result_view(result) == run(
                self,
                registry@,
                old(state)@,
                args_view(*args),
                count,
                depth as nat,
            ).result,
        decreases depth, 1nat,
    {
        match self {
            CommandFn::FindCommand => {
                let items = list_commands(registry);
                state.show_picker("Find Command: ", items, PickerKind::FindCommand);
                Ok(())
            },
            CommandFn::ExecuteCommandBuffer => CommandFn::call_command_line(registry, state, depth),
            CommandFn::MinibufferAccept => CommandFn::call_accept(registry, state, depth),
            _ => self.call_simple(state, args, count),
        }
    }
}

/// A message takes the place of an error. Where `echo` is the plain command
/// that shows its argument, and the command that clears the banner is the
/// one registered for it, dispatching `echo` with a text succeeds, shows the
/// text and leaves no error, whatever was shown before.
pub proof fn lemma_echo_replaces_error(
    commands: Seq<RegisteredView>,
    state: StateView,
    text: Seq<char>,
    count: usize,
    depth: nat,
)
    requires
        lookup(commands, "echo"@) == Some(Cmd::Plain(CommandFn::Echo)),
        lookup(commands, clear_error_name()) == Some(Cmd::System(CommandFn::ClearErrorMessage)),
    ensures
        dispatch(commands, "echo"@, state, Some(seq![ArgView::Str(text)]), count, depth).result
            == Ok::<(), HandleErrorView>(()),
        dispatch(commands, "echo"@, state, Some(seq![ArgView::Str(text)]), count, depth).state.message
            == Some(text),
        dispatch(
            commands,
            "echo"@,
            state,
            Some(seq![ArgView::Str(text)]),
            count,
            depth,
        ).state.error_message is None,
{
    reveal_with_fuel(run_in_category, 2);
    reveal_with_fuel(run, 2);
    reveal_strlit("echo");
    reveal_strlit("clear-error-message");
    reveal_strlit("error-message");
    let args = Some(seq![ArgView::Str(text)]);
    assert(str_arg(args, 0) == Ok::<Seq<char>, ErrorView>(text));
    assert(!manages_banner("echo"@)) by {
        assert("echo"@.len() == 4);
        assert("clear-error-message"@.len() == 19);
        assert("error-message"@.len() == 13);
    }
}

/// An error takes the place of a message. Where a command fails, and the
/// command that shows errors is the one registered for it, the dispatch
/// shows the words of the failure as the error, leaves no message, and hands
/// the failure on.
pub proof fn lemma_failure_replaces_message(
    commands: Seq<RegisteredView>,
    name: Seq<char>,
    state: StateView,
    args: Option<Seq<ArgView>>,
    count: usize,
    depth: nat,
)
    requires
        lookup(commands, name) is Some,
        !manages_banner(name),
        run_in_category(commands, lookup(commands, name).unwrap(), state, args, count, depth).result
            is Err,
        lookup(commands, show_error_name()) == Some(Cmd::Plain(CommandFn::ErrorMessage)),
    ensures
        ({
            let failure = run_in_category(
                commands,
                lookup(commands, name).unwrap(),
                state,
                args,
                count,
                depth,
            ).result.unwrap_err();
            let d = dispatch(commands, name, state, args, count, depth);
            &&& d.result == Err::<(), HandleErrorView>(HandleErrorView::ExecutionFailed(failure))
            &&& d.state.error_message == Some(failure.message())
            &&& d.state.message is None
        }),
{
    reveal_with_fuel(run_in_category, 2);
    reveal_with_fuel(run, 2);
    let failure = run_in_category(
        commands,
        lookup(commands, name).unwrap(),
        state,
        args,
        count,
        depth,
    ).result.unwrap_err();
    let shown = Some(seq![ArgView::Str(failure.message())]);
    assert(str_arg(shown, 0) == Ok::<Seq<char>, ErrorView>(failure.message()));
}

} // verus!
