//! The state of an editor: its buffers and projects, the picker, the
//! messages, and the work it hands to the application.

use crate::buffer::{path_view, Buffer, BufferId, BufferView, Mode};
use crate::buffer_manager::{
    buffer_index, lemma_buffer_index, lemma_buffer_index_prefix, lemma_kill_keeps_others,
    lemma_put_keeps_wf, BufferManager, BuffersView,
};
use crate::command::{CommandError, ErrorView};
use crate::mini_buffer::{
    item_views, MiniBuffer, MiniBufferManager, PickerItem, PickerKind, PickerView,
};
use crate::parse::{decimal_text, push_decimal};
use crate::project::project_manager::{project_index, ProjectManager, ProjectsView, DEFAULT_PROJECT};
use crate::project::ProjectId;
use vstd::prelude::*;

verus! {

/// Work that only the application can do. The state asks for it, the
/// application does it and reports what came of it.
#[derive(Debug, Clone)]
pub enum Request {
    /// List a directory and offer its entries for opening.
    ListDirectory { path: String },
    /// Collect the files below a directory and offer them for opening.
    WalkFiles { root: String },
    /// Open what a path names: enter a directory, read a file.
    OpenPath { path: String },
    /// Write the text of a buffer to its file.
    SaveBuffer { id: BufferId, path: String, text: String },
}

/// What a [`Request`] stands for.
#[verifier::ext_equal]
pub enum RequestView {
    ListDirectory { path: Seq<char> },
    WalkFiles { root: Seq<char> },
    OpenPath { path: Seq<char> },
    SaveBuffer { id: BufferId, path: Seq<char>, text: Seq<char> },
}

impl View for Request {
    type V = RequestView;

    open spec fn view(&self) -> RequestView {
        match self {
            Request::ListDirectory { path } => RequestView::ListDirectory { path: path@ },
            Request::WalkFiles { root } => RequestView::WalkFiles { root: root@ },
            Request::OpenPath { path } => RequestView::OpenPath { path: path@ },
            Request::SaveBuffer { id, path, text } => RequestView::SaveBuffer {
                id: *id,
                path: path@,
                text: text@,
            },
        }
    }
}

/// The state of an editor.
#[derive(Debug, Clone)]
pub struct EditorState {
    pub focused_buf_id: BufferId,
    pub project_manager: ProjectManager,
    pub buffer_manager: BufferManager,
    pub minibuffer_manager: MiniBufferManager,
    pub screen_height: usize,
    pub screen_width: usize,
    pub command_buffer: String,
    pub message: Option<String>,
    pub error_message: Option<String>,
    pub prefix_arg: Option<usize>,
    pub requests: Vec<Request>,
}

/// What an [`EditorState`] stands for.
#[verifier::ext_equal]
pub struct StateView {
    pub focused: BufferId,
    pub projects: ProjectsView,
    pub buffers: BuffersView,
    pub picker: Option<PickerView>,
    pub screen_height: usize,
    pub screen_width: usize,
    pub command_line: Seq<char>,
    pub message: Option<Seq<char>>,
    pub error_message: Option<Seq<char>>,
    pub prefix_arg: Option<usize>,
    pub requests: Seq<RequestView>,
}

/// The name of the buffer that is made where none is left.
pub open spec fn no_name() -> Seq<char> {
    "[No Name]"@
}

/// The name of a mode as the status line shows it.
pub open spec fn mode_name(mode: Mode) -> Seq<char> {
    match mode {
        Mode::Normal => "NORMAL"@,
        Mode::Insert => "INSERT"@,
        Mode::Visual => "VISUAL"@,
        Mode::Command => "COMMAND"@,
        Mode::Minibuffer => "MINIBUFFER"@,
    }
}

impl StateView {
    /// The buffers and the projects are well formed, the default project
    /// exists, and the focused buffer is one of the buffers.
    pub open spec fn wf(self) -> bool {
        &&& self.buffers.wf()
        &&& self.projects.wf()
        &&& project_index(self.projects.projects, ProjectId(DEFAULT_PROJECT), 0)
            < self.projects.projects.len()
        &&& self.buffers.has(self.focused)
    }

    /// The buffer that has the focus.
    pub open spec fn focused_buffer(self) -> BufferView {
        self.buffers.get(self.focused)
    }

    /// The state with `buffer` in the place of the focused buffer.
    pub open spec fn with_focused(self, buffer: BufferView) -> StateView {
        StateView {
            buffers: BuffersView {
                buffers: self.buffers.buffers.update(
                    buffer_index(self.buffers.buffers, self.focused, 0),
                    buffer,
                ),
                ..self.buffers
            },
            ..self
        }
    }

    /// The state as it is made: one empty buffer without a name, in the
    /// default project and in focus.
    pub open spec fn fresh() -> StateView {
        StateView {
            focused: BufferId(1),
            projects: ProjectsView::fresh().add_buffer_to_current(BufferId(1)),
            buffers: (BuffersView { buffers: Seq::empty(), next_id: 1 }).create(
                no_name(),
                Seq::empty(),
                None,
            ),
            picker: None,
            screen_height: 0,
            screen_width: 0,
            command_line: Seq::empty(),
            message: None,
            error_message: None,
            prefix_arg: None,
            requests: Seq::empty(),
        }
    }

    /// The words of the status line: the mode and the number of the focused
    /// buffer.
    pub open spec fn status_line(self) -> Seq<char> {
        mode_name(self.focused_buffer().mode) + " "@ + decimal_text(self.focused.0 as nat)
    }

    /// `text` shown as information; an error that is shown goes.
    pub open spec fn echo(self, text: Seq<char>) -> StateView {
        StateView { message: Some(text), error_message: None, ..self }
    }

    /// `text` shown as an error; information that is shown goes.
    pub open spec fn show_error(self, text: Seq<char>) -> StateView {
        StateView { message: None, error_message: Some(text), ..self }
    }

    /// No error shown.
    pub open spec fn clear_error(self) -> StateView {
        StateView { error_message: None, ..self }
    }

    /// A new buffer, added to the current project. Nothing happens where no
    /// identity is left for it.
    pub open spec fn create_buffer(
        self,
        name: Seq<char>,
        text: Seq<char>,
        file_path: Option<Seq<char>>,
    ) -> StateView {
        if self.buffers.next_id < u64::MAX {
            StateView {
                buffers: self.buffers.create(name, text, file_path),
                projects: self.projects.add_buffer_to_current(BufferId(self.buffers.next_id)),
                ..self
            }
        } else {
            self
        }
    }

    /// The identity that a new buffer gets, if one is left.
    pub open spec fn next_buffer_id(self) -> Option<BufferId> {
        if self.buffers.next_id < u64::MAX {
            Some(BufferId(self.buffers.next_id))
        } else {
            None
        }
    }

    /// The focus put on a buffer of the current project: its first buffer
    /// that exists, or else a new empty buffer. Where neither can be had the
    /// focus stays.
    pub open spec fn refocused(self) -> StateView {
        let buffers = self.projects.current_project().buffers;
        if buffers.len() > 0 && self.buffers.has(buffers[0]) {
            StateView { focused: buffers[0], ..self }
        } else if self.buffers.next_id < u64::MAX {
            StateView {
                focused: BufferId(self.buffers.next_id),
                ..self.create_buffer(no_name(), Seq::empty(), None)
            }
        } else {
            self
        }
    }

    /// The project `id` made current, and the focus put on one of its
    /// buffers. Without such a project nothing happens.
    pub open spec fn switch_to_project(self, id: ProjectId) -> StateView {
        if project_index(self.projects.projects, id, 0) < self.projects.projects.len() {
            StateView { projects: self.projects.switch_by_id(id), ..self }.refocused()
        } else {
            self
        }
    }

    /// A picker shown, and the focused buffer in the mode of the picker.
    pub open spec fn show_picker(self, picker: PickerView) -> StateView {
        StateView { picker: Some(picker), ..self }.with_focused(
            self.focused_buffer().set_mode(Mode::Minibuffer),
        )
    }

    /// One more request to the application.
    pub open spec fn ask(self, request: RequestView) -> StateView {
        StateView { requests: self.requests.push(request), ..self }
    }
}

impl View for EditorState {
    type V = StateView;

    open(crate) spec fn view(&self) -> StateView {
        StateView {
            focused: self.focused_buf_id,
            projects: self.project_manager@,
            buffers: self.buffer_manager@,
            picker: self.minibuffer_manager@,
            screen_height: self.screen_height,
            screen_width: self.screen_width,
            command_line: self.command_buffer@,
            message: path_view(self.message),
            error_message: path_view(self.error_message),
            prefix_arg: self.prefix_arg,
            requests: self.requests@.map_values(|r: Request| r@),
        }
    }
}

/// Replacing the focused buffer by one of the same identity and with a
/// history that is a tree keeps the state well formed.
pub proof fn lemma_with_focused_wf(s: StateView, buffer: BufferView)
    requires
        s.wf(),
        buffer.id == s.focused,
        buffer.history.wf(),
    ensures
        s.with_focused(buffer).wf(),
        s.with_focused(buffer).focused_buffer() == buffer,
        s.with_focused(buffer).buffers == s.buffers.put(buffer),
{
    lemma_put_keeps_wf(s.buffers, buffer, s.focused);
}

/// Putting the focused buffer in its own place changes nothing.
pub proof fn lemma_with_focused_same(s: StateView)
    requires
        s.wf(),
    ensures
        s.with_focused(s.focused_buffer()) == s,
{
    lemma_buffer_index(s.buffers.buffers, s.focused, 0);
    let i = buffer_index(s.buffers.buffers, s.focused, 0);
    assert(s.buffers.buffers.update(i, s.buffers.buffers[i]) =~= s.buffers.buffers);
    assert(s.with_focused(s.focused_buffer()).buffers =~= s.buffers);
}

impl EditorState {
    pub open(crate) spec fn wf(&self) -> bool {
        self@.wf()
    }

    /// A state with one empty buffer.
    pub fn new() -> (state: EditorState)
        ensures
            state.wf(),
            state@ == StateView::fresh(),
    {
        let mut buffer_manager = BufferManager::new();
        let mut project_manager = ProjectManager::new();
        let first = buffer_manager.create_empty_buffer("[No Name]");
        project_manager.add_buffer_to_current(first);
        let state = EditorState {
            focused_buf_id: first,
            project_manager,
            buffer_manager,
            minibuffer_manager: MiniBufferManager::new(),
            screen_height: 0,
            screen_width: 0,
            command_buffer: String::new(),
            message: None,
            error_message: None,
            prefix_arg: None,
            requests: Vec::new(),
        };
        proof {
            assert(state@.requests =~= Seq::<RequestView>::empty());
            assert(state@.buffers.buffers[0].id == BufferId(1));
        }
        state
    }

    /// The root of the current project.
    pub fn cwd(&self) -> (root: Option<&String>)
        requires
            self.wf(),
        ensures
            path_view(match root {
                Some(r) => Some(*r),
                None => None,
            }) == self@.projects.current_project().root,
    {
        self.project_manager.current().root.as_ref()
    }

    pub fn focused_buf(&self) -> (buf: &Buffer)
        requires
            self.wf(),
        ensures
            buf@ == self@.focused_buffer(),
            buf.wf(),
            buf@.id == self@.focused,
    {
        let i = self.buffer_manager.index_of(self.focused_buf_id);
        assert(self@.buffers.buffers[i as int] == self.buffer_manager.buffers@[i as int]@);
        &self.buffer_manager.buffers[i]
    }

    pub fn focused_buf_mut(&mut self) -> (buf: &mut Buffer)
        requires
            old(self).wf(),
        ensures
            buf@ == old(self)@.focused_buffer(),
            buf.wf(),
            buf@.id == old(self)@.focused,
            final(self)@ == old(self)@.with_focused(final(buf)@),
    {
        let i = self.buffer_manager.index_of(self.focused_buf_id);
        assert(self@.buffers.buffers[i as int] == self.buffer_manager.buffers@[i as int]@);
        &mut self.buffer_manager.buffers[i]
    }

    /// The words of the status line.
    pub fn status_line(&self) -> (line: String)
        requires
            self.wf(),
        ensures
            line@ == self@.status_line(),
    {
        let buf = self.focused_buf();
        let mut line = String::from_str(
            match buf.mode {
                Mode::Normal => "NORMAL",
                Mode::Insert => "INSERT",
                Mode::Visual => "VISUAL",
                Mode::Command => "COMMAND",
                Mode::Minibuffer => "MINIBUFFER",
            },
        );
        line.append(" ");
        push_decimal(&mut line, self.focused_buf_id.0);
        line
    }

    /// Shows `text` as information.
    pub fn echo(&mut self, text: String)
        ensures
            final(self)@ == old(self)@.echo(text@),
    {
        self.message = Some(text);
        self.error_message = None;
    }

    /// Shows `text` as an error.
    pub fn show_error(&mut self, text: String)
        ensures
            final(self)@ == old(self)@.show_error(text@),
    {
        self.message = None;
        self.error_message = Some(text);
    }

    /// Takes the error away.
    pub fn clear_error(&mut self)
        ensures
            final(self)@ == old(self)@.clear_error(),
    {
        self.error_message = None;
    }

    pub fn clear_prefix(&mut self)
        ensures
            final(self)@ == (StateView { prefix_arg: None, ..old(self)@ }),
    {
        self.prefix_arg = None;
    }

    /// Asks the application for work.
    pub fn ask(&mut self, request: Request)
        ensures
            final(self)@ == old(self)@.ask(request@),
    {
        self.requests.push(request);
        assert(self@.requests =~= old(self)@.requests.push(request@));
    }

    /// Hands out the requests made so far and forgets them.
    pub fn take_requests(&mut self) -> (requests: Vec<Request>)
        ensures
            final(self)@ == (StateView { requests: Seq::empty(), ..old(self)@ }),
            requests@.map_values(|r: Request| r@) == old(self)@.requests,
    {
        let mut requests: Vec<Request> = Vec::new();
        std::mem::swap(&mut self.requests, &mut requests);
        assert(self@.requests =~= Seq::<RequestView>::empty());
        requests
    }

    /// Makes a buffer with a text and adds it to the current project.
    pub fn create_buffer(&mut self, name: &str, text: &str, file_path: Option<String>) -> (id:
        Option<BufferId>)
        requires
            old(self).wf(),
        ensures
            final(self).wf(),
            final(self)@ == old(self)@.create_buffer(name@, text@, path_view(file_path)),
            id == old(self)@.next_buffer_id(),
            id is Some ==> final(self)@.buffers.has(id->0),
    {
        if !self.buffer_manager.has_free_id() {
            return None;
        }
        let id = self.buffer_manager.create_buffer_from(name, text, file_path);
        self.project_manager.add_buffer_to_current(id);
        proof {
            let before = old(self)@.buffers;
            let after = self@.buffers;
            lemma_buffer_index(before.buffers, old(self)@.focused, 0);
            assert forall|i: int| 0 <= i < before.buffers.len() implies (#[trigger] before.buffers[i]).id
                == after.buffers[i].id by {}
            lemma_buffer_index_prefix(before.buffers, after.buffers, old(self)@.focused, 0);
            crate::buffer_manager::lemma_buffer_found(
                after.buffers,
                id,
                0,
                before.buffers.len() as int,
            );
        }
        Some(id)
    }

    pub fn create_empty_buffer(&mut self, name: &str) -> (id: Option<BufferId>)
        requires
            old(self).wf(),
        ensures
            final(self).wf(),
            final(self)@ == old(self)@.create_buffer(name@, Seq::empty(), None),
            id == old(self)@.next_buffer_id(),
            id is Some ==> final(self)@.buffers.has(id->0),
    {
        proof {
            reveal_strlit("");
            assert(""@ =~= Seq::<char>::empty());
        }
        self.create_buffer(name, "", None)
    }

    pub fn create_buffer_from_text(&mut self, name: &str, text: &str) -> (id: Option<BufferId>)
        requires
            old(self).wf(),
        ensures
            final(self).wf(),
            final(self)@ == old(self)@.create_buffer(name@, text@, None),
            id == old(self)@.next_buffer_id(),
            id is Some ==> final(self)@.buffers.has(id->0),
    {
        self.create_buffer(name, text, None)
    }

    /// Makes a buffer for a file that was read: the buffer gets the name and
    /// the contents of the file and remembers its path.
    pub fn open_file(&mut self, name: &str, contents: &str, path: &str) -> (id: Option<BufferId>)
        requires
            old(self).wf(),
        ensures
            final(self).wf(),
            final(self)@ == old(self)@.create_buffer(name@, contents@, Some(path@)),
            id == old(self)@.next_buffer_id(),
            id is Some ==> final(self)@.buffers.has(id->0),
    {
        self.create_buffer(name, contents, Some(String::from_str(path)))
    }

    /// Puts the focus on a buffer of the current project.
    fn refocus(&mut self)
        requires
            old(self)@.buffers.wf(),
            old(self)@.projects.wf(),
            project_index(old(self)@.projects.projects, ProjectId(DEFAULT_PROJECT), 0) < old(
                self,
            )@.projects.projects.len(),
            old(self).wf() || old(self)@.buffers.next_id < u64::MAX,
        ensures
            final(self).wf(),
            final(self)@ == old(self)@.refocused(),
    {
        let first = {
            let project = self.project_manager.current();
            if project.buffers.len() > 0 {
                Some(project.buffers[0])
            } else {
                None
            }
        };
        match first {
            Some(id) => {
                if self.buffer_manager.index_of(id) < self.buffer_manager.buffers_len() {
                    self.focused_buf_id = id;
                    return ;
                }
            },
            None => {},
        }
        if !self.buffer_manager.has_free_id() {
            return ;
        }
        proof {
            reveal_strlit("");
            assert(""@ =~= Seq::<char>::empty());
        }
        let id = self.buffer_manager.create_buffer_from("[No Name]", "", None);
        self.project_manager.add_buffer_to_current(id);
        self.focused_buf_id = id;
        proof {
            crate::buffer_manager::lemma_buffer_found(
                self@.buffers.buffers,
                id,
                0,
                old(self)@.buffers.buffers.len() as int,
            );
        }
    }

    /// Makes the project `id` current and puts the focus on one of its
    /// buffers.
    pub fn switch_to_project(&mut self, id: ProjectId)
        requires
            old(self).wf(),
        ensures
            final(self).wf(),
            final(self)@ == old(self)@.switch_to_project(id),
    {
        let found = self.project_manager.switch_by_id(id).is_some();
        if found {
            self.refocus();
        }
    }

    pub fn switch_project(&mut self, project_id: ProjectId)
        requires
            old(self).wf(),
        ensures
            final(self).wf(),
            final(self)@ == old(self)@.switch_to_project(project_id),
    {
        self.switch_to_project(project_id)
    }

    pub fn switch_to_next_project(&mut self)
        requires
            old(self).wf(),
        ensures
            final(self).wf(),
            final(self)@ == old(self)@.switch_to_project(old(self)@.projects.next_project_id()),
    {
        let next_id = self.project_manager.next_project_id();
        self.switch_to_project(next_id);
    }

    pub fn switch_to_previous_project(&mut self)
        requires
            old(self).wf(),
        ensures
            final(self).wf(),
            final(self)@ == old(self)@.switch_to_project(old(self)@.projects.previous_project_id()),
    {
        let prev_id = self.project_manager.previous_project_id();
        self.switch_to_project(prev_id);
    }

    /// Shows a picker and puts the focused buffer in the mode of the picker.
    pub fn show_picker(&mut self, prompt: &str, items: Vec<PickerItem>, kind: PickerKind)
        requires
            old(self).wf(),
        ensures
            final(self).wf(),
            final(self)@ == old(self)@.show_picker(
                PickerView::fresh(prompt@, item_views(items@), kind),
            ),
    {
        self.minibuffer_manager.activate(MiniBuffer::new(prompt, items, kind));
        let ghost mid = self@;
        let buf = self.focused_buf_mut();
        buf.set_mode(Mode::Minibuffer);
        proof {
            lemma_with_focused_wf(mid, old(self)@.focused_buffer().set_mode(Mode::Minibuffer));
        }
    }
}

/// A state and whether the command that led to it succeeded.
#[verifier::ext_equal]
pub struct Outcome {
    pub state: StateView,
    pub result: Result<(), ErrorView>,
}

/// The buffers without those named in `ids`.
pub open spec fn kill_all(buffers: BuffersView, ids: Seq<BufferId>) -> BuffersView
    decreases ids.len(),
{
    if ids.len() == 0 {
        buffers
    } else {
        kill_all(buffers, ids.drop_last()).kill(ids.last())
    }
}

/// The place of `id` in `ids`, or their number.
pub open spec fn id_index(ids: Seq<BufferId>, id: BufferId, from: int) -> int
    decreases ids.len() - from,
{
    if from < 0 || from >= ids.len() {
        ids.len() as int
    } else if ids[from] == id {
        from
    } else {
        id_index(ids, id, from + 1)
    }
}

impl StateView {
    /// Why the focused buffer cannot be killed while it is modified.
    pub open spec fn modified_error(self) -> ErrorView {
        ErrorView::Message(
            "Cannot kill modified buffer '"@ + self.focused_buffer().name + "'. Save it first."@,
        )
    }

    /// The focused buffer killed, and the focus on the last buffer that its
    /// project has left, or on a new empty buffer. A modified buffer is not
    /// killed, and without a buffer in the current project nothing happens.
    pub open spec fn kill_active_buffer(self) -> Outcome {
        let project = self.projects.current_project();
        let remaining = project.buffers.filter(crate::project::project_manager::other_than(self.focused));
        if project.buffers.len() == 0 {
            Outcome { state: self, result: Ok(()) }
        } else if self.focused_buffer().modified {
            Outcome { state: self, result: Err(self.modified_error()) }
        } else if remaining.len() > 0 && remaining.last() != self.focused && self.buffers.has(
            remaining.last(),
        ) {
            Outcome {
                state: StateView {
                    projects: self.projects.remove_buffer_from_current(self.focused),
                    buffers: self.buffers.kill(self.focused),
                    focused: remaining.last(),
                    ..self
                },
                result: Ok(()),
            }
        } else if self.buffers.next_id < u64::MAX {
            Outcome {
                state: StateView {
                    focused: BufferId(self.buffers.next_id),
                    ..StateView {
                        projects: self.projects.remove_buffer_from_current(self.focused),
                        buffers: self.buffers.kill(self.focused),
                        ..self
                    }.create_buffer(no_name(), Seq::empty(), None)
                },
                result: Ok(()),
            }
        } else {
            Outcome { state: self, result: Err(ErrorView::Message("No buffer left to show"@)) }
        }
    }

    /// The current project closed and its buffers killed, and the focus on a
    /// buffer of the default project. The default project is never closed.
    pub open spec fn close_current_project(self) -> Outcome {
        let id = self.projects.current;
        if id == ProjectId(DEFAULT_PROJECT) {
            Outcome {
                state: self,
                result: Err(ErrorView::Message("Cannot close the default project"@)),
            }
        } else if self.buffers.next_id == u64::MAX {
            Outcome { state: self, result: Err(ErrorView::Message("No buffer left to show"@)) }
        } else {
            Outcome {
                state: StateView {
                    projects: self.projects.without(id),
                    buffers: kill_all(self.buffers, self.projects.current_project().buffers),
                    ..self
                }.refocused(),
                result: Ok(()),
            }
        }
    }

    /// The focus on the buffer `id`, if there is one.
    pub open spec fn focus(self, id: BufferId) -> StateView {
        if self.buffers.has(id) {
            StateView { focused: id, ..self }
        } else {
            self
        }
    }

    /// The focus on the buffer that comes `forward` or backward from the
    /// focused one among the buffers of the current project, in a circle; on
    /// the first of them where the focused buffer is none of them.
    pub open spec fn cycle_buffer(self, forward: bool) -> StateView {
        let ids = self.projects.current_project().buffers;
        let pos = id_index(ids, self.focused, 0);
        if ids.len() == 0 {
            self
        } else if pos >= ids.len() {
            self.focus(ids[0])
        } else if forward {
            self.focus(ids[(pos + 1) % (ids.len() as int)])
        } else {
            self.focus(ids[(pos + ids.len() - 1) % (ids.len() as int)])
        }
    }
}

impl EditorState {
    /// Puts the focus on the buffer `id`, if there is one.
    pub fn focus(&mut self, id: BufferId)
        requires
            old(self).wf(),
        ensures
            final(self).wf(),
            final(self)@ == old(self)@.focus(id),
    {
        if self.buffer_manager.index_of(id) < self.buffer_manager.buffers_len() {
            self.focused_buf_id = id;
        }
    }

    /// Puts the focus on the next or the previous buffer of the current
    /// project.
    pub fn cycle_buffer(&mut self, forward: bool)
        requires
            old(self).wf(),
        ensures
            final(self).wf(),
            final(self)@ == old(self)@.cycle_buffer(forward),
    {
        let target = {
            let project = self.project_manager.current();
            let ids = &project.buffers;
            let len = ids.len();
            if len == 0 {
                return ;
            }
            let mut pos: usize = 0;
            while pos < len && ids[pos] != self.focused_buf_id
                invariant
                    pos <= len,
                    len == ids@.len(),
                    id_index(ids@, self.focused_buf_id, pos as int) == id_index(
                        ids@,
                        self.focused_buf_id,
                        0,
                    ),
                decreases len - pos,
            {
                pos = pos + 1;
            }
            if pos >= len {
                ids[0]
            } else if forward {
                let next = if pos + 1 == len {
                    0
                } else {
                    pos + 1
                };
                assert(next == (pos + 1) % (len as int)) by (nonlinear_arith)
                    requires
                        0 <= pos < len,
                        next == if pos + 1 == len {
                            0
                        } else {
                            pos + 1
                        },
                ;
                ids[next]
            } else {
                let prev = if pos == 0 {
                    len - 1
                } else {
                    pos - 1
                };
                assert(prev == (pos + len - 1) % (len as int)) by (nonlinear_arith)
                    requires
                        0 <= pos < len,
                        prev == if pos == 0 {
                            len - 1
                        } else {
                            pos - 1
                        },
                ;
                ids[prev]
            }
        };
        self.focus(target);
    }

    /// Kills the focused buffer, unless it is modified.
    pub fn kill_active_buffer(&mut self) -> (result: Result<(), CommandError>)
        requires
            old(self).wf(),
        ensures
            final(self).wf(),
            final(self)@ == old(self)@.kill_active_buffer().state,
            crate::command::result_view(result) == old(self)@.kill_active_buffer().result,
    {
        let id = self.focused_buf_id;
        let last = {
            let project = self.project_manager.current();
            if project.buffers.len() == 0 {
                return Ok(());
            }
            let buf = self.focused_buf();
            if buf.is_modified() {
                let mut text = String::from_str("Cannot kill modified buffer '");
                text.append(buf.name.as_str());
                text.append("'. Save it first.");
                return Err(CommandError::Message(text));
            }
            // The last buffer of the project that is not the one to go.
            let ghost all = project.buffers@;
            let ghost keep = crate::project::project_manager::other_than(id);
            let mut last: Option<BufferId> = None;
            let mut k: usize = 0;
            assert(all.take(0) =~= Seq::<BufferId>::empty());
            while k < project.buffers.len()
                invariant
                    k <= all.len(),
                    all == project.buffers@,
                    keep == crate::project::project_manager::other_than(id),
                    match last {
                        Some(b) => all.take(k as int).filter(keep).len() > 0 && all.take(
                            k as int,
                        ).filter(keep).last() == b && b != id,
                        None => all.take(k as int).filter(keep).len() == 0,
                    },
                decreases all.len() - k,
            {
                let b = project.buffers[k];
                proof {
                    assert(all.take(k + 1) =~= all.take(k as int).push(all[k as int]));
                    crate::mini_buffer::lemma_filter_push(all.take(k as int), all[k as int], keep);
                }
                if b != id {
                    last = Some(b);
                }
                k = k + 1;
            }
            assert(all.take(all.len() as int) =~= all);
            last
        };
        let reuse = match last {
            Some(b) => self.buffer_manager.index_of(b) < self.buffer_manager.buffers_len(),
            None => false,
        };
        if !reuse && !self.buffer_manager.has_free_id() {
            return Err(CommandError::Message(String::from_str("No buffer left to show")));
        }
        self.project_manager.remove_buffer_from_current(id);
        self.buffer_manager.kill_buffer(id);
        if reuse {
            let b = last.unwrap();
            proof {
                lemma_kill_keeps_others(old(self)@.buffers, id, b);
            }
            self.focused_buf_id = b;
        } else {
            proof {
                reveal_strlit("");
                assert(""@ =~= Seq::<char>::empty());
            }
            let new_buf = self.buffer_manager.create_buffer_from("[No Name]", "", None);
            self.project_manager.add_buffer_to_current(new_buf);
            self.focused_buf_id = new_buf;
            proof {
                crate::buffer_manager::lemma_buffer_found(
                    self@.buffers.buffers,
                    new_buf,
                    0,
                    old(self)@.buffers.kill(id).buffers.len() as int,
                );
            }
        }
        Ok(())
    }

    /// Closes the current project and kills its buffers.
    pub fn close_current_project(&mut self) -> (result: Result<(), CommandError>)
        requires
            old(self).wf(),
        ensures
            final(self).wf(),
            final(self)@ == old(self)@.close_current_project().state,
            crate::command::result_view(result) == old(self)@.close_current_project().result,
    {
        let id = self.project_manager.current_id();
        if id.0 == DEFAULT_PROJECT {
            return Err(CommandError::Message(String::from_str("Cannot close the default project")));
        }
        if !self.buffer_manager.has_free_id() {
            return Err(CommandError::Message(String::from_str("No buffer left to show")));
        }
        match self.project_manager.close_project(id) {
            Ok(killed) => {
                let mut k: usize = 0;
                assert(killed@.take(0) =~= Seq::<BufferId>::empty());
                while k < killed.len()
                    invariant
                        k <= killed.len(),
                        self.buffer_manager.wf(),
                        self@.buffers == kill_all(old(self)@.buffers, killed@.take(k as int)),
                        self@ == (StateView { buffers: self@.buffers, ..(StateView {
                            projects: old(self)@.projects.without(id),
                            ..old(self)@
                        }) }),
                        self.project_manager.wf(),
                    decreases killed.len() - k,
                {
                    proof {
                        assert(killed@.take(k + 1).drop_last() =~= killed@.take(k as int));
                    }
                    self.buffer_manager.kill_buffer(killed[k]);
                    k = k + 1;
                }
                assert(killed@.take(killed.len() as int) =~= killed@);
                proof {
                    lemma_kill_all_keeps_next_id(old(self)@.buffers, killed@);
                }
                self.refocus();
                Ok(())
            },
            Err(_) => {
                proof {
                    crate::project::project_manager::lemma_project_index(
                        old(self)@.projects.projects,
                        id,
                        0,
                    );
                }
                Ok(())
            },
        }
    }
}

/// Killing buffers gives out no identity.
pub proof fn lemma_kill_all_keeps_next_id(buffers: BuffersView, ids: Seq<BufferId>)
    ensures
        kill_all(buffers, ids).next_id == buffers.next_id,
    decreases ids.len(),
{
    if ids.len() > 0 {
        lemma_kill_all_keeps_next_id(buffers, ids.drop_last());
    }
}

/// A tab of the buffer line: a buffer with its name, whether it has the
/// focus, and whether it is modified.
#[derive(Debug, Clone)]
pub struct Tab {
    pub id: BufferId,
    pub name: String,
    pub active: bool,
    pub modified: bool,
}

/// What a [`Tab`] stands for.
#[verifier::ext_equal]
pub struct TabView {
    pub id: BufferId,
    pub name: Seq<char>,
    pub active: bool,
    pub modified: bool,
}

impl View for Tab {
    type V = TabView;

    open spec fn view(&self) -> TabView {
        TabView { id: self.id, name: self.name@, active: self.active, modified: self.modified }
    }
}

impl StateView {
    /// The tabs of the buffers named in `ids`, as far as they exist.
    pub open spec fn tabs(self, ids: Seq<BufferId>) -> Seq<TabView>
        decreases ids.len(),
    {
        if ids.len() == 0 {
            Seq::empty()
        } else if self.buffers.has(ids.last()) {
            self.tabs(ids.drop_last()).push(
                TabView {
                    id: ids.last(),
                    name: self.buffers.get(ids.last()).name,
                    active: ids.last() == self.focused,
                    modified: self.buffers.get(ids.last()).modified,
                },
            )
        } else {
            self.tabs(ids.drop_last())
        }
    }
}

impl EditorState {
    /// The tabs of the buffers of the current project.
    pub fn buffer_line(&self) -> (tabs: Vec<Tab>)
        requires
            self.wf(),
        ensures
            tabs@.map_values(|t: Tab| t@) == self@.tabs(self@.projects.current_project().buffers),
    {
        let ids = &self.project_manager.current().buffers;
        let mut tabs: Vec<Tab> = Vec::new();
        let mut i: usize = 0;
        assert(ids@.take(0) =~= Seq::<BufferId>::empty());
        assert(tabs@.map_values(|t: Tab| t@) =~= Seq::<TabView>::empty());
        while i < ids.len()
            invariant
                i <= ids.len(),
                tabs@.map_values(|t: Tab| t@) == self@.tabs(ids@.take(i as int)),
            decreases ids.len() - i,
        {
            proof {
                assert(ids@.take(i + 1).drop_last() =~= ids@.take(i as int));
                assert(ids@.take(i + 1).last() == ids@[i as int]);
            }
            match self.buffer_manager.get_buffer(ids[i]) {
                Some(buf) => {
                    let ghost before = tabs@.map_values(|t: Tab| t@);
                    let tab = Tab {
                        id: ids[i],
                        name: buf.name.clone(),
                        active: ids[i] == self.focused_buf_id,
                        modified: buf.is_modified(),
                    };
                    proof {
                        lemma_buffer_index(self@.buffers.buffers, ids@[i as int], 0);
                    }
                    let ghost view = tab@;
                    tabs.push(tab);
                    assert(tabs@.map_values(|t: Tab| t@) =~= before.push(view));
                },
                None => {},
            }
            i = i + 1;
        }
        assert(ids@.take(ids.len() as int) =~= ids@);
        tabs
    }
}

} // verus!
