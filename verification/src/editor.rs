//! The editor: its state, its key bindings and its commands, and what a key
//! press does to them.

use crate::buffer::Mode;
use crate::command::command_registry::{
    dispatch, dispatch_result_view, CommandRegistry, Dispatched, RegisteredView, NESTING_LIMIT,
};
use crate::command::default_commands::{default_commands, register_all, register_default_commands};
use crate::command::{args_view, ArgView, CommandArg, HandleKeyError};
use crate::editor_state::{lemma_with_focused_wf, EditorState, StateView};
use crate::keymap::default_keymap::{bind_all, default_bindings, register_default_keymap};
use crate::keymap::key_chord::{KeyChord, KeyCode, KeyModifiers};
use crate::keymap::{Keymap, KeymapView};
use vstd::prelude::*;

verus! {

impl StateView {
    /// The count that the next command runs with: the prefix that was typed,
    /// or 1.
    pub open spec fn pending_count(self) -> usize {
        match self.prefix_arg {
            Some(n) => n,
            None => 1,
        }
    }

    /// What running `name` leads to: the command is dispatched with the
    /// pending count, and no prefix is left.
    pub open spec fn exec(
        self,
        commands: Seq<RegisteredView>,
        name: Seq<char>,
        args: Option<Seq<ArgView>>,
    ) -> Dispatched {
        dispatch(
            commands,
            name,
            StateView { prefix_arg: None, ..self },
            args,
            self.pending_count(),
            NESTING_LIMIT as nat,
        )
    }

    /// What a key that no binding takes does in the mode of the focused
    /// buffer: in insert mode it edits the text, in command mode the command
    /// line, and in the mode of the picker the input of the picker, whose
    /// candidates are narrowed anew.
    pub open spec fn type_key(self, chord: KeyChord) -> StateView {
        let buffer = self.focused_buffer();
        match buffer.mode {
            Mode::Insert => if chord.code == KeyCode::Backspace {
                self.with_focused(buffer.delete_char_before_cursor())
            } else if chord.code == KeyCode::Enter {
                self.with_focused(buffer.insert_str(seq!['\n']))
            } else {
                match chord.spec_as_char() {
                    Some(c) => self.with_focused(buffer.insert_str(seq![c])),
                    None => self,
                }
            },
            Mode::Command => if chord.code == KeyCode::Backspace {
                StateView {
                    command_line: if self.command_line.len() > 0 {
                        self.command_line.drop_last()
                    } else {
                        self.command_line
                    },
                    ..self
                }
            } else {
                match chord.spec_as_char() {
                    Some(c) => StateView { command_line: self.command_line.push(c), ..self },
                    None => self,
                }
            },
            Mode::Minibuffer => match self.picker {
                Some(picker) => {
                    let input = if chord.code == KeyCode::Backspace {
                        if picker.input.len() > 0 {
                            picker.input.drop_last()
                        } else {
                            picker.input
                        }
                    } else {
                        match chord.spec_as_char() {
                            Some(c) => picker.input.push(c),
                            None => picker.input,
                        }
                    };
                    StateView {
                        picker: Some(
                            (crate::mini_buffer::PickerView { input, ..picker }).filter_items(),
                        ),
                        ..self
                    }
                },
                None => self,
            },
            _ => self,
        }
    }
}

impl EditorState {
    /// Runs the command `name` with the count that was typed before it.
    pub fn exec(
        &mut self,
        registry: &CommandRegistry,
        name: &str,
        args: Option<Vec<CommandArg>>,
    ) -> (result: Result<(), HandleKeyError>)
        requires
            old(self).wf(),
        ensures
            final(self).wf(),
            final(self)@ == old(self)@.exec(registry@, name@, args_view(args)).state,
            dispatch_result_view(result) == old(self)@.exec(registry@, name@, args_view(args)).result,
    {
        let count = match self.prefix_arg {
            Some(n) => n,
            None => 1,
        };
        self.prefix_arg = None;
        registry.execute(name, self, &args, count)
    }

    /// Takes a key that no binding took.
    pub fn type_key(&mut self, chord: &KeyChord)
        requires
            old(self).wf(),
        ensures
            final(self).wf(),
            final(self)@ == old(self)@.type_key(*chord),
    {
        let mode = self.focused_buf().mode;
        match mode {
            Mode::Insert => {
                let ghost before = self@;
                let typed = chord.as_char();
                let buf = self.focused_buf_mut();
                if chord.code == KeyCode::Backspace {
                    buf.delete_char_before_cursor();
                } else if chord.code == KeyCode::Enter {
                    buf.insert_char('\n');
                } else {
                    match typed {
                        Some(c) => {
                            buf.insert_char(c);
                        },
                        None => {},
                    }
                }
                proof {
                    lemma_with_focused_wf(before, buf@);
                    if chord.code != KeyCode::Backspace && chord.code != KeyCode::Enter
                        && typed is None {
                        crate::editor_state::lemma_with_focused_same(before);
                    }
                }
            },
            Mode::Command => {
                if chord.code == KeyCode::Backspace {
                    self.command_buffer.pop();
                } else {
                    match chord.as_char() {
                        Some(c) => self.command_buffer.push(c),
                        None => {},
                    }
                }
            },
            Mode::Minibuffer => {
                match &mut self.minibuffer_manager.current {
                    Some(mini) => {
                        if chord.code == KeyCode::Backspace {
                            mini.state.input.pop();
                        } else {
                            match chord.as_char() {
                                Some(c) => mini.state.input.push(c),
                                None => {},
                            }
                        }
                        mini.filter_items();
                    },
                    None => {},
                }
            },
            _ => {},
        }
    }
}

/// An editor.
#[derive(Debug, Clone)]
pub struct Editor {
    pub state: EditorState,
    pub keymap: Keymap,
    pub registry: CommandRegistry,
}

/// What an [`Editor`] stands for.
#[verifier::ext_equal]
pub struct EditorView {
    pub state: StateView,
    pub keymap: KeymapView,
    pub commands: Seq<RegisteredView>,
}

impl View for Editor {
    type V = EditorView;

    open(crate) spec fn view(&self) -> EditorView {
        EditorView { state: self.state@, keymap: self.keymap@, commands: self.registry@ }
    }
}

impl EditorView {
    /// What a key press leads to. The chord goes to the keymap in the mode of
    /// the focused buffer. The command of a binding that it completes is
    /// run; a chord that completes none is typed.
    pub open spec fn handle_key(self, chord: KeyChord) -> EditorView {
        let mode = self.state.focused_buffer().mode;
        EditorView {
            keymap: self.keymap.push_key(mode, chord),
            state: match self.keymap.completed(mode, chord) {
                Some(binding) => self.state.exec(self.commands, binding.command, binding.args).state,
                None => self.state.type_key(chord),
            },
            ..self
        }
    }
}

impl Editor {
    pub open(crate) spec fn wf(&self) -> bool {
        self.state.wf()
    }

    /// An editor with one empty buffer, the default bindings and the default
    /// commands.
    pub fn new() -> (editor: Editor)
        ensures
            editor.wf(),
            editor@.state == StateView::fresh(),
            editor@.commands == register_all(Seq::empty(), default_commands()),
            editor@.keymap == bind_all(
                KeymapView { bindings: Seq::empty(), pending: Seq::empty() },
                default_bindings(),
            ),
    {
        let mut registry = CommandRegistry::new();
        register_default_commands(&mut registry);
        let mut keymap = Keymap::new();
        register_default_keymap(&mut keymap);
        Editor { state: EditorState::new(), keymap, registry }
    }

    /// Takes a key press.
    pub fn handle_key(&mut self, key: KeyCode, modifiers: KeyModifiers)
        requires
            old(self).wf(),
        ensures
            final(self).wf(),
            final(self)@ == old(self)@.handle_key(KeyChord { code: key, modifiers }),
    {
        let chord = KeyChord { code: key, modifiers };
        let mode = self.state.focused_buf().mode;
        match self.keymap.push_key(mode, &chord) {
            Some((command_name, args)) => {
                let _ = self.state.exec(&self.registry, command_name.as_str(), args);
            },
            None => {
                self.state.type_key(&chord);
            },
        }
    }
}

} // verus!
