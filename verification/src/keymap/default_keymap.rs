//! The bindings that every editor starts with.

use crate::buffer::Mode;
use crate::command::{args_view, ArgView, CommandArg};
use crate::keymap::key_chord::{KeyChord, KeyCode, KeyModifiers};
use crate::keymap::{KeySequence, Keymap, KeymapView};
use vstd::prelude::*;

verus! {

/// A key sequence with the modes in which it is bound, the command that it
/// runs and the arguments of the command.
#[derive(Debug, Clone)]
pub struct DefaultBinding {
    pub modes: Vec<Mode>,
    pub sequence: KeySequence,
    pub command: String,
    pub args: Option<Vec<CommandArg>>,
}

/// What a [`DefaultBinding`] stands for.
#[verifier::ext_equal]
pub struct DefaultBindingView {
    pub modes: Seq<Mode>,
    pub sequence: Seq<KeyChord>,
    pub command: Seq<char>,
    pub args: Option<Seq<ArgView>>,
}

impl View for DefaultBinding {
    type V = DefaultBindingView;

    open spec fn view(&self) -> DefaultBindingView {
        DefaultBindingView {
            modes: self.modes@,
            sequence: self.sequence@,
            command: self.command@,
            args: args_view(self.args),
        }
    }
}

/// A chord without modifiers.
pub open spec fn plain(code: KeyCode) -> KeyChord {
    KeyChord {
        code,
        modifiers: KeyModifiers { shift: false, alt: false, super_key: false, control: false },
    }
}

/// A chord with shift.
pub open spec fn shifted(code: KeyCode) -> KeyChord {
    KeyChord {
        code,
        modifiers: KeyModifiers { shift: true, alt: false, super_key: false, control: false },
    }
}

/// A chord with control.
pub open spec fn controlled(code: KeyCode) -> KeyChord {
    KeyChord {
        code,
        modifiers: KeyModifiers { shift: false, alt: false, super_key: false, control: true },
    }
}

/// A chord with super.
pub open spec fn supered(code: KeyCode) -> KeyChord {
    KeyChord {
        code,
        modifiers: KeyModifiers { shift: false, alt: false, super_key: true, control: false },
    }
}

/// The arguments of a command that takes a mode.
pub open spec fn mode_args(mode: Mode) -> Option<Seq<ArgView>> {
    Some(seq![ArgView::Mode(mode)])
}

/// The default bindings.
pub open spec fn default_bindings() -> Seq<DefaultBindingView> {
    seq![
        DefaultBindingView {
            modes: seq![Mode::Normal],
            sequence: seq![plain(KeyCode::Char('i'))],
            command: "set-mode"@,
            args: mode_args(Mode::Insert),
        },
        DefaultBindingView {
            modes: seq![Mode::Insert, Mode::Command, Mode::Minibuffer],
            sequence: seq![plain(KeyCode::Esc)],
            command: "set-mode"@,
            args: mode_args(Mode::Normal),
        },
        DefaultBindingView {
            modes: seq![Mode::Normal],
            sequence: seq![supered(KeyCode::Char('x'))],
            command: "set-mode"@,
            args: mode_args(Mode::Minibuffer),
        },
        DefaultBindingView {
            modes: seq![Mode::Normal, Mode::Visual],
            sequence: seq![plain(KeyCode::Char('h'))],
            command: "move-left"@,
            args: None,
        },
        DefaultBindingView {
            modes: seq![Mode::Normal, Mode::Visual],
            sequence: seq![plain(KeyCode::Char('j'))],
            command: "move-down"@,
            args: None,
        },
        DefaultBindingView {
            modes: seq![Mode::Normal, Mode::Visual],
            sequence: seq![plain(KeyCode::Char('k'))],
            command: "move-up"@,
            args: None,
        },
        DefaultBindingView {
            modes: seq![Mode::Normal, Mode::Visual],
            sequence: seq![plain(KeyCode::Char('l'))],
            command: "move-right"@,
            args: None,
        },
        DefaultBindingView {
            modes: seq![Mode::Normal, Mode::Visual],
            sequence: seq![plain(KeyCode::Char('-'))],
            command: "first-non-blank"@,
            args: None,
        },
        DefaultBindingView {
            modes: seq![Mode::Normal, Mode::Visual],
            sequence: seq![plain(KeyCode::Char('0'))],
            command: "beginning-of-line"@,
            args: None,
        },
        DefaultBindingView {
            modes: seq![Mode::Normal, Mode::Visual],
            sequence: seq![plain(KeyCode::Char('='))],
            command: "end-of-line"@,
            args: None,
        },
        DefaultBindingView {
            modes: seq![Mode::Normal],
            sequence: seq![plain(KeyCode::Char('o'))],
            command: "open-below"@,
            args: None,
        },
        DefaultBindingView {
            modes: seq![Mode::Normal],
            sequence: seq![shifted(KeyCode::Char('o'))],
            command: "open-above"@,
            args: None,
        },
        DefaultBindingView {
            modes: seq![Mode::Normal, Mode::Visual],
            sequence: seq![plain(KeyCode::Char('e'))],
            command: "word-end"@,
            args: None,
        },
        DefaultBindingView {
            modes: seq![Mode::Normal, Mode::Visual],
            sequence: seq![plain(KeyCode::Char('b'))],
            command: "word-backward"@,
            args: None,
        },
        DefaultBindingView {
            modes: seq![Mode::Normal, Mode::Visual],
            sequence: seq![plain(KeyCode::Char('w'))],
            command: "word-forward"@,
            args: None,
        },
        DefaultBindingView {
            modes: seq![Mode::Normal],
            sequence: seq![shifted(KeyCode::Char(':'))],
            command: "set-mode"@,
            args: mode_args(Mode::Command),
        },
        DefaultBindingView {
            modes: seq![Mode::Command],
            sequence: seq![plain(KeyCode::Enter)],
            command: "execute-command-buffer"@,
            args: None,
        },
        DefaultBindingView {
            modes: seq![Mode::Normal],
            sequence: seq![shifted(KeyCode::Char('j'))],
            command: "next-buffer"@,
            args: None,
        },
        DefaultBindingView {
            modes: seq![Mode::Normal],
            sequence: seq![shifted(KeyCode::Char('k'))],
            command: "previous-buffer"@,
            args: None,
        },
        DefaultBindingView {
            modes: seq![Mode::Normal],
            sequence: seq![plain(KeyCode::Char('z')), plain(KeyCode::Char('z'))],
            command: "center-cursor"@,
            args: None,
        },
        DefaultBindingView {
            modes: seq![Mode::Minibuffer],
            sequence: seq![controlled(KeyCode::Char('j'))],
            command: "minibuffer-next-completion"@,
            args: None,
        },
        DefaultBindingView {
            modes: seq![Mode::Minibuffer],
            sequence: seq![controlled(KeyCode::Char('k'))],
            command: "minibuffer-previous-completion"@,
            args: None,
        },
        DefaultBindingView {
            modes: seq![Mode::Minibuffer],
            sequence: seq![plain(KeyCode::Down)],
            command: "minibuffer-next-completion"@,
            args: None,
        },
        DefaultBindingView {
            modes: seq![Mode::Minibuffer],
            sequence: seq![plain(KeyCode::Up)],
            command: "minibuffer-previous-completion"@,
            args: None,
        },
        DefaultBindingView {
            modes: seq![Mode::Normal],
            sequence: seq![supered(KeyCode::Char('p'))],
            command: "find-file"@,
            args: None,
        },
        DefaultBindingView {
            modes: seq![Mode::Normal],
            sequence: seq![controlled(KeyCode::Char('x')), controlled(KeyCode::Char('f'))],
            command: "open-file"@,
            args: None,
        },
        DefaultBindingView {
            modes: seq![Mode::Minibuffer],
            sequence: seq![plain(KeyCode::Enter)],
            command: "minibuffer-accept"@,
            args: None,
        },
        DefaultBindingView {
            modes: seq![Mode::Normal],
            sequence: seq![supered(KeyCode::Char('x'))],
            command: "find-command"@,
            args: None,
        },
        DefaultBindingView {
            modes: seq![Mode::Normal],
            sequence: seq![controlled(KeyCode::Char('q'))],
            command: "kill-this-buffer"@,
            args: None,
        },
        DefaultBindingView {
            modes: seq![Mode::Normal],
            sequence: seq![plain(KeyCode::Char('v'))],
            command: "enter-visual-mode"@,
            args: None,
        },
        DefaultBindingView {
            modes: seq![Mode::Visual],
            sequence: seq![plain(KeyCode::Char('v'))],
            command: "exit-visual-mode"@,
            args: None,
        },
        DefaultBindingView {
            modes: seq![Mode::Visual],
            sequence: seq![plain(KeyCode::Esc)],
            command: "exit-visual-mode"@,
            args: None,
        },
        DefaultBindingView {
            modes: seq![Mode::Visual],
            sequence: seq![plain(KeyCode::Char('o'))],
            command: "visual_select_other_end"@,
            args: None,
        },
        DefaultBindingView {
            modes: seq![Mode::Visual],
            sequence: seq![plain(KeyCode::Char('d'))],
            command: "delete-selection"@,
            args: None,
        },
        DefaultBindingView {
            modes: seq![Mode::Visual],
            sequence: seq![plain(KeyCode::Char('c'))],
            command: "change-selection"@,
            args: None,
        },
        DefaultBindingView {
            modes: seq![Mode::Normal],
            sequence: seq![supered(KeyCode::Char('b'))],
            command: "find-buffer"@,
            args: None,
        },
        DefaultBindingView {
            modes: seq![Mode::Normal],
            sequence: seq![plain(KeyCode::Char('d'))],
            command: "delete-range"@,
            args: None,
        },
        DefaultBindingView {
            modes: seq![Mode::Normal],
            sequence: seq![plain(KeyCode::Char('c'))],
            command: "change-range"@,
            args: None,
        },
        DefaultBindingView {
            modes: seq![Mode::Normal],
            sequence: seq![plain(KeyCode::Char('u'))],
            command: "undo"@,
            args: None,
        },
        DefaultBindingView {
            modes: seq![Mode::Normal],
            sequence: seq![controlled(KeyCode::Char('r'))],
            command: "redo"@,
            args: None,
        },
        DefaultBindingView {
            modes: seq![Mode::Normal],
            sequence: seq![controlled(KeyCode::Char('d'))],
            command: "scroll-half-down"@,
            args: None,
        },
        DefaultBindingView {
            modes: seq![Mode::Normal],
            sequence: seq![controlled(KeyCode::Char('f'))],
            command: "scroll-full-down"@,
            args: None,
        },
        DefaultBindingView {
            modes: seq![Mode::Normal],
            sequence: seq![controlled(KeyCode::Char('u'))],
            command: "scroll-half-up"@,
            args: None,
        },
        DefaultBindingView {
            modes: seq![Mode::Normal],
            sequence: seq![controlled(KeyCode::Char('b'))],
            command: "scroll-full-up"@,
            args: None,
        },
        DefaultBindingView {
            modes: seq![Mode::Normal],
            sequence: seq![plain(KeyCode::Char('g')), plain(KeyCode::Char('g'))],
            command: "goto-first-line"@,
            args: None,
        },
        DefaultBindingView {
            modes: seq![Mode::Normal],
            sequence: seq![shifted(KeyCode::Char('g'))],
            command: "goto-last-line"@,
            args: None,
        },
        DefaultBindingView {
            modes: seq![Mode::Normal],
            sequence: seq![supered(KeyCode::Char('s'))],
            command: "save-current-buffer"@,
            args: None,
        },
    ]
}

/// The keymap after the bindings of `table` are made, one after the other.
pub open spec fn bind_all(keymap: KeymapView, table: Seq<DefaultBindingView>) -> KeymapView
    decreases table.len(),
{
    if table.len() == 0 {
        keymap
    } else {
        bind_all(keymap, table.drop_last()).bind(
            table.last().modes,
            table.last().sequence,
            table.last().command,
            table.last().args,
        )
    }
}

/// A binding of the table.
fn entry(modes: Vec<Mode>, chords: Vec<KeyChord>, command: &str, mode: Option<Mode>) -> (binding:
    DefaultBinding)
    ensures
        binding@ == (DefaultBindingView {
            modes: modes@,
            sequence: chords@,
            command: command@,
            args: match mode {
                Some(m) => mode_args(m),
                None => None,
            },
        }),
{
    let args = match mode {
        Some(m) => {
            let mut list: Vec<CommandArg> = Vec::new();
            list.push(CommandArg::Mode(m));
            assert(args_view(Some(list)) =~= mode_args(m));
            Some(list)
        },
        None => None,
    };
    DefaultBinding {
        modes,
        sequence: KeySequence::new(chords),
        command: String::from_str(command),
        args,
    }
}

/// One mode.
fn one(a: Mode) -> (modes: Vec<Mode>)
    ensures
        modes@ == seq![a],
{
    let mut modes: Vec<Mode> = Vec::new();
    modes.push(a);
    assert(modes@ =~= seq![a]);
    modes
}

/// Two modes.
fn two(a: Mode, b: Mode) -> (modes: Vec<Mode>)
    ensures
        modes@ == seq![a, b],
{
    let mut modes: Vec<Mode> = Vec::new();
    modes.push(a);
    modes.push(b);
    assert(modes@ =~= seq![a, b]);
    modes
}

/// Three modes.
fn three(a: Mode, b: Mode, c: Mode) -> (modes: Vec<Mode>)
    ensures
        modes@ == seq![a, b, c],
{
    let mut modes: Vec<Mode> = Vec::new();
    modes.push(a);
    modes.push(b);
    modes.push(c);
    assert(modes@ =~= seq![a, b, c]);
    modes
}

/// One chord.
fn key(code: KeyCode, modifiers: KeyModifiers) -> (chords: Vec<KeyChord>)
    ensures
        chords@ == seq![KeyChord { code, modifiers }],
{
    let mut chords: Vec<KeyChord> = Vec::new();
    chords.push(KeyChord { code, modifiers });
    assert(chords@ =~= seq![KeyChord { code, modifiers }]);
    chords
}

/// Two chords.
fn keys(first: KeyCode, first_modifiers: KeyModifiers, second: KeyCode, second_modifiers: KeyModifiers) -> (chords:
    Vec<KeyChord>)
    ensures
        chords@ == seq![
            KeyChord { code: first, modifiers: first_modifiers },
            KeyChord { code: second, modifiers: second_modifiers },
        ],
{
    let mut chords: Vec<KeyChord> = Vec::new();
    chords.push(KeyChord { code: first, modifiers: first_modifiers });
    chords.push(KeyChord { code: second, modifiers: second_modifiers });
    assert(chords@ =~= seq![
        KeyChord { code: first, modifiers: first_modifiers },
        KeyChord { code: second, modifiers: second_modifiers },
    ]);
    chords
}

/// The default bindings.
pub fn default_binding_table() -> (table: Vec<DefaultBinding>)
    ensures
        table@.map_values(|b: DefaultBinding| b@) == default_bindings(),
{
    let mut table: Vec<DefaultBinding> = Vec::new();
    table.push(entry(one(Mode::Normal), key(KeyCode::Char('i'), KeyModifiers::none()), "set-mode", Some(Mode::Insert)));
    table.push(entry(three(Mode::Insert, Mode::Command, Mode::Minibuffer), key(KeyCode::Esc, KeyModifiers::none()), "set-mode", Some(Mode::Normal)));
    table.push(entry(one(Mode::Normal), key(KeyCode::Char('x'), KeyModifiers::super_key()), "set-mode", Some(Mode::Minibuffer)));
    table.push(entry(two(Mode::Normal, Mode::Visual), key(KeyCode::Char('h'), KeyModifiers::none()), "move-left", None));
    table.push(entry(two(Mode::Normal, Mode::Visual), key(KeyCode::Char('j'), KeyModifiers::none()), "move-down", None));
    table.push(entry(two(Mode::Normal, Mode::Visual), key(KeyCode::Char('k'), KeyModifiers::none()), "move-up", None));
    table.push(entry(two(Mode::Normal, Mode::Visual), key(KeyCode::Char('l'), KeyModifiers::none()), "move-right", None));
    table.push(entry(two(Mode::Normal, Mode::Visual), key(KeyCode::Char('-'), KeyModifiers::none()), "first-non-blank", None));
    table.push(entry(two(Mode::Normal, Mode::Visual), key(KeyCode::Char('0'), KeyModifiers::none()), "beginning-of-line", None));
    table.push(entry(two(Mode::Normal, Mode::Visual), key(KeyCode::Char('='), KeyModifiers::none()), "end-of-line", None));
    table.push(entry(one(Mode::Normal), key(KeyCode::Char('o'), KeyModifiers::none()), "open-below", None));
    table.push(entry(one(Mode::Normal), key(KeyCode::Char('o'), KeyModifiers::shift()), "open-above", None));
    table.push(entry(two(Mode::Normal, Mode::Visual), key(KeyCode::Char('e'), KeyModifiers::none()), "word-end", None));
    table.push(entry(two(Mode::Normal, Mode::Visual), key(KeyCode::Char('b'), KeyModifiers::none()), "word-backward", None));
    table.push(entry(two(Mode::Normal, Mode::Visual), key(KeyCode::Char('w'), KeyModifiers::none()), "word-forward", None));
    table.push(entry(one(Mode::Normal), key(KeyCode::Char(':'), KeyModifiers::shift()), "set-mode", Some(Mode::Command)));
    table.push(entry(one(Mode::Command), key(KeyCode::Enter, KeyModifiers::none()), "execute-command-buffer", None));
    table.push(entry(one(Mode::Normal), key(KeyCode::Char('j'), KeyModifiers::shift()), "next-buffer", None));
    table.push(entry(one(Mode::Normal), key(KeyCode::Char('k'), KeyModifiers::shift()), "previous-buffer", None));
    table.push(entry(one(Mode::Normal), keys(KeyCode::Char('z'), KeyModifiers::none(), KeyCode::Char('z'), KeyModifiers::none()), "center-cursor", None));
    table.push(entry(one(Mode::Minibuffer), key(KeyCode::Char('j'), KeyModifiers::ctrl()), "minibuffer-next-completion", None));
    table.push(entry(one(Mode::Minibuffer), key(KeyCode::Char('k'), KeyModifiers::ctrl()), "minibuffer-previous-completion", None));
    table.push(entry(one(Mode::Minibuffer), key(KeyCode::Down, KeyModifiers::none()), "minibuffer-next-completion", None));
    table.push(entry(one(Mode::Minibuffer), key(KeyCode::Up, KeyModifiers::none()), "minibuffer-previous-completion", None));
    table.push(entry(one(Mode::Normal), key(KeyCode::Char('p'), KeyModifiers::super_key()), "find-file", None));
    table.push(entry(one(Mode::Normal), keys(KeyCode::Char('x'), KeyModifiers::ctrl(), KeyCode::Char('f'), KeyModifiers::ctrl()), "open-file", None));
    table.push(entry(one(Mode::Minibuffer), key(KeyCode::Enter, KeyModifiers::none()), "minibuffer-accept", None));
    table.push(entry(one(Mode::Normal), key(KeyCode::Char('x'), KeyModifiers::super_key()), "find-command", None));
    table.push(entry(one(Mode::Normal), key(KeyCode::Char('q'), KeyModifiers::ctrl()), "kill-this-buffer", None));
    table.push(entry(one(Mode::Normal), key(KeyCode::Char('v'), KeyModifiers::none()), "enter-visual-mode", None));
    table.push(entry(one(Mode::Visual), key(KeyCode::Char('v'), KeyModifiers::none()), "exit-visual-mode", None));
    table.push(entry(one(Mode::Visual), key(KeyCode::Esc, KeyModifiers::none()), "exit-visual-mode", None));
    table.push(entry(one(Mode::Visual), key(KeyCode::Char('o'), KeyModifiers::none()), "visual_select_other_end", None));
    table.push(entry(one(Mode::Visual), key(KeyCode::Char('d'), KeyModifiers::none()), "delete-selection", None));
    table.push(entry(one(Mode::Visual), key(KeyCode::Char('c'), KeyModifiers::none()), "change-selection", None));
    table.push(entry(one(Mode::Normal), key(KeyCode::Char('b'), KeyModifiers::super_key()), "find-buffer", None));
    table.push(entry(one(Mode::Normal), key(KeyCode::Char('d'), KeyModifiers::none()), "delete-range", None));
    table.push(entry(one(Mode::Normal), key(KeyCode::Char('c'), KeyModifiers::none()), "change-range", None));
    table.push(entry(one(Mode::Normal), key(KeyCode::Char('u'), KeyModifiers::none()), "undo", None));
    table.push(entry(one(Mode::Normal), key(KeyCode::Char('r'), KeyModifiers::ctrl()), "redo", None));
    table.push(entry(one(Mode::Normal), key(KeyCode::Char('d'), KeyModifiers::ctrl()), "scroll-half-down", None));
    table.push(entry(one(Mode::Normal), key(KeyCode::Char('f'), KeyModifiers::ctrl()), "scroll-full-down", None));
    table.push(entry(one(Mode::Normal), key(KeyCode::Char('u'), KeyModifiers::ctrl()), "scroll-half-up", None));
    table.push(entry(one(Mode::Normal), key(KeyCode::Char('b'), KeyModifiers::ctrl()), "scroll-full-up", None));
    table.push(entry(one(Mode::Normal), keys(KeyCode::Char('g'), KeyModifiers::none(), KeyCode::Char('g'), KeyModifiers::none()), "goto-first-line", None));
    table.push(entry(one(Mode::Normal), key(KeyCode::Char('g'), KeyModifiers::shift()), "goto-last-line", None));
    table.push(entry(one(Mode::Normal), key(KeyCode::Char('s'), KeyModifiers::super_key()), "save-current-buffer", None));
    assert(table@.map_values(|b: DefaultBinding| b@) =~= default_bindings());
    table
}

/// Makes the default bindings.
pub fn register_default_keymap(km: &mut Keymap)
    ensures
        final(km)@ == bind_all(old(km)@, default_bindings()),
{
    let table = default_binding_table();
    let ghost all = default_bindings();
    let mut i: usize = 0;
    assert(all.take(0) =~= Seq::<DefaultBindingView>::empty());
    while i < table.len()
        invariant
            i <= table.len(),
            all == table@.map_values(|b: DefaultBinding| b@),
            km@ == bind_all(old(km)@, all.take(i as int)),
        decreases table.len() - i,
    {
        proof {
            assert(all.take(i + 1).drop_last() =~= all.take(i as int));
            assert(all.take(i + 1).last() == table@[i as int]@);
        }
        let binding = &table[i];
        km.bind(
            binding.modes.as_slice(),
            binding.sequence.duplicate(),
            binding.command.as_str(),
            crate::command::duplicate_optional_args(&binding.args),
        );
        i = i + 1;
    }
    assert(all.take(all.len() as int) =~= all);
}

} // verus!
