//! Key sequences and their bindings.
//!
//! A keymap binds sequences of chords to commands, mode by mode, and collects
//! the chords that are pressed until they make up a bound sequence or can no
//! longer become one.

pub mod default_keymap;
pub mod key_chord;

use crate::buffer::Mode;
use crate::command::{args_view, duplicate_optional_args, ArgView, CommandArg};
use crate::keymap::key_chord::KeyChord;
use vstd::prelude::*;

verus! {

/// Chords pressed one after the other.
#[derive(Debug, Clone, PartialEq, Eq, Hash)]
pub struct KeySequence {
    pub chords: Vec<KeyChord>,
}

impl View for KeySequence {
    type V = Seq<KeyChord>;

    open spec fn view(&self) -> Seq<KeyChord> {
        self.chords@
    }
}

/// The chords as they are written, with a space between them.
pub open spec fn joined_text(chords: Seq<KeyChord>) -> Seq<char>
    decreases chords.len(),
{
    if chords.len() == 0 {
        Seq::empty()
    } else if chords.len() == 1 {
        chords[0].text()
    } else {
        joined_text(chords.drop_last()) + " "@ + chords.last().text()
    }
}

/// `prefix` is the start of `whole`, and shorter.
pub open spec fn is_strict_prefix(prefix: Seq<KeyChord>, whole: Seq<KeyChord>) -> bool {
    prefix.len() < whole.len() && whole.subrange(0, prefix.len() as int) == prefix
}

/// Whether two lists hold the same chords.
pub fn same_chords(a: &Vec<KeyChord>, b: &Vec<KeyChord>) -> (same: bool)
    ensures
        same == (a@ == b@),
{
    if a.len() != b.len() {
        return false;
    }
    let mut i: usize = 0;
    while i < a.len()
        invariant
            i <= a.len(),
            a.len() == b.len(),
            forall|k: int| 0 <= k < i ==> a@[k] == b@[k],
        decreases a.len() - i,
    {
        if a[i] != b[i] {
            return false;
        }
        i = i + 1;
    }
    assert(a@ =~= b@);
    true
}

/// Whether `prefix` is the start of `whole`, and shorter.
pub fn starts_with_more(whole: &Vec<KeyChord>, prefix: &Vec<KeyChord>) -> (b: bool)
    ensures
        b == is_strict_prefix(prefix@, whole@),
{
    if prefix.len() >= whole.len() {
        return false;
    }
    let mut i: usize = 0;
    while i < prefix.len()
        invariant
            i <= prefix.len() < whole.len(),
            forall|k: int| 0 <= k < i ==> whole@[k] == prefix@[k],
        decreases prefix.len() - i,
    {
        if whole[i] != prefix[i] {
            assert(whole@.subrange(0, prefix.len() as int)[i as int] != prefix@[i as int]);
            return false;
        }
        i = i + 1;
    }
    assert(whole@.subrange(0, prefix.len() as int) =~= prefix@);
    true
}

impl KeySequence {
    pub fn new(seq: Vec<KeyChord>) -> (sequence: KeySequence)
        ensures
            sequence@ == seq@,
    {
        KeySequence { chords: seq }
    }

    pub fn single(chord: KeyChord) -> (sequence: KeySequence)
        ensures
            sequence@ == seq![chord],
    {
        let mut chords: Vec<KeyChord> = Vec::new();
        chords.push(chord);
        assert(chords@ =~= seq![chord]);
        KeySequence { chords }
    }

    pub fn default() -> (sequence: KeySequence)
        ensures
            sequence@ == Seq::<KeyChord>::empty(),
    {
        KeySequence { chords: Vec::new() }
    }

    /// A copy of the sequence.
    pub fn duplicate(&self) -> (copy: KeySequence)
        ensures
            copy@ == self@,
    {
        let mut chords: Vec<KeyChord> = Vec::new();
        let mut i: usize = 0;
        while i < self.chords.len()
            invariant
                i <= self.chords.len(),
                chords@ == self.chords@.subrange(0, i as int),
            decreases self.chords.len() - i,
        {
            chords.push(self.chords[i]);
            assert(self.chords@.subrange(0, i + 1) =~= self.chords@.subrange(0, i as int).push(
                self.chords@[i as int],
            ));
            i = i + 1;
        }
        assert(self.chords@.subrange(0, self.chords.len() as int) =~= self.chords@);
        KeySequence { chords }
    }

    /// The sequence as it is written: its chords with a space between them,
    /// and `<empty>` for a sequence without chords.
    pub fn to_string(&self) -> (text: String)
        ensures
            text@ == if self@.len() == 0 {
                "<empty>"@
            } else {
                joined_text(self@)
            },
    {
        if self.chords.len() == 0 {
            return String::from_str("<empty>");
        }
        let mut text = self.chords[0].to_string();
        assert(self@.subrange(0, 1) =~= seq![self@[0]]);
        let mut i: usize = 1;
        while i < self.chords.len()
            invariant
                1 <= i <= self.chords.len(),
                text@ == joined_text(self@.subrange(0, i as int)),
            decreases self.chords.len() - i,
        {
            text.append(" ");
            self.chords[i].push_text(&mut text);
            proof {
                let next = self@.subrange(0, i + 1);
                assert(next.drop_last() =~= self@.subrange(0, i as int));
                assert(next.last() == self@[i as int]);
                assert(text@ =~= joined_text(self@.subrange(0, i as int)) + " "@
                    + self@[i as int].text());
            }
            i = i + 1;
        }
        assert(self@.subrange(0, self.chords.len() as int) =~= self@);
        text
    }
}

/// A command bound to a key sequence in one mode.
#[derive(Debug, Clone)]
pub struct Binding {
    pub sequence: KeySequence,
    pub mode: Mode,
    pub command: String,
    pub args: Option<Vec<CommandArg>>,
}

/// What a [`Binding`] stands for.
#[verifier::ext_equal]
pub struct BindingView {
    pub sequence: Seq<KeyChord>,
    pub mode: Mode,
    pub command: Seq<char>,
    pub args: Option<Seq<ArgView>>,
}

impl View for Binding {
    type V = BindingView;

    open spec fn view(&self) -> BindingView {
        BindingView {
            sequence: self.sequence@,
            mode: self.mode,
            command: self.command@,
            args: args_view(self.args),
        }
    }
}

/// The bindings and the chords pressed so far.
#[derive(Debug, Clone)]
pub struct Keymap {
    pub bindings: Vec<Binding>,
    pub buffer: KeySequence,
}

/// What a [`Keymap`] stands for.
#[verifier::ext_equal]
pub struct KeymapView {
    pub bindings: Seq<BindingView>,
    pub pending: Seq<KeyChord>,
}

impl View for Keymap {
    type V = KeymapView;

    open spec fn view(&self) -> KeymapView {
        KeymapView {
            bindings: self.bindings@.map_values(|b: Binding| b@),
            pending: self.buffer@,
        }
    }
}

/// The place of the first binding at or after `from` for `sequence` in
/// `mode`, or the number of bindings.
pub open spec fn binding_index(
    bindings: Seq<BindingView>,
    sequence: Seq<KeyChord>,
    mode: Mode,
    from: int,
) -> int
    decreases bindings.len() - from,
{
    if from < 0 || from >= bindings.len() {
        bindings.len() as int
    } else if bindings[from].sequence == sequence && bindings[from].mode == mode {
        from
    } else {
        binding_index(bindings, sequence, mode, from + 1)
    }
}

/// Some binding, of whatever mode, is for a sequence that starts with
/// `pending` and goes on.
pub open spec fn awaits_more(bindings: Seq<BindingView>, pending: Seq<KeyChord>) -> bool {
    exists|i: int| 0 <= i < bindings.len() && is_strict_prefix(pending, #[trigger] bindings[i].sequence)
}

/// No two bindings are for the same sequence in the same mode.
pub open spec fn bound_once(bindings: Seq<BindingView>) -> bool {
    forall|i: int, j: int|
        0 <= i < j < bindings.len() ==> !((#[trigger] bindings[i]).sequence == (
        #[trigger] bindings[j]).sequence && bindings[i].mode == bindings[j].mode)
}

impl KeymapView {
    /// The binding for `sequence` in `mode`.
    pub open spec fn bound(self, sequence: Seq<KeyChord>, mode: Mode) -> Option<BindingView> {
        let i = binding_index(self.bindings, sequence, mode, 0);
        if i < self.bindings.len() {
            Some(self.bindings[i])
        } else {
            None
        }
    }

    /// The bindings with `binding` in place of the one for the same sequence
    /// and mode, or added at the end.
    pub open spec fn bind_one(self, binding: BindingView) -> KeymapView {
        let i = binding_index(self.bindings, binding.sequence, binding.mode, 0);
        if i < self.bindings.len() {
            KeymapView { bindings: self.bindings.update(i, binding), ..self }
        } else {
            KeymapView { bindings: self.bindings.push(binding), ..self }
        }
    }

    /// The keymap after `sequence` is bound in each of `modes`.
    pub open spec fn bind(
        self,
        modes: Seq<Mode>,
        sequence: Seq<KeyChord>,
        command: Seq<char>,
        args: Option<Seq<ArgView>>,
    ) -> KeymapView
        decreases modes.len(),
    {
        if modes.len() == 0 {
            self
        } else {
            self.bind(modes.drop_last(), sequence, command, args).bind_one(
                BindingView { sequence, mode: modes.last(), command, args },
            )
        }
    }

    /// The binding that a key press completes.
    pub open spec fn completed(self, mode: Mode, chord: KeyChord) -> Option<BindingView> {
        self.bound(self.pending.push(chord), mode)
    }

    /// The keymap after a key press. The chord joins the pending ones. They
    /// are dropped where they now are a bound sequence of the mode, and where
    /// no bound sequence starts with them and goes on; else they stay.
    pub open spec fn push_key(self, mode: Mode, chord: KeyChord) -> KeymapView {
        let pressed = self.pending.push(chord);
        if self.bound(pressed, mode) is None && awaits_more(self.bindings, pressed) {
            KeymapView { pending: pressed, ..self }
        } else {
            KeymapView { pending: Seq::empty(), ..self }
        }
    }
}

pub proof fn lemma_binding_index(
    bindings: Seq<BindingView>,
    sequence: Seq<KeyChord>,
    mode: Mode,
    from: int,
)
    requires
        0 <= from <= bindings.len(),
    ensures
        from <= binding_index(bindings, sequence, mode, from) <= bindings.len(),
        binding_index(bindings, sequence, mode, from) < bindings.len() ==> bindings[binding_index(
            bindings,
            sequence,
            mode,
            from,
        )].sequence == sequence && bindings[binding_index(bindings, sequence, mode, from)].mode
            == mode,
        forall|i: int|
            from <= i < binding_index(bindings, sequence, mode, from) ==> !((
            #[trigger] bindings[i]).sequence == sequence && bindings[i].mode == mode),
    decreases bindings.len() - from,
{
    if from < bindings.len() && !(bindings[from].sequence == sequence && bindings[from].mode
        == mode) {
        lemma_binding_index(bindings, sequence, mode, from + 1);
    }
}

/// Binding keeps every sequence bound at most once in a mode.
pub proof fn lemma_bind_one_bound_once(k: KeymapView, binding: BindingView)
    requires
        bound_once(k.bindings),
    ensures
        bound_once(k.bind_one(binding).bindings),
        k.bind_one(binding).bound(binding.sequence, binding.mode) == Some(binding),
{
    lemma_binding_index(k.bindings, binding.sequence, binding.mode, 0);
    let i = binding_index(k.bindings, binding.sequence, binding.mode, 0);
    let after = k.bind_one(binding).bindings;
    lemma_binding_index(after, binding.sequence, binding.mode, 0);
    if i < k.bindings.len() {
        assert(after[i] == binding);
        assert forall|a: int, b: int| 0 <= a < b < after.len() implies !((
        #[trigger] after[a]).sequence == (#[trigger] after[b]).sequence && after[a].mode
            == after[b].mode) by {
            if a == i {
                assert(k.bindings[b] == after[b]);
                assert(!(k.bindings[i].sequence == k.bindings[b].sequence && k.bindings[i].mode
                    == k.bindings[b].mode));
            } else if b == i {
                assert(k.bindings[a] == after[a]);
                assert(!(k.bindings[a].sequence == k.bindings[i].sequence && k.bindings[a].mode
                    == k.bindings[i].mode));
            } else {
                assert(k.bindings[a] == after[a] && k.bindings[b] == after[b]);
            }
        }
        let j = binding_index(after, binding.sequence, binding.mode, 0);
        if j < i {
            assert(after[j] == k.bindings[j]);
        }
    } else {
        assert(after[k.bindings.len() as int] == binding);
        assert forall|a: int, b: int| 0 <= a < b < after.len() implies !((
        #[trigger] after[a]).sequence == (#[trigger] after[b]).sequence && after[a].mode
            == after[b].mode) by {
            assert(after[a] == k.bindings[a]);
            if b < k.bindings.len() {
                assert(after[b] == k.bindings[b]);
            }
        }
        let j = binding_index(after, binding.sequence, binding.mode, 0);
        if j < k.bindings.len() {
            assert(after[j] == k.bindings[j]);
        }
    }
}

impl Binding {
    /// A copy of the binding.
    pub fn duplicate(&self) -> (copy: Binding)
        ensures
            copy@ == self@,
    {
        Binding {
            sequence: self.sequence.duplicate(),
            mode: self.mode,
            command: self.command.clone(),
            args: duplicate_optional_args(&self.args),
        }
    }
}

impl Keymap {
    pub fn new() -> (keymap: Keymap)
        ensures
            keymap@ == (KeymapView { bindings: Seq::empty(), pending: Seq::empty() }),
    {
        let keymap = Keymap { bindings: Vec::new(), buffer: KeySequence::default() };
        assert(keymap@.bindings =~= Seq::<BindingView>::empty());
        keymap
    }

    /// The place of the binding for `sequence` in `mode`, or the number of
    /// bindings.
    fn find(&self, sequence: &Vec<KeyChord>, mode: Mode) -> (i: usize)
        ensures
            i == binding_index(self@.bindings, sequence@, mode, 0),
            i <= self.bindings.len(),
    {
        let mut i: usize = 0;
        while i < self.bindings.len()
            invariant
                i <= self.bindings.len(),
                binding_index(self@.bindings, sequence@, mode, i as int) == binding_index(
                    self@.bindings,
                    sequence@,
                    mode,
                    0,
                ),
            decreases self.bindings.len() - i,
        {
            assert(self@.bindings[i as int] == self.bindings@[i as int]@);
            if self.bindings[i].mode == mode && same_chords(&self.bindings[i].sequence.chords, sequence) {
                return i;
            }
            i = i + 1;
        }
        i
    }

    /// Binds `seq` to `command` in one mode.
    fn bind_one(&mut self, binding: Binding)
        ensures
            final(self)@ == old(self)@.bind_one(binding@),
    {
        let i = self.find(&binding.sequence.chords, binding.mode);
        let ghost view = binding@;
        if i < self.bindings.len() {
            self.bindings[i] = binding;
            assert(self@.bindings =~= old(self)@.bindings.update(i as int, view));
        } else {
            self.bindings.push(binding);
            assert(self@.bindings =~= old(self)@.bindings.push(view));
        }
    }

    /// Binds `seq` to `command` with `args` in each of `modes`. A binding
    /// that the sequence already has in one of the modes is replaced.
    pub fn bind(
        &mut self,
        modes: &[Mode],
        seq: KeySequence,
        command: &str,
        args: Option<Vec<CommandArg>>,
    )
        ensures
            final(self)@ == old(self)@.bind(modes@, seq@, command@, args_view(args)),
    {
        let mut i: usize = 0;
        assert(modes@.subrange(0, 0) =~= Seq::<Mode>::empty());
        while i < modes.len()
            invariant
                i <= modes.len(),
                self@ == old(self)@.bind(
                    modes@.subrange(0, i as int),
                    seq@,
                    command@,
                    args_view(args),
                ),
            decreases modes.len() - i,
        {
            let binding = Binding {
                sequence: seq.duplicate(),
                mode: modes[i],
                command: String::from_str(command),
                args: duplicate_optional_args(&args),
            };
            proof {
                let next = modes@.subrange(0, i + 1);
                assert(next.drop_last() =~= modes@.subrange(0, i as int));
                assert(next.last() == modes@[i as int]);
            }
            self.bind_one(binding);
            i = i + 1;
        }
        assert(modes@.subrange(0, modes.len() as int) =~= modes@);
    }

    /// Whether some bound sequence starts with the pending chords and goes
    /// on.
    fn awaits_more(&self) -> (b: bool)
        ensures
            b == awaits_more(self@.bindings, self@.pending),
    {
        let mut i: usize = 0;
        while i < self.bindings.len()
            invariant
                i <= self.bindings.len(),
                forall|k: int|
                    0 <= k < i ==> !is_strict_prefix(self@.pending, (#[trigger] self@.bindings[k]).sequence),
            decreases self.bindings.len() - i,
        {
            assert(self@.bindings[i as int] == self.bindings@[i as int]@);
            if starts_with_more(&self.bindings[i].sequence.chords, &self.buffer.chords) {
                assert(is_strict_prefix(self@.pending, self@.bindings[i as int].sequence));
                return true;
            }
            i = i + 1;
        }
        false
    }

    /// Takes a key press in `mode`. Hands out the command and the arguments
    /// of the binding that the press completes, if it completes one.
    pub fn push_key(&mut self, mode: Mode, chord: &KeyChord) -> (binding: Option<
        (String, Option<Vec<CommandArg>>),
    >)
        ensures
            final(self)@ == old(self)@.push_key(mode, *chord),
            match binding {
                Some((command, args)) => old(self)@.completed(mode, *chord) == Some(
                    BindingView {
                        command: command@,
                        args: args_view(args),
                        ..old(self)@.completed(mode, *chord)->0
                    },
                ),
                None => old(self)@.completed(mode, *chord) is None,
            },
    {
        self.buffer.chords.push(*chord);
        let i = self.find(&self.buffer.chords, mode);
        if i < self.bindings.len() {
            let command = self.bindings[i].command.clone();
            let args = duplicate_optional_args(&self.bindings[i].args);
            assert(self@.bindings[i as int] == self.bindings@[i as int]@);
            self.buffer.chords.clear();
            assert(self@.bindings =~= old(self)@.bindings);
            return Some((command, args));
        }
        let is_prefix = self.awaits_more();
        if !is_prefix {
            self.buffer.chords.clear();
        }
        assert(self@.bindings =~= old(self)@.bindings);
        None
    }
}

/// A sequence of two chords is completed by pressing them in turn, and a
/// chord that cannot go on a pending sequence abandons it. Where `first`
/// then `second` is bound in `mode` and `first` alone is not, pressing
/// `first` keeps it pending and yields nothing, and pressing `second` then
/// yields the binding and leaves nothing pending. Pressing instead a chord
/// `other` with which no bound sequence starts yields nothing and leaves
/// nothing pending.
pub proof fn lemma_two_chord_sequence(
    k: KeymapView,
    mode: Mode,
    first: KeyChord,
    second: KeyChord,
    other: KeyChord,
)
    requires
        k.pending.len() == 0,
        k.bound(seq![first, second], mode) is Some,
        k.bound(seq![first], mode) is None,
    ensures
        k.completed(mode, first) is None,
        k.push_key(mode, first).pending == seq![first],
        k.push_key(mode, first).completed(mode, second) == k.bound(seq![first, second], mode),
        k.push_key(mode, first).push_key(mode, second).pending.len() == 0,
        k.push_key(mode, first).push_key(mode, second).bindings == k.bindings,
        k.bound(seq![first, other], mode) is None && !awaits_more(k.bindings, seq![first, other])
            ==> k.push_key(mode, first).completed(mode, other) is None && k.push_key(
            mode,
            first,
        ).push_key(mode, other).pending.len() == 0,
{
    assert(k.pending.push(first) =~= seq![first]);
    assert(seq![first].push(second) =~= seq![first, second]);
    assert(seq![first].push(other) =~= seq![first, other]);
    lemma_binding_index(k.bindings, seq![first, second], mode, 0);
    let i = binding_index(k.bindings, seq![first, second], mode, 0);
    assert(k.bindings[i].sequence == seq![first, second]);
    assert(k.bindings[i].sequence.subrange(0, 1) =~= seq![first]);
    assert(is_strict_prefix(seq![first], k.bindings[i].sequence));
}

} // verus!
