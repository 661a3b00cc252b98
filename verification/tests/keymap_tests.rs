use benihime::buffer::Mode;
use benihime::command::CommandArg;
use benihime::keymap::default_keymap::{default_binding_table, register_default_keymap};
use benihime::keymap::key_chord::{KeyChord, KeyCode, KeyModifiers, ModifierKeyCode};
use benihime::keymap::{same_chords, starts_with_more, KeySequence, Keymap};

fn ch(c: char) -> KeyChord {
    KeyChord { code: KeyCode::Char(c), modifiers: KeyModifiers::none() }
}

fn name_of(binding: Option<(String, Option<Vec<CommandArg>>)>) -> Option<String> {
    binding.map(|b| b.0)
}

#[test]
fn key_code_queries() {
    assert!(KeyCode::F(5).is_function_key(5));
    assert!(!KeyCode::F(5).is_function_key(6));
    assert!(!KeyCode::Enter.is_function_key(5));
    assert!(KeyCode::Char('x').is_char('x'));
    assert!(!KeyCode::Char('x').is_char('y'));
    assert_eq!(KeyCode::Char('x').as_char(), Some('x'));
    assert_eq!(KeyCode::Tab.as_char(), None);
    assert!(KeyCode::Modifier(ModifierKeyCode::LeftAlt).is_modifier(ModifierKeyCode::LeftAlt));
    assert!(!KeyCode::Modifier(ModifierKeyCode::LeftAlt).is_modifier(ModifierKeyCode::RightAlt));
    assert!(!KeyCode::Esc.is_modifier(ModifierKeyCode::LeftAlt));
}

#[test]
fn chord_as_char_applies_shift() {
    assert_eq!(ch('a').as_char(), Some('a'));
    let shifted = KeyChord { code: KeyCode::Char('a'), modifiers: KeyModifiers::shift() };
    assert_eq!(shifted.as_char(), Some('A'));
    let colon = KeyChord { code: KeyCode::Char(':'), modifiers: KeyModifiers::shift() };
    assert_eq!(colon.as_char(), Some(':'));
    let umlaut = KeyChord { code: KeyCode::Char('ä'), modifiers: KeyModifiers::shift() };
    assert_eq!(umlaut.as_char(), Some('ä'));
    let enter = KeyChord { code: KeyCode::Enter, modifiers: KeyModifiers::none() };
    assert_eq!(enter.as_char(), None);
}

#[test]
fn modifiers_one_by_one() {
    assert_eq!(
        KeyModifiers::none(),
        KeyModifiers { shift: false, alt: false, super_key: false, control: false }
    );
    assert!(KeyModifiers::alt().alt);
    assert!(KeyModifiers::ctrl().control);
    assert!(KeyModifiers::shift().shift);
    assert!(KeyModifiers::super_key().super_key);
    assert_eq!(
        KeyModifiers::from_parts(true, false, true, false),
        KeyModifiers { shift: true, alt: true, super_key: false, control: false }
    );
}

#[test]
fn key_sequence_constructors() {
    assert_eq!(KeySequence::default().chords, vec![]);
    assert_eq!(KeySequence::single(ch('g')).chords, vec![ch('g')]);
    assert_eq!(KeySequence::new(vec![ch('g'), ch('g')]).chords, vec![ch('g'), ch('g')]);
    assert_eq!(KeySequence::new(vec![ch('a')]).duplicate(), KeySequence::single(ch('a')));
}

#[test]
fn key_sequence_to_string_joins_chords() {
    assert_eq!(KeySequence::default().to_string(), "<empty>");
    assert_eq!(KeySequence::single(ch('g')).to_string(), "g");
    let seq = KeySequence::new(vec![
        KeyChord { code: KeyCode::Char('x'), modifiers: KeyModifiers::ctrl() },
        KeyChord { code: KeyCode::F(12), modifiers: KeyModifiers::from_parts(true, false, true, false) },
        KeyChord { code: KeyCode::Enter, modifiers: KeyModifiers::super_key() },
    ]);
    assert_eq!(seq.to_string(), "C-x A-S-f12 D-enter");
    assert_eq!(ch('q').to_string(), "q");
}

#[test]
fn chord_list_comparisons() {
    assert!(same_chords(&vec![ch('a'), ch('b')], &vec![ch('a'), ch('b')]));
    assert!(!same_chords(&vec![ch('a'), ch('b')], &vec![ch('a')]));
    assert!(!same_chords(&vec![ch('a'), ch('b')], &vec![ch('a'), ch('c')]));
    assert!(starts_with_more(&vec![ch('a'), ch('b')], &vec![ch('a')]));
    assert!(starts_with_more(&vec![ch('a')], &vec![]));
    assert!(!starts_with_more(&vec![ch('a'), ch('b')], &vec![ch('a'), ch('b')]));
    assert!(!starts_with_more(&vec![ch('a'), ch('b')], &vec![ch('b')]));
}

#[test]
fn two_chord_sequence_completes_or_is_abandoned() {
    let mut km = Keymap::new();
    km.bind(&[Mode::Normal], KeySequence::new(vec![ch('g'), ch('g')]), "goto-first-line", None);
    // g then x: nothing, and nothing pending.
    assert_eq!(name_of(km.push_key(Mode::Normal, &ch('g'))), None);
    assert_eq!(km.buffer.chords, vec![ch('g')]);
    assert_eq!(name_of(km.push_key(Mode::Normal, &ch('x'))), None);
    assert!(km.buffer.chords.is_empty());
    // g then g: the command, and nothing pending.
    assert_eq!(name_of(km.push_key(Mode::Normal, &ch('g'))), None);
    assert_eq!(
        name_of(km.push_key(Mode::Normal, &ch('g'))),
        Some("goto-first-line".to_string())
    );
    assert!(km.buffer.chords.is_empty());
}

#[test]
fn bindings_are_per_mode() {
    let mut km = Keymap::new();
    km.bind(&[Mode::Normal, Mode::Visual], KeySequence::single(ch('h')), "move-left", None);
    km.bind(&[Mode::Visual], KeySequence::single(ch('d')), "delete-selection", None);
    assert_eq!(name_of(km.push_key(Mode::Visual, &ch('h'))), Some("move-left".to_string()));
    assert_eq!(name_of(km.push_key(Mode::Normal, &ch('h'))), Some("move-left".to_string()));
    assert_eq!(name_of(km.push_key(Mode::Insert, &ch('h'))), None);
    assert!(km.buffer.chords.is_empty());
    // A sequence bound in another mode only is no prefix of anything longer.
    assert_eq!(name_of(km.push_key(Mode::Normal, &ch('d'))), None);
    assert!(km.buffer.chords.is_empty());
    assert_eq!(km.bindings.len(), 3);
}

#[test]
fn bind_replaces_an_earlier_binding() {
    let mut km = Keymap::new();
    km.bind(&[Mode::Normal], KeySequence::single(ch('u')), "undo", None);
    km.bind(
        &[Mode::Normal],
        KeySequence::single(ch('u')),
        "set-mode",
        Some(vec![CommandArg::Mode(Mode::Insert)]),
    );
    assert_eq!(km.bindings.len(), 1);
    let (name, args) = km.push_key(Mode::Normal, &ch('u')).unwrap();
    assert_eq!(name, "set-mode");
    assert!(matches!(args.unwrap()[0], CommandArg::Mode(Mode::Insert)));
}

#[test]
fn prefix_check_ignores_the_mode() {
    let mut km = Keymap::new();
    km.bind(&[Mode::Visual], KeySequence::new(vec![ch('z'), ch('z')]), "center-cursor", None);
    assert_eq!(name_of(km.push_key(Mode::Normal, &ch('z'))), None);
    assert_eq!(km.buffer.chords, vec![ch('z')]);
    assert_eq!(name_of(km.push_key(Mode::Normal, &ch('z'))), None);
    assert!(km.buffer.chords.is_empty());
}

#[test]
fn default_keymap_binds_the_usual_keys() {
    let mut km = Keymap::new();
    register_default_keymap(&mut km);
    assert_eq!(default_binding_table().len(), 47);
    assert_eq!(name_of(km.push_key(Mode::Normal, &ch('h'))), Some("move-left".to_string()));
    assert_eq!(name_of(km.push_key(Mode::Visual, &ch('w'))), Some("word-forward".to_string()));
    let (name, args) = km.push_key(Mode::Normal, &ch('i')).unwrap();
    assert_eq!(name, "set-mode");
    assert!(matches!(args.unwrap()[0], CommandArg::Mode(Mode::Insert)));
    let esc = KeyChord { code: KeyCode::Esc, modifiers: KeyModifiers::none() };
    let (name, args) = km.push_key(Mode::Insert, &esc).unwrap();
    assert_eq!(name, "set-mode");
    assert!(matches!(args.unwrap()[0], CommandArg::Mode(Mode::Normal)));
    assert_eq!(name_of(km.push_key(Mode::Visual, &esc)), Some("exit-visual-mode".to_string()));
    assert_eq!(name_of(km.push_key(Mode::Normal, &ch('g'))), None);
    assert_eq!(name_of(km.push_key(Mode::Normal, &ch('g'))), Some("goto-first-line".to_string()));
    let cx = KeyChord { code: KeyCode::Char('x'), modifiers: KeyModifiers::ctrl() };
    let cf = KeyChord { code: KeyCode::Char('f'), modifiers: KeyModifiers::ctrl() };
    assert_eq!(name_of(km.push_key(Mode::Normal, &cx)), None);
    assert_eq!(name_of(km.push_key(Mode::Normal, &cf)), Some("open-file".to_string()));
    // Super-x was bound twice; the later binding stands.
    let sx = KeyChord { code: KeyCode::Char('x'), modifiers: KeyModifiers::super_key() };
    assert_eq!(name_of(km.push_key(Mode::Normal, &sx)), Some("find-command".to_string()));
    let enter = KeyChord { code: KeyCode::Enter, modifiers: KeyModifiers::none() };
    assert_eq!(
        name_of(km.push_key(Mode::Command, &enter)),
        Some("execute-command-buffer".to_string())
    );
    assert_eq!(
        name_of(km.push_key(Mode::Minibuffer, &enter)),
        Some("minibuffer-accept".to_string())
    );
}
