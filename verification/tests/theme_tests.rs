use benihime::theme::base_color::BaseColors;
use benihime::theme::theme_value::{parse_value_as_str, ThemeEntry, ThemeValue, ValueKind};
use benihime::theme::{Color, ColorPalette, HighlightGroup, Modifier, NamedColor, NamedGroup, Theme};

fn s(text: &str) -> ThemeValue {
    ThemeValue { kind: ValueKind::Str(text.to_string()), text: format!("\"{}\"", text) }
}

fn table(entries: Vec<(&str, ThemeValue)>) -> ThemeValue {
    ThemeValue {
        kind: ValueKind::Table(
            entries
                .into_iter()
                .map(|(k, v)| ThemeEntry { key: k.to_string(), value: v })
                .collect(),
        ),
        text: "{ .. }".to_string(),
    }
}

fn array(values: Vec<ThemeValue>) -> ThemeValue {
    ThemeValue { kind: ValueKind::Array(values), text: "[ .. ]".to_string() }
}

fn number(text: &str) -> ThemeValue {
    ThemeValue { kind: ValueKind::Other, text: text.to_string() }
}

#[test]
fn colors_from_parts_and_hex() {
    assert_eq!(Color::from_rgb(1, 2, 3), Color { r: 1, g: 2, b: 3, a: 255 });
    assert_eq!(Color::from_rgba(1, 2, 3, 4), Color { r: 1, g: 2, b: 3, a: 4 });
    assert_eq!(Color::from_hex_string("#fb4934"), Color { r: 0xfb, g: 0x49, b: 0x34, a: 255 });
    assert_eq!(Color::from_hex_string("#FFffFFtrailing"), Color { r: 255, g: 255, b: 255, a: 255 });
    assert_eq!(Color::from_hex_string("#+a+b+c"), Color { r: 10, g: 11, b: 12, a: 255 });
    let none = Color { r: 0, g: 0, b: 0, a: 0 };
    assert_eq!(Color::from_hex_string("#fb493"), none);
    assert_eq!(Color::from_hex_string(""), none);
    assert_eq!(Color::from_hex_string("#gg0000"), none);
    assert_eq!(Color::from_hex_string("##62693e"), none);
    assert_eq!(Color::from_hex_string("#-10000"), none);
    for text in ["#000000", "#1a2B3c", "#+1+2+3", "#0x1234", "# 12345"] {
        let expected = match (
            u8::from_str_radix(&text[1..3], 16),
            u8::from_str_radix(&text[3..5], 16),
            u8::from_str_radix(&text[5..7], 16),
        ) {
            (Ok(r), Ok(g), Ok(b)) => Color::from_rgb(r, g, b),
            _ => none,
        };
        assert_eq!(Color::from_hex_string(text), expected, "{}", text);
    }
}

#[test]
fn modifiers_are_sets_of_bits() {
    let mut m = Modifier::empty();
    assert_eq!(m.bits, 0);
    m.insert(Modifier::bold());
    m.insert(Modifier::crossed_out());
    assert_eq!(m.bits, 5);
    assert!(m.contains(Modifier::bold()));
    assert!(!m.contains(Modifier::italic()));
    m.remove(Modifier::bold());
    m.remove(Modifier::italic());
    assert_eq!(m, Modifier::crossed_out());
    assert_eq!(Modifier::from_str("bold"), Some(Modifier::bold()));
    assert_eq!(Modifier::from_str("italic"), Some(Modifier::italic()));
    assert_eq!(Modifier::from_str("crossed_out"), Some(Modifier::crossed_out()));
    assert_eq!(Modifier::from_str("Bold"), None);
}

#[test]
fn highlight_groups_build_and_patch() {
    let red = Color::from_rgb(255, 0, 0);
    let blue = Color::from_rgb(0, 0, 255);
    let base = HighlightGroup::new().fg(red).add_modifier(Modifier::bold());
    assert_eq!(base, HighlightGroup { fg: Some(red), bg: None, modifier: Modifier { bits: 1 } });
    let over = HighlightGroup::new().bg(blue).add_modifier(Modifier::italic());
    assert_eq!(
        base.patch(over),
        HighlightGroup { fg: Some(red), bg: Some(blue), modifier: Modifier { bits: 3 } }
    );
    assert_eq!(over.patch(base).fg, Some(red));
    assert_eq!(base.patch(HighlightGroup::new().fg(blue)).fg, Some(blue));
    assert_eq!(base.remove_modifier(Modifier::bold()).modifier, Modifier::empty());
    assert_eq!(base.remove_modifier(Modifier::italic()).modifier, Modifier::bold());
}

#[test]
fn palette_has_defaults_and_overrides() {
    let palette = ColorPalette::default();
    assert_eq!(palette.palette.len(), 17);
    assert_eq!(palette.get("red"), Some(Color::from_rgb(0xfb, 0x49, 0x34)));
    assert_eq!(palette.get("default"), Some(Color { r: 0, g: 0, b: 0, a: 0 }));
    assert_eq!(palette.get("green"), Some(Color { r: 0, g: 0, b: 0, a: 0 }));
    assert_eq!(palette.get("pink"), None);
    let mine = ColorPalette::new(vec![
        NamedColor { name: "red".to_string(), color: Color::from_rgb(1, 1, 1) },
        NamedColor { name: "pink".to_string(), color: Color::from_rgb(2, 2, 2) },
        NamedColor { name: "pink".to_string(), color: Color::from_rgb(3, 3, 3) },
    ]);
    assert_eq!(mine.palette.len(), 18);
    assert_eq!(mine.get("red"), Some(Color::from_rgb(1, 1, 1)));
    assert_eq!(mine.get("pink"), Some(Color::from_rgb(3, 3, 3)));
    assert_eq!(mine.get("blue"), palette.get("blue"));
}

#[test]
fn theme_resolves_scopes_upwards() {
    let mut theme = Theme::default();
    assert_eq!(theme.name, "Default");
    let a = HighlightGroup::new().fg(Color::from_rgb(1, 0, 0));
    let ab = HighlightGroup::new().fg(Color::from_rgb(2, 0, 0));
    theme.groups.push(NamedGroup { name: "ui".to_string(), group: a });
    theme.groups.push(NamedGroup { name: "ui.menu".to_string(), group: ab });
    assert_eq!(theme.try_get("ui"), Some(a));
    assert_eq!(theme.try_get("ui.menu"), Some(ab));
    assert_eq!(theme.try_get("ui.menu.selected"), Some(ab));
    assert_eq!(theme.try_get("ui.text.focus"), Some(a));
    assert_eq!(theme.try_get("u"), None);
    assert_eq!(theme.try_get("uix.menu"), None);
    assert_eq!(theme.try_get(""), None);
    assert_eq!(theme.get("ui.menu"), ab);
    assert_eq!(theme.get("warning"), HighlightGroup::new());
}

#[test]
fn styles_are_read_from_values() {
    let palette = ColorPalette::default();
    assert_eq!(palette.parse_color(&s("red")), Ok(Color::from_rgb(0xfb, 0x49, 0x34)));
    assert_eq!(palette.parse_color(&s("nope")), Err("Invalid Color: nope".to_string()));
    assert_eq!(palette.parse_color(&number("5")), Err("Unrecognized value: 5".to_string()));
    assert_eq!(ColorPalette::parse_modifier(&s("italic")), Ok(Modifier::italic()));
    assert_eq!(
        ColorPalette::parse_modifier(&s("wavy")),
        Err("Invalid modifier: \"wavy\"".to_string())
    );
    assert_eq!(parse_value_as_str(&s("x")).unwrap(), "x");
    let mut style = HighlightGroup::new();
    assert_eq!(palette.parse_style(&mut style, &s("blue")), Ok(()));
    assert_eq!(style.fg, palette.get("blue"));
    let mut style = HighlightGroup::new();
    let value = table(vec![
        ("fg", s("red")),
        ("bg", s("black")),
        ("modifiers", array(vec![s("bold"), s("italic")])),
    ]);
    assert_eq!(palette.parse_style(&mut style, &value), Ok(()));
    assert_eq!(
        style,
        HighlightGroup {
            fg: palette.get("red"),
            bg: palette.get("black"),
            modifier: Modifier { bits: 3 },
        }
    );
    // What was read before a mistake stays.
    let mut style = HighlightGroup::new();
    let value = table(vec![("fg", s("red")), ("underline", s("x")), ("bg", s("black"))]);
    assert_eq!(
        palette.parse_style(&mut style, &value),
        Err("Invalid style attribute: underline".to_string())
    );
    assert_eq!(style, HighlightGroup::new().fg(palette.get("red").unwrap()));
    let mut style = HighlightGroup::new();
    assert_eq!(
        palette.parse_style(&mut style, &table(vec![("modifiers", s("bold"))])),
        Err("Modifiers should be an array".to_string())
    );
    let mut style = HighlightGroup::new();
    assert_eq!(
        palette.parse_style(&mut style, &table(vec![("modifiers", array(vec![s("bold"), s("x")]))])),
        Err("Invalid modifier: \"x\"".to_string())
    );
    assert_eq!(style.modifier, Modifier::bold());
}

#[test]
fn themes_are_read_with_warnings() {
    let value = table(vec![
        ("ui.text", s("accent")),
        ("palette", table(vec![("accent", s("#010203")), ("red", s("#040506"))])),
        ("error", table(vec![("fg", s("red")), ("modifiers", array(vec![s("bold")]))])),
        ("broken", s("missing")),
    ]);
    let (theme, warnings) = Theme::from_toml(&value);
    assert_eq!(theme.name, "Default");
    assert_eq!(theme.colors.get("accent"), Some(Color::from_rgb(1, 2, 3)));
    assert_eq!(theme.colors.get("red"), Some(Color::from_rgb(4, 5, 6)));
    assert_eq!(theme.groups.len(), 3);
    assert_eq!(theme.get("ui.text.focus").fg, Some(Color::from_rgb(1, 2, 3)));
    assert_eq!(theme.get("error").fg, Some(Color::from_rgb(4, 5, 6)));
    assert_eq!(theme.get("error").modifier, Modifier::bold());
    assert_eq!(theme.try_get("broken"), Some(HighlightGroup::new()));
    assert_eq!(
        warnings,
        vec!["Failed to parse style for key \"broken\". Invalid Color: missing".to_string()]
    );
    // A palette that cannot be read is replaced by the default colors.
    let value = table(vec![("palette", table(vec![("x", number("1"))])), ("a", s("red"))]);
    let (theme, warnings) = Theme::from_toml(&value);
    assert_eq!(warnings, vec!["Unrecognized value: 1".to_string()]);
    assert_eq!(theme.get("a").fg, Some(Color::from_rgb(0xfb, 0x49, 0x34)));
    let (theme, warnings) = Theme::from_toml(&s("not a table"));
    assert!(theme.groups.is_empty());
    assert!(warnings.is_empty());
    assert_eq!(ColorPalette::from_value(&s("x")).unwrap().palette.len(), 17);
}

#[test]
fn base_colors_are_fixed() {
    let base = BaseColors::default();
    assert_eq!(base.bg0, Color::from_rgb(29, 32, 33));
    assert_eq!(base.fg1, Color::from_rgb(255, 255, 255));
    assert_eq!(base.orange, Color::from_rgb(214, 93, 14));
    assert_eq!(base.accent0, Color::from_rgb(131, 139, 131));
}
