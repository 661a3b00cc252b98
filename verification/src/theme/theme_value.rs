//! Themes as they are read from a file: a tree of values, turned into
//! colors and styles.

use crate::theme::{
    color_of_hex, color_views, default_colors, group_views, named_entry, with_entries,
    with_entry, Color, ColorPalette, HighlightGroup, Modifier, NamedColor, NamedGroup, Theme,
};
use vstd::prelude::*;

verus! {

/// What a value of a theme file is.
#[derive(Debug)]
pub enum ValueKind {
    Str(String),
    Table(Vec<ThemeEntry>),
    Array(Vec<ThemeValue>),
    Other,
}

/// A value of a theme file, together with the text that writes it.
#[derive(Debug)]
pub struct ThemeValue {
    pub kind: ValueKind,
    pub text: String,
}

/// A key of a table with its value.
#[derive(Debug)]
pub struct ThemeEntry {
    pub key: String,
    pub value: ThemeValue,
}

/// A style and whether reading it succeeded.
pub struct Styled {
    pub style: HighlightGroup,
    pub result: Result<(), Seq<char>>,
}

/// The text of a value that is a string.
pub open spec fn value_str(value: ThemeValue) -> Result<Seq<char>, Seq<char>> {
    match value.kind {
        ValueKind::Str(s) => Ok(s@),
        _ => Err("Unrecognized value: "@ + value.text@),
    }
}

/// The color that a value names in a palette.
pub open spec fn color_named(palette: Seq<(Seq<char>, Color)>, value: ThemeValue) -> Result<
    Color,
    Seq<char>,
> {
    match value_str(value) {
        Ok(name) => match named_entry(palette, name) {
            Some(color) => Ok(color),
            None => Err("Invalid Color: "@ + name),
        },
        Err(e) => Err(e),
    }
}

/// The attribute that a value names.
pub open spec fn modifier_named(value: ThemeValue) -> Result<Modifier, Seq<char>> {
    match value.kind {
        ValueKind::Str(s) if Modifier::named(s@) is Some => Ok(Modifier::named(s@)->0),
        _ => Err("Invalid modifier: "@ + value.text@),
    }
}

/// The style with the attributes that the values name, as far as they can be
/// read.
pub open spec fn with_modifiers(style: HighlightGroup, values: Seq<ThemeValue>) -> Styled
    decreases values.len(),
{
    if values.len() == 0 {
        Styled { style, result: Ok(()) }
    } else {
        match modifier_named(values[0]) {
            Ok(m) => with_modifiers(
                HighlightGroup { modifier: style.modifier.with(m), ..style },
                values.drop_first(),
            ),
            Err(e) => Styled { style, result: Err(e) },
        }
    }
}

/// The style with what one entry of a style table sets.
pub open spec fn with_attribute(
    palette: Seq<(Seq<char>, Color)>,
    style: HighlightGroup,
    entry: ThemeEntry,
) -> Styled {
    if entry.key@ == "fg"@ {
        match color_named(palette, entry.value) {
            Ok(c) => Styled { style: HighlightGroup { fg: Some(c), ..style }, result: Ok(()) },
            Err(e) => Styled { style, result: Err(e) },
        }
    } else if entry.key@ == "bg"@ {
        match color_named(palette, entry.value) {
            Ok(c) => Styled { style: HighlightGroup { bg: Some(c), ..style }, result: Ok(()) },
            Err(e) => Styled { style, result: Err(e) },
        }
    } else if entry.key@ == "modifiers"@ {
        match entry.value.kind {
            ValueKind::Array(values) => with_modifiers(style, values@),
            _ => Styled { style, result: Err("Modifiers should be an array"@) },
        }
    } else {
        Styled { style, result: Err("Invalid style attribute: "@ + entry.key@) }
    }
}

/// The style with what the entries of a style table set, up to the first
/// that cannot be read.
pub open spec fn with_attributes(
    palette: Seq<(Seq<char>, Color)>,
    style: HighlightGroup,
    entries: Seq<ThemeEntry>,
) -> Styled
    decreases entries.len(),
{
    if entries.len() == 0 {
        Styled { style, result: Ok(()) }
    } else {
        let first = with_attribute(palette, style, entries[0]);
        match first.result {
            Ok(_) => with_attributes(palette, first.style, entries.drop_first()),
            Err(_) => first,
        }
    }
}

/// The style that a value sets: a table sets what its entries say, any other
/// value names the foreground color.
pub open spec fn styled(palette: Seq<(Seq<char>, Color)>, style: HighlightGroup, value: ThemeValue) -> Styled {
    match value.kind {
        ValueKind::Table(entries) => with_attributes(palette, style, entries@),
        _ => match color_named(palette, value) {
            Ok(c) => Styled { style: HighlightGroup { fg: Some(c), ..style }, result: Ok(()) },
            Err(e) => Styled { style, result: Err(e) },
        },
    }
}

/// The text of a value that is a string.
pub fn parse_value_as_str(value: &ThemeValue) -> (text: Result<&String, String>)
    ensures
        match text {
            Ok(s) => value_str(*value) == Ok::<Seq<char>, Seq<char>>(s@),
            Err(e) => value_str(*value) == Err::<Seq<char>, Seq<char>>(e@),
        },
{
    match &value.kind {
        ValueKind::Str(s) => Ok(s),
        _ => Err(String::from_str("Unrecognized value: ").concat(value.text.as_str())),
    }
}

impl ColorPalette {
    /// The color that `value` names.
    pub fn parse_color(&self, value: &ThemeValue) -> (color: Result<Color, String>)
        ensures
            match color {
                Ok(c) => color_named(self@, *value) == Ok::<Color, Seq<char>>(c),
                Err(e) => color_named(self@, *value) == Err::<Color, Seq<char>>(e@),
            },
    {
        let name = parse_value_as_str(value)?;
        match self.get(name.as_str()) {
            Some(color) => Ok(color),
            None => Err(String::from_str("Invalid Color: ").concat(name.as_str())),
        }
    }

    /// The attribute that `value` names.
    pub fn parse_modifier(value: &ThemeValue) -> (modifier: Result<Modifier, String>)
        ensures
            match modifier {
                Ok(m) => modifier_named(*value) == Ok::<Modifier, Seq<char>>(m),
                Err(e) => modifier_named(*value) == Err::<Modifier, Seq<char>>(e@),
            },
    {
        match &value.kind {
            ValueKind::Str(s) => {
                match Modifier::from_str(s.as_str()) {
                    Some(m) => {
                        return Ok(m);
                    },
                    None => {},
                }
            },
            _ => {},
        }
        Err(String::from_str("Invalid modifier: ").concat(value.text.as_str()))
    }

    /// Adds the attributes that `values` name to `style`.
    fn parse_modifiers(style: &mut HighlightGroup, values: &Vec<ThemeValue>) -> (result: Result<
        (),
        String,
    >)
        ensures
            *final(style) == with_modifiers(*old(style), values@).style,
            match result {
                Ok(_) => with_modifiers(*old(style), values@).result is Ok,
                Err(e) => with_modifiers(*old(style), values@).result == Err::<(), Seq<char>>(e@),
            },
    {
        let mut i: usize = 0;
        assert(values@.subrange(0, values.len() as int) =~= values@);
        while i < values.len()
            invariant
                i <= values.len(),
                with_modifiers(*style, values@.subrange(i as int, values.len() as int))
                    == with_modifiers(*old(style), values@),
            decreases values.len() - i,
        {
            assert(values@.subrange(i as int, values.len() as int).drop_first()
                =~= values@.subrange(i + 1, values.len() as int));
            match ColorPalette::parse_modifier(&values[i]) {
                Ok(m) => {
                    *style = style.add_modifier(m);
                },
                Err(e) => {
                    return Err(e);
                },
            }
            i = i + 1;
        }
        Ok(())
    }

    /// Sets in `style` what one entry of a style table says.
    fn parse_attribute(&self, style: &mut HighlightGroup, entry: &ThemeEntry) -> (result: Result<
        (),
        String,
    >)
        ensures
            *final(style) == with_attribute(self@, *old(style), *entry).style,
            match result {
                Ok(_) => with_attribute(self@, *old(style), *entry).result is Ok,
                Err(e) => with_attribute(self@, *old(style), *entry).result == Err::<
                    (),
                    Seq<char>,
                >(e@),
            },
    {
        if entry.key == String::from_str("fg") {
            let color = self.parse_color(&entry.value)?;
            *style = style.fg(color);
            Ok(())
        } else if entry.key == String::from_str("bg") {
            let color = self.parse_color(&entry.value)?;
            *style = style.bg(color);
            Ok(())
        } else if entry.key == String::from_str("modifiers") {
            match &entry.value.kind {
                ValueKind::Array(values) => ColorPalette::parse_modifiers(style, values),
                _ => Err(String::from_str("Modifiers should be an array")),
            }
        } else {
            Err(String::from_str("Invalid style attribute: ").concat(entry.key.as_str()))
        }
    }

    /// Sets in `style` what `value` says.
    pub fn parse_style(&self, style: &mut HighlightGroup, value: &ThemeValue) -> (result: Result<
        (),
        String,
    >)
        ensures
            *final(style) == styled(self@, *old(style), *value).style,
            match result {
                Ok(_) => styled(self@, *old(style), *value).result is Ok,
                Err(e) => styled(self@, *old(style), *value).result == Err::<(), Seq<char>>(e@),
            },
    {
        match &value.kind {
            ValueKind::Table(entries) => {
                let mut i: usize = 0;
                assert(entries@.subrange(0, entries.len() as int) =~= entries@);
                while i < entries.len()
                    invariant
                        i <= entries.len(),
                        styled(self@, *old(style), *value) == with_attributes(
                            self@,
                            *old(style),
                            entries@,
                        ),
                        with_attributes(
                            self@,
                            *style,
                            entries@.subrange(i as int, entries.len() as int),
                        ) == with_attributes(self@, *old(style), entries@),
                    decreases entries.len() - i,
                {
                    assert(entries@.subrange(i as int, entries.len() as int).drop_first()
                        =~= entries@.subrange(i + 1, entries.len() as int));
                    assert(entries@.subrange(i as int, entries.len() as int)[0] == entries@[i as int]);
                    let ghost before = *style;
                    assert(with_attributes(
                        self@,
                        before,
                        entries@.subrange(i as int, entries.len() as int),
                    ) == match with_attribute(self@, before, entries@[i as int]).result {
                        Ok(_) => with_attributes(
                            self@,
                            with_attribute(self@, before, entries@[i as int]).style,
                            entries@.subrange(i + 1, entries.len() as int),
                        ),
                        Err(_) => with_attribute(self@, before, entries@[i as int]),
                    });
                    match self.parse_attribute(style, &entries[i]) {
                        Ok(_) => {},
                        Err(e) => {
                            return Err(e);
                        },
                    }
                    i = i + 1;
                }
                Ok(())
            },
            _ => {
                let color = self.parse_color(value)?;
                *style = style.fg(color);
                Ok(())
            },
        }
    }
}

/// The colors that the entries of a palette table write, or the complaint
/// about the first value that is no string.
pub open spec fn palette_colors(entries: Seq<ThemeEntry>) -> Result<
    Seq<(Seq<char>, Color)>,
    Seq<char>,
>
    decreases entries.len(),
{
    if entries.len() == 0 {
        Ok(Seq::empty())
    } else {
        match palette_colors(entries.drop_last()) {
            Ok(colors) => match value_str(entries.last().value) {
                Ok(hex) => Ok(colors.push((entries.last().key@, color_of_hex(hex)))),
                Err(e) => Err(e),
            },
            Err(e) => Err(e),
        }
    }
}

/// The palette that a value writes: the default colors with those of a
/// table put in, and the default colors alone for any other value.
pub open spec fn palette_of(value: ThemeValue) -> Result<Seq<(Seq<char>, Color)>, Seq<char>> {
    match value.kind {
        ValueKind::Table(entries) => match palette_colors(entries@) {
            Ok(colors) => Ok(with_entries(default_colors(), colors)),
            Err(e) => Err(e),
        },
        _ => Ok(default_colors()),
    }
}

/// The place of the first entry at or after `from` with the key `key`, or
/// the number of entries.
pub open spec fn key_index(entries: Seq<ThemeEntry>, key: Seq<char>, from: int) -> int
    decreases entries.len() - from,
{
    if from < 0 || from >= entries.len() {
        entries.len() as int
    } else if entries[from].key@ == key {
        from
    } else {
        key_index(entries, key, from + 1)
    }
}

/// The palette of a theme and the complaint about it, if there is one: that
/// of the entry `palette`, the default colors where it is missing or cannot
/// be read.
pub open spec fn theme_palette(entries: Seq<ThemeEntry>) -> (Seq<(Seq<char>, Color)>, Seq<Seq<char>>) {
    let i = key_index(entries, "palette"@, 0);
    if i < entries.len() {
        match palette_of(entries[i].value) {
            Ok(palette) => (palette, Seq::empty()),
            Err(e) => (default_colors(), seq![e]),
        }
    } else {
        (default_colors(), Seq::empty())
    }
}

/// The complaint about a style that cannot be read.
pub open spec fn style_warning(key: Seq<char>, error: Seq<char>) -> Seq<char> {
    "Failed to parse style for key \""@ + key + "\". "@ + error
}

/// The styles that the entries of a theme write, and the complaints about
/// those that cannot be read in full. The entry `palette` is no style.
pub open spec fn theme_styles(palette: Seq<(Seq<char>, Color)>, entries: Seq<ThemeEntry>) -> (
    Seq<(Seq<char>, HighlightGroup)>,
    Seq<Seq<char>>,
)
    decreases entries.len(),
{
    if entries.len() == 0 {
        (Seq::empty(), Seq::empty())
    } else {
        let rest = theme_styles(palette, entries.drop_last());
        let entry = entries.last();
        if entry.key@ == "palette"@ {
            rest
        } else {
            let read = styled(palette, HighlightGroup::plain(), entry.value);
            (
                with_entry(rest.0, entry.key@, read.style),
                match read.result {
                    Ok(_) => rest.1,
                    Err(e) => rest.1.push(style_warning(entry.key@, e)),
                },
            )
        }
    }
}

/// The views of a list of texts.
pub open spec fn warning_views(warnings: Seq<String>) -> Seq<Seq<char>> {
    warnings.map_values(|w: String| w@)
}

impl ColorPalette {
    /// The palette that `value` writes.
    pub fn from_value(value: &ThemeValue) -> (palette: Result<ColorPalette, String>)
        ensures
            match palette {
                Ok(p) => palette_of(*value) == Ok::<Seq<(Seq<char>, Color)>, Seq<char>>(p@),
                Err(e) => palette_of(*value) == Err::<Seq<(Seq<char>, Color)>, Seq<char>>(e@),
            },
    {
        match &value.kind {
            ValueKind::Table(entries) => {
                let mut colors: Vec<NamedColor> = Vec::new();
                let mut i: usize = 0;
                assert(entries@.take(0) =~= Seq::<ThemeEntry>::empty());
                assert(color_views(colors@) =~= Seq::<(Seq<char>, Color)>::empty());
                while i < entries.len()
                    invariant
                        i <= entries.len(),
                        palette_of(*value) == match palette_colors(entries@) {
                            Ok(colors) => Ok::<Seq<(Seq<char>, Color)>, Seq<char>>(
                                with_entries(default_colors(), colors),
                            ),
                            Err(e) => Err(e),
                        },
                        palette_colors(entries@.take(i as int)) == Ok::<
                            Seq<(Seq<char>, Color)>,
                            Seq<char>,
                        >(color_views(colors@)),
                    decreases entries.len() - i,
                {
                    proof {
                        assert(entries@.take(i + 1).drop_last() =~= entries@.take(i as int));
                        assert(entries@.take(i + 1).last() == entries@[i as int]);
                    }
                    match parse_value_as_str(&entries[i].value) {
                        Ok(hex) => {
                            let ghost before = color_views(colors@);
                            colors.push(
                                NamedColor {
                                    name: entries[i].key.clone(),
                                    color: Color::from_hex_string(hex.as_str()),
                                },
                            );
                            assert(color_views(colors@) =~= before.push(
                                (entries@[i as int].key@, color_of_hex(hex@)),
                            ));
                        },
                        Err(e) => {
                            proof {
                                lemma_palette_error_stays(entries@, i + 1);
                            }
                            return Err(e);
                        },
                    }
                    i = i + 1;
                }
                assert(entries@.take(entries.len() as int) =~= entries@);
                Ok(ColorPalette::new(colors))
            },
            _ => Ok(ColorPalette::default()),
        }
    }
}

/// A complaint about the first `k` entries of a palette is the complaint
/// about all of them.
pub proof fn lemma_palette_error_stays(entries: Seq<ThemeEntry>, k: int)
    requires
        0 <= k <= entries.len(),
        palette_colors(entries.take(k)) is Err,
    ensures
        palette_colors(entries) == palette_colors(entries.take(k)),
    decreases entries.len() - k,
{
    if k < entries.len() {
        assert(entries.take(k + 1).drop_last() =~= entries.take(k));
        lemma_palette_error_stays(entries, k + 1);
    } else {
        assert(entries.take(k) =~= entries);
    }
}

/// The place of the entry with the key `key`, or the number of entries.
fn find_key(entries: &Vec<ThemeEntry>, key: &str) -> (i: usize)
    ensures
        i == key_index(entries@, key@, 0),
        i <= entries.len(),
{
    let wanted = String::from_str(key);
    let mut i: usize = 0;
    while i < entries.len()
        invariant
            i <= entries.len(),
            wanted@ == key@,
            key_index(entries@, key@, i as int) == key_index(entries@, key@, 0),
        decreases entries.len() - i,
    {
        if entries[i].key == wanted {
            return i;
        }
        i = i + 1;
    }
    i
}

/// The place of the group `name`, or the number of groups.
fn group_index(groups: &Vec<NamedGroup>, name: &str) -> (i: usize)
    ensures
        i == crate::theme::name_index(group_views(groups@), name@, 0),
        i <= groups.len(),
{
    let wanted = String::from_str(name);
    let ghost entries = group_views(groups@);
    let mut i: usize = 0;
    while i < groups.len()
        invariant
            i <= groups.len(),
            wanted@ == name@,
            entries == group_views(groups@),
            crate::theme::name_index(entries, name@, i as int) == crate::theme::name_index(
                entries,
                name@,
                0,
            ),
        decreases groups.len() - i,
    {
        assert(entries[i as int] == (groups@[i as int].name@, groups@[i as int].group));
        if groups[i].name == wanted {
            return i;
        }
        i = i + 1;
    }
    i
}

/// Puts `group` under `name`.
fn set_group(groups: &mut Vec<NamedGroup>, name: &str, group: HighlightGroup)
    ensures
        group_views(final(groups)@) == with_entry(group_views(old(groups)@), name@, group),
{
    let i = group_index(groups, name);
    let ghost entries = group_views(groups@);
    let entry = NamedGroup { name: String::from_str(name), group };
    if i < groups.len() {
        groups[i] = entry;
        assert(group_views(groups@) =~= entries.update(i as int, (name@, group)));
    } else {
        groups.push(entry);
        assert(group_views(groups@) =~= entries.push((name@, group)));
    }
}

/// Reads the palette of a theme.
fn read_palette(entries: &Vec<ThemeEntry>) -> (read: (ColorPalette, Vec<String>))
    ensures
        read.0@ == theme_palette(entries@).0,
        warning_views(read.1@) == theme_palette(entries@).1,
{
    let mut warnings: Vec<String> = Vec::new();
    assert(warning_views(warnings@) =~= Seq::<Seq<char>>::empty());
    let p = find_key(entries, "palette");
    if p < entries.len() {
        match ColorPalette::from_value(&entries[p].value) {
            Ok(colors) => (colors, warnings),
            Err(e) => {
                let ghost text = e@;
                warnings.push(e);
                assert(warning_views(warnings@) =~= seq![text]);
                (ColorPalette::default(), warnings)
            },
        }
    } else {
        (ColorPalette::default(), warnings)
    }
}

/// Reads the styles of a theme.
fn read_styles(colors: &ColorPalette, entries: &Vec<ThemeEntry>) -> (read: (
    Vec<NamedGroup>,
    Vec<String>,
))
    ensures
        group_views(read.0@) == theme_styles(colors@, entries@).0,
        warning_views(read.1@) == theme_styles(colors@, entries@).1,
{
    let mut groups: Vec<NamedGroup> = Vec::new();
    let mut warnings: Vec<String> = Vec::new();
    assert(warning_views(warnings@) =~= Seq::<Seq<char>>::empty());
    assert(group_views(groups@) =~= Seq::<(Seq<char>, HighlightGroup)>::empty());
    let mut i: usize = 0;
    assert(entries@.take(0) =~= Seq::<ThemeEntry>::empty());
    while i < entries.len()
        invariant
            i <= entries.len(),
            group_views(groups@) == theme_styles(colors@, entries@.take(i as int)).0,
            warning_views(warnings@) == theme_styles(colors@, entries@.take(i as int)).1,
        decreases entries.len() - i,
    {
        proof {
            assert(entries@.take(i + 1).drop_last() =~= entries@.take(i as int));
            assert(entries@.take(i + 1).last() == entries@[i as int]);
        }
        let entry = &entries[i];
        if !(entry.key == String::from_str("palette")) {
            let mut style = HighlightGroup::new();
            match colors.parse_style(&mut style, &entry.value) {
                Ok(_) => {},
                Err(err) => {
                    let mut text = String::from_str("Failed to parse style for key \"");
                    text.append(entry.key.as_str());
                    text.append("\". ");
                    text.append(err.as_str());
                    let ghost before = warning_views(warnings@);
                    let ghost added = text@;
                    warnings.push(text);
                    assert(warning_views(warnings@) =~= before.push(added));
                    assert(added =~= style_warning(entry.key@, err@));
                },
            }
            set_group(&mut groups, entry.key.as_str(), style);
        }
        i = i + 1;
    }
    assert(entries@.take(entries.len() as int) =~= entries@);
    (groups, warnings)
}

impl Theme {
    /// The theme that a value writes, and the complaints about what cannot
    /// be read. A value that is no table gives the theme without styles.
    pub fn from_toml(value: &ThemeValue) -> (read: (Theme, Vec<String>))
        ensures
            read.0.name@ == "Default"@,
            match value.kind {
                ValueKind::Table(entries) => {
                    &&& read.0.colors@ == theme_palette(entries@).0
                    &&& group_views(read.0.groups@) == theme_styles(
                        theme_palette(entries@).0,
                        entries@,
                    ).0
                    &&& warning_views(read.1@) == theme_palette(entries@).1 + theme_styles(
                        theme_palette(entries@).0,
                        entries@,
                    ).1
                },
                _ => {
                    &&& read.0.colors@ == default_colors()
                    &&& read.0.groups@.len() == 0
                    &&& read.1@.len() == 0
                },
            },
    {
        match &value.kind {
            ValueKind::Table(entries) => {
                let (colors, mut warnings) = read_palette(entries);
                let (groups, mut more) = read_styles(&colors, entries);
                let ghost first = warning_views(warnings@);
                let ghost second = warning_views(more@);
                warnings.append(&mut more);
                assert(warning_views(warnings@) =~= first + second);
                (Theme { name: String::from_str("Default"), colors, groups }, warnings)
            },
            _ => (Theme::default(), Vec::new()),
        }
    }
}

} // verus!
