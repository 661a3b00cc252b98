//! Colors and the styles of highlight groups.

pub mod base_color;
pub mod theme_value;

use crate::parse::chars_of;
use vstd::prelude::*;

verus! {

/// A color: red, green, blue and opacity.
#[derive(Clone, Copy, Debug, PartialEq, Eq, Structural)]
pub struct Color {
    pub r: u8,
    pub g: u8,
    pub b: u8,
    pub a: u8,
}

/// The value of a hexadecimal digit.
pub open spec fn hex_digit(c: char) -> Option<nat> {
    if '0' <= c <= '9' {
        Some((c as nat - '0' as nat) as nat)
    } else if 'a' <= c <= 'f' {
        Some((c as nat - 'a' as nat + 10) as nat)
    } else if 'A' <= c <= 'F' {
        Some((c as nat - 'A' as nat + 10) as nat)
    } else {
        None
    }
}

/// The byte that two characters write in hexadecimal: two digits, or a plus
/// sign and one digit.
pub open spec fn hex_byte(high: char, low: char) -> Option<u8> {
    match (hex_digit(high), hex_digit(low)) {
        (Some(h), Some(l)) => Some((h * 16 + l) as u8),
        (None, Some(l)) => if high == '+' {
            Some(l as u8)
        } else {
            None
        },
        _ => None,
    }
}

/// The color without anything in it.
pub open spec fn no_color() -> Color {
    Color { r: 0, g: 0, b: 0, a: 0 }
}

/// The color that a text like `#rrggbb` writes; the color without anything
/// in it where the text is shorter or no bytes stand in it.
pub open spec fn color_of_hex(s: Seq<char>) -> Color {
    if s.len() >= 7 {
        match (hex_byte(s[1], s[2]), hex_byte(s[3], s[4]), hex_byte(s[5], s[6])) {
            (Some(r), Some(g), Some(b)) => Color { r, g, b, a: 255 },
            _ => no_color(),
        }
    } else {
        no_color()
    }
}

/// The value of a hexadecimal digit.
fn parse_hex_digit(c: char) -> (value: Option<u8>)
    ensures
        match value {
            Some(v) => hex_digit(c) == Some(v as nat),
            None => hex_digit(c) is None,
        },
        value is Some ==> value->0 < 16,
{
    if '0' <= c && c <= '9' {
        Some((c as u32 - '0' as u32) as u8)
    } else if 'a' <= c && c <= 'f' {
        Some((c as u32 - 'a' as u32 + 10) as u8)
    } else if 'A' <= c && c <= 'F' {
        Some((c as u32 - 'A' as u32 + 10) as u8)
    } else {
        None
    }
}

/// The byte that two characters write in hexadecimal.
fn parse_hex_byte(high: char, low: char) -> (value: Option<u8>)
    ensures
        value == hex_byte(high, low),
{
    match (parse_hex_digit(high), parse_hex_digit(low)) {
        (Some(h), Some(l)) => Some(h * 16 + l),
        (None, Some(l)) => if high == '+' {
            Some(l)
        } else {
            None
        },
        _ => None,
    }
}

impl Color {
    pub fn from_rgb(r: u8, g: u8, b: u8) -> (color: Color)
        ensures
            color == (Color { r, g, b, a: 255 }),
    {
        Color { r, g, b, a: 255 }
    }

    pub fn from_rgba(r: u8, g: u8, b: u8, a: u8) -> (color: Color)
        ensures
            color == (Color { r, g, b, a }),
    {
        Color { r, g, b, a }
    }

    /// The color that a text like `#rrggbb` writes.
    pub fn from_hex_string(s: &str) -> (color: Color)
        ensures
            color == color_of_hex(s@),
    {
        let chars = chars_of(s);
        if chars.len() >= 7 {
            match (
                parse_hex_byte(chars[1], chars[2]),
                parse_hex_byte(chars[3], chars[4]),
                parse_hex_byte(chars[5], chars[6]),
            ) {
                (Some(red), Some(green), Some(blue)) => {
                    return Color::from_rgb(red, green, blue);
                },
                _ => {},
            }
        }
        Color { r: 0, g: 0, b: 0, a: 0 }
    }
}

/// The bit of bold text.
pub const BOLD: u16 = 1;

/// The bit of italic text.
pub const ITALIC: u16 = 2;

/// The bit of crossed-out text.
pub const CROSSED_OUT: u16 = 4;

/// A set of text attributes, one bit each.
#[derive(PartialEq, Eq, Structural, Debug, Clone, Copy)]
pub struct Modifier {
    pub bits: u16,
}

impl Modifier {
    /// No attribute.
    pub fn empty() -> (modifier: Modifier)
        ensures
            modifier.bits == 0,
    {
        Modifier { bits: 0 }
    }

    /// Bold.
    pub fn bold() -> (modifier: Modifier)
        ensures
            modifier.bits == BOLD,
    {
        Modifier { bits: BOLD }
    }

    /// Italic.
    pub fn italic() -> (modifier: Modifier)
        ensures
            modifier.bits == ITALIC,
    {
        Modifier { bits: ITALIC }
    }

    /// Crossed out.
    pub fn crossed_out() -> (modifier: Modifier)
        ensures
            modifier.bits == CROSSED_OUT,
    {
        Modifier { bits: CROSSED_OUT }
    }

    /// The attributes of both sets.
    pub open spec fn with(self, other: Modifier) -> Modifier {
        Modifier { bits: self.bits | other.bits }
    }

    /// The attributes of this set that are not in `other`.
    pub open spec fn without(self, other: Modifier) -> Modifier {
        Modifier { bits: self.bits & !other.bits }
    }

    /// Adds the attributes of `other`.
    pub fn insert(&mut self, other: Modifier)
        ensures
            *final(self) == old(self).with(other),
    {
        self.bits = self.bits | other.bits;
    }

    /// Takes the attributes of `other` away.
    pub fn remove(&mut self, other: Modifier)
        ensures
            *final(self) == old(self).without(other),
    {
        self.bits = self.bits & !other.bits;
    }

    /// Whether all attributes of `other` are in this set.
    pub fn contains(&self, other: Modifier) -> (b: bool)
        ensures
            b == (self.bits & other.bits == other.bits),
    {
        self.bits & other.bits == other.bits
    }

    /// The attribute with the given name.
    pub open spec fn named(name: Seq<char>) -> Option<Modifier> {
        if name == "bold"@ {
            Some(Modifier { bits: BOLD })
        } else if name == "italic"@ {
            Some(Modifier { bits: ITALIC })
        } else if name == "crossed_out"@ {
            Some(Modifier { bits: CROSSED_OUT })
        } else {
            None
        }
    }

    /// The attribute with the given name.
    pub fn from_str(modifier: &str) -> (named: Option<Modifier>)
        ensures
            named == Modifier::named(modifier@),
    {
        let name = String::from_str(modifier);
        if name == String::from_str("bold") {
            Some(Modifier::bold())
        } else if name == String::from_str("italic") {
            Some(Modifier::italic())
        } else if name == String::from_str("crossed_out") {
            Some(Modifier::crossed_out())
        } else {
            None
        }
    }
}

/// The style of a highlight group.
#[derive(Debug, Copy, Clone, PartialEq, Eq, Structural)]
pub struct HighlightGroup {
    pub fg: Option<Color>,
    pub bg: Option<Color>,
    pub modifier: Modifier,
}

impl HighlightGroup {
    /// The style without colors and attributes.
    pub open spec fn plain() -> HighlightGroup {
        HighlightGroup { fg: None, bg: None, modifier: Modifier { bits: 0 } }
    }

    /// This style with what `other` sets laid over it: the colors of `other`
    /// where it has them, and the attributes of both.
    pub open spec fn patched(self, other: HighlightGroup) -> HighlightGroup {
        HighlightGroup {
            fg: if other.fg is Some {
                other.fg
            } else {
                self.fg
            },
            bg: if other.bg is Some {
                other.bg
            } else {
                self.bg
            },
            modifier: self.modifier.with(other.modifier),
        }
    }

    pub fn new() -> (group: HighlightGroup)
        ensures
            group == HighlightGroup::plain(),
    {
        HighlightGroup { fg: None, bg: None, modifier: Modifier::empty() }
    }

    pub fn fg(self, color: Color) -> (group: HighlightGroup)
        ensures
            group == (HighlightGroup { fg: Some(color), ..self }),
    {
        HighlightGroup { fg: Some(color), bg: self.bg, modifier: self.modifier }
    }

    pub fn bg(self, color: Color) -> (group: HighlightGroup)
        ensures
            group == (HighlightGroup { bg: Some(color), ..self }),
    {
        HighlightGroup { fg: self.fg, bg: Some(color), modifier: self.modifier }
    }

    pub fn add_modifier(self, modifier: Modifier) -> (group: HighlightGroup)
        ensures
            group == (HighlightGroup { modifier: self.modifier.with(modifier), ..self }),
    {
        let mut bits = self.modifier;
        bits.insert(modifier);
        HighlightGroup { fg: self.fg, bg: self.bg, modifier: bits }
    }

    pub fn remove_modifier(self, modifier: Modifier) -> (group: HighlightGroup)
        ensures
            group == (HighlightGroup { modifier: self.modifier.without(modifier), ..self }),
    {
        let mut bits = self.modifier;
        bits.remove(modifier);
        HighlightGroup { fg: self.fg, bg: self.bg, modifier: bits }
    }

    pub fn patch(self, other: HighlightGroup) -> (group: HighlightGroup)
        ensures
            group == self.patched(other),
    {
        let mut bits = self.modifier;
        bits.insert(other.modifier);
        HighlightGroup {
            fg: match other.fg {
                Some(c) => Some(c),
                None => self.fg,
            },
            bg: match other.bg {
                Some(c) => Some(c),
                None => self.bg,
            },
            modifier: bits,
        }
    }
}

/// A color under its name.
#[derive(Debug, Clone)]
pub struct NamedColor {
    pub name: String,
    pub color: Color,
}

/// A style under the name of its scope.
#[derive(Debug, Clone)]
pub struct NamedGroup {
    pub name: String,
    pub group: HighlightGroup,
}

/// The colors that a theme names.
#[derive(Debug, Clone)]
pub struct ColorPalette {
    pub palette: Vec<NamedColor>,
}

/// The names and colors of a palette.
pub open spec fn color_views(colors: Seq<NamedColor>) -> Seq<(Seq<char>, Color)> {
    colors.map_values(|c: NamedColor| (c.name@, c.color))
}

/// The names and styles of the groups of a theme.
pub open spec fn group_views(groups: Seq<NamedGroup>) -> Seq<(Seq<char>, HighlightGroup)> {
    groups.map_values(|g: NamedGroup| (g.name@, g.group))
}

/// The place of the first entry at or after `from` under `name`, or the
/// number of entries.
pub open spec fn name_index<T>(entries: Seq<(Seq<char>, T)>, name: Seq<char>, from: int) -> int
    decreases entries.len() - from,
{
    if from < 0 || from >= entries.len() {
        entries.len() as int
    } else if entries[from].0 == name {
        from
    } else {
        name_index(entries, name, from + 1)
    }
}

/// What stands under `name`.
pub open spec fn named_entry<T>(entries: Seq<(Seq<char>, T)>, name: Seq<char>) -> Option<T> {
    let i = name_index(entries, name, 0);
    if i < entries.len() {
        Some(entries[i].1)
    } else {
        None
    }
}

/// The entries with `value` under `name`, in place of what was there.
pub open spec fn with_entry<T>(entries: Seq<(Seq<char>, T)>, name: Seq<char>, value: T) -> Seq<
    (Seq<char>, T),
> {
    let i = name_index(entries, name, 0);
    if i < entries.len() {
        entries.update(i, (name, value))
    } else {
        entries.push((name, value))
    }
}

/// The entries with those of `more` put in, one after the other.
pub open spec fn with_entries<T>(entries: Seq<(Seq<char>, T)>, more: Seq<(Seq<char>, T)>) -> Seq<
    (Seq<char>, T),
>
    decreases more.len(),
{
    if more.len() == 0 {
        entries
    } else {
        with_entry(with_entries(entries, more.drop_last()), more.last().0, more.last().1)
    }
}

/// The colors that every palette has.
pub open spec fn default_colors() -> Seq<(Seq<char>, Color)> {
    seq![
        ("default"@, no_color()),
        ("black"@, color_of_hex("#282828"@)),
        ("red"@, color_of_hex("#fb4934"@)),
        ("green"@, color_of_hex("##62693e"@)),
        ("yellow"@, color_of_hex("#d79921"@)),
        ("blue"@, color_of_hex("#458588"@)),
        ("magenta"@, color_of_hex("#b16286"@)),
        ("cyan"@, color_of_hex("#689d6a"@)),
        ("gray"@, color_of_hex("#928374"@)),
        ("light-red"@, color_of_hex("#fc9487"@)),
        ("light-green"@, color_of_hex("#d5d39b"@)),
        ("light-yellow"@, color_of_hex("#fabd2f"@)),
        ("light-blue"@, color_of_hex("#83a598"@)),
        ("light-magenta"@, color_of_hex("#d3869b"@)),
        ("light-cyan"@, color_of_hex("#8ec07c"@)),
        ("light-gray"@, color_of_hex("#3c3836"@)),
        ("white"@, color_of_hex("#f9f5d7"@)),
    ]
}

impl View for ColorPalette {
    type V = Seq<(Seq<char>, Color)>;

    open spec fn view(&self) -> Seq<(Seq<char>, Color)> {
        color_views(self.palette@)
    }
}

impl ColorPalette {
    /// The palette of the default colors.
    pub fn default() -> (palette: ColorPalette)
        ensures
            palette@ == default_colors(),
    {
        let mut palette: Vec<NamedColor> = Vec::new();
        palette.push(
            NamedColor { name: String::from_str("default"), color: Color { r: 0, g: 0, b: 0, a: 0 } },
        );
        palette.push(NamedColor { name: String::from_str("black"), color: Color::from_hex_string("#282828") });
        palette.push(NamedColor { name: String::from_str("red"), color: Color::from_hex_string("#fb4934") });
        palette.push(NamedColor { name: String::from_str("green"), color: Color::from_hex_string("##62693e") });
        palette.push(NamedColor { name: String::from_str("yellow"), color: Color::from_hex_string("#d79921") });
        palette.push(NamedColor { name: String::from_str("blue"), color: Color::from_hex_string("#458588") });
        palette.push(NamedColor { name: String::from_str("magenta"), color: Color::from_hex_string("#b16286") });
        palette.push(NamedColor { name: String::from_str("cyan"), color: Color::from_hex_string("#689d6a") });
        palette.push(NamedColor { name: String::from_str("gray"), color: Color::from_hex_string("#928374") });
        palette.push(NamedColor { name: String::from_str("light-red"), color: Color::from_hex_string("#fc9487") });
        palette.push(NamedColor { name: String::from_str("light-green"), color: Color::from_hex_string("#d5d39b") });
        palette.push(NamedColor { name: String::from_str("light-yellow"), color: Color::from_hex_string("#fabd2f") });
        palette.push(NamedColor { name: String::from_str("light-blue"), color: Color::from_hex_string("#83a598") });
        palette.push(NamedColor { name: String::from_str("light-magenta"), color: Color::from_hex_string("#d3869b") });
        palette.push(NamedColor { name: String::from_str("light-cyan"), color: Color::from_hex_string("#8ec07c") });
        palette.push(NamedColor { name: String::from_str("light-gray"), color: Color::from_hex_string("#3c3836") });
        palette.push(NamedColor { name: String::from_str("white"), color: Color::from_hex_string("#f9f5d7") });
        let palette = ColorPalette { palette };
        assert(palette@ =~= default_colors());
        palette
    }

    /// The place of the color `name`, or the number of colors.
    fn index_of(&self, name: &str) -> (i: usize)
        ensures
            i == name_index(self@, name@, 0),
            i <= self.palette.len(),
    {
        let wanted = String::from_str(name);
        let mut i: usize = 0;
        while i < self.palette.len()
            invariant
                i <= self.palette.len(),
                wanted@ == name@,
                name_index(self@, name@, i as int) == name_index(self@, name@, 0),
            decreases self.palette.len() - i,
        {
            assert(self@[i as int] == (self.palette@[i as int].name@, self.palette@[i as int].color));
            if self.palette[i].name == wanted {
                return i;
            }
            i = i + 1;
        }
        i
    }

    /// Puts `color` under `name`.
    pub fn set(&mut self, name: &str, color: Color)
        ensures
            final(self)@ == with_entry(old(self)@, name@, color),
    {
        let i = self.index_of(name);
        let entry = NamedColor { name: String::from_str(name), color };
        if i < self.palette.len() {
            self.palette[i] = entry;
            assert(self@ =~= old(self)@.update(i as int, (name@, color)));
        } else {
            self.palette.push(entry);
            assert(self@ =~= old(self)@.push((name@, color)));
        }
    }

    /// The color under `name`.
    pub fn get(&self, name: &str) -> (color: Option<Color>)
        ensures
            color == named_entry(self@, name@),
    {
        let i = self.index_of(name);
        if i < self.palette.len() {
            assert(self@[i as int] == (self.palette@[i as int].name@, self.palette@[i as int].color));
            Some(self.palette[i].color)
        } else {
            None
        }
    }

    /// The default colors with those of `palette` put in.
    pub fn new(palette: Vec<NamedColor>) -> (colors: ColorPalette)
        ensures
            colors@ == with_entries(default_colors(), color_views(palette@)),
    {
        let mut colors = ColorPalette::default();
        let ghost more = color_views(palette@);
        let mut i: usize = 0;
        assert(more.take(0) =~= Seq::<(Seq<char>, Color)>::empty());
        while i < palette.len()
            invariant
                i <= palette.len(),
                more == color_views(palette@),
                colors@ == with_entries(default_colors(), more.take(i as int)),
            decreases palette.len() - i,
        {
            proof {
                assert(more.take(i + 1).drop_last() =~= more.take(i as int));
                assert(more.take(i + 1).last() == (palette@[i as int].name@, palette@[i as int].color));
            }
            colors.set(palette[i].name.as_str(), palette[i].color);
            i = i + 1;
        }
        assert(more.take(more.len() as int) =~= more);
        colors
    }
}

/// The place of the last `c` in `s` before `before`, or -1.
pub open spec fn last_index_of(s: Seq<char>, c: char, before: int) -> int
    decreases before,
{
    if before <= 0 || before > s.len() {
        -1
    } else if s[before - 1] == c {
        before - 1
    } else {
        last_index_of(s, c, before - 1)
    }
}

/// The style of a scope: that of the scope itself, or of the nearest scope
/// above it that has one. The scope above `a.b.c` is `a.b`.
pub open spec fn resolve(groups: Seq<(Seq<char>, HighlightGroup)>, scope: Seq<char>) -> Option<
    HighlightGroup,
>
    decreases scope.len(),
{
    match named_entry(groups, scope) {
        Some(group) => Some(group),
        None => {
            let dot = last_index_of(scope, '.', scope.len() as int);
            if 0 <= dot < scope.len() {
                resolve(groups, scope.subrange(0, dot))
            } else {
                None
            }
        },
    }
}

/// A theme: named colors and the styles of scopes.
#[derive(Debug, Clone)]
pub struct Theme {
    pub name: String,
    pub colors: ColorPalette,
    pub groups: Vec<NamedGroup>,
}

impl Theme {
    /// The theme without styles.
    pub fn default() -> (theme: Theme)
        ensures
            theme.name@ == "Default"@,
            theme.colors@ == default_colors(),
            theme.groups@.len() == 0,
    {
        Theme { name: String::from_str("Default"), colors: ColorPalette::default(), groups: Vec::new() }
    }

    /// The style under exactly `name`.
    fn group_named(&self, name: &Vec<char>, len: usize) -> (group: Option<HighlightGroup>)
        requires
            len <= name.len(),
        ensures
            group == named_entry(group_views(self.groups@), name@.subrange(0, len as int)),
    {
        let ghost entries = group_views(self.groups@);
        let ghost wanted = name@.subrange(0, len as int);
        let mut i: usize = 0;
        while i < self.groups.len()
            invariant
                i <= self.groups.len(),
                len <= name.len(),
                entries == group_views(self.groups@),
                wanted == name@.subrange(0, len as int),
                name_index(entries, wanted, i as int) == name_index(entries, wanted, 0),
            decreases self.groups.len() - i,
        {
            assert(entries[i as int] == (self.groups@[i as int].name@, self.groups@[i as int].group));
            let candidate = chars_of(self.groups[i].name.as_str());
            if candidate.len() == len {
                let mut k: usize = 0;
                while k < len && candidate[k] == name[k]
                    invariant
                        k <= len,
                        len <= name.len(),
                        candidate.len() == len,
                        forall|j: int| 0 <= j < k ==> candidate@[j] == name@[j],
                    decreases len - k,
                {
                    k = k + 1;
                }
                if k == len {
                    assert(candidate@ =~= wanted);
                    return Some(self.groups[i].group);
                }
                assert(candidate@[k as int] != wanted[k as int]);
            }
            i = i + 1;
        }
        None
    }

    /// The style of `scope`, or of the nearest scope above it that has one.
    pub fn try_get(&self, scope: &str) -> (group: Option<HighlightGroup>)
        ensures
            group == resolve(group_views(self.groups@), scope@),
    {
        let name = chars_of(scope);
        let ghost entries = group_views(self.groups@);
        let mut len = name.len();
        assert(name@.subrange(0, len as int) =~= name@);
        loop
            invariant
                len <= name.len(),
                entries == group_views(self.groups@),
                name@ == scope@,
                resolve(entries, name@.subrange(0, len as int)) == resolve(entries, scope@),
            decreases len,
        {
            match self.group_named(&name, len) {
                Some(group) => {
                    return Some(group);
                },
                None => {},
            }
            let ghost current = name@.subrange(0, len as int);
            let mut dot = len;
            while dot > 0 && name[dot - 1] != '.'
                invariant
                    dot <= len <= name.len(),
                    current == name@.subrange(0, len as int),
                    last_index_of(current, '.', dot as int) == last_index_of(
                        current,
                        '.',
                        len as int,
                    ),
                decreases dot,
            {
                assert(current[dot - 1] == name@[dot - 1]);
                dot = dot - 1;
            }
            if dot == 0 {
                return None;
            }
            assert(current[dot - 1] == name@[dot - 1]);
            assert(current.subrange(0, dot - 1) =~= name@.subrange(0, dot - 1));
            len = dot - 1;
        }
    }

    /// The style of `scope`; the style without colors and attributes where
    /// neither the scope nor one above it has a style.
    pub fn get(&self, scope: &str) -> (group: HighlightGroup)
        ensures
            group == match resolve(group_views(self.groups@), scope@) {
                Some(g) => g,
                None => HighlightGroup::plain(),
            },
    {
        match self.try_get(scope) {
            Some(group) => group,
            None => HighlightGroup::new(),
        }
    }
}

} // verus!
