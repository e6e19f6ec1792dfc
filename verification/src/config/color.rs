use vstd::prelude::*;

use super::{md_heading, md_row, nested_key, push_md_heading, push_md_row, push_nested, sub_key, MarkdownTable};
use crate::text::{hex_byte, push_char, push_hex_byte, str_chars};

verus! {

/// A color given by its red, green and blue component.
#[derive(Clone, Copy, Debug)]
pub struct Color {
    r: u8,
    g: u8,
    b: u8,
}

impl View for Color {
    type V = (u8, u8, u8);

    closed spec fn view(&self) -> (u8, u8, u8) {
        (self.r, self.g, self.b)
    }
}

/// Error of parsing a color that is neither `#rgb` nor `#rrggbb`.
#[derive(Debug, Clone, Copy, PartialEq, Eq, Structural)]
pub struct ParseRgbError;

/// Value of a hexadecimal digit character, either case.
pub open spec fn hex_value(c: char) -> Option<u8> {
    if '0' <= c && c <= '9' {
        Some((c as u32 - '0' as u32) as u8)
    } else if 'a' <= c && c <= 'f' {
        Some((c as u32 - 'a' as u32 + 10) as u8)
    } else if 'A' <= c && c <= 'F' {
        Some((c as u32 - 'A' as u32 + 10) as u8)
    } else {
        None
    }
}

pub open spec fn is_hex(c: char) -> bool {
    hex_value(c) is Some
}

pub open spec fn hv(c: char) -> int {
    hex_value(c).unwrap() as int
}

/// The color written as `#rgb`, each digit standing for a doubled digit, or as
/// `#rrggbb`; digits of either case.
pub open spec fn spec_parse_rgb(s: Seq<char>) -> Option<(u8, u8, u8)> {
    if s.len() >= 1 && s[0] == '#' && (s.len() == 4 || s.len() == 7) && (forall|i: int|
        1 <= i < s.len() ==> is_hex(#[trigger] s[i])) {
        if s.len() == 4 {
            Some(((17 * hv(s[1])) as u8, (17 * hv(s[2])) as u8, (17 * hv(s[3])) as u8))
        } else {
            Some(
                (
                    (16 * hv(s[1]) + hv(s[2])) as u8,
                    (16 * hv(s[3]) + hv(s[4])) as u8,
                    (16 * hv(s[5]) + hv(s[6])) as u8,
                ),
            )
        }
    } else {
        None
    }
}

/// The color as `#rrggbb` in lowercase hexadecimal digits.
pub open spec fn spec_hex_string(c: (u8, u8, u8)) -> Seq<char> {
    seq!['#'] + hex_byte(c.0) + hex_byte(c.1) + hex_byte(c.2)
}

fn hex_digit_value(c: char) -> (r: Option<u8>)
    ensures
        r == hex_value(c),
{
    if '0' <= c && c <= '9' {
        Some((c as u32 - '0' as u32) as u8)
    } else if 'a' <= c && c <= 'f' {
        Some((c as u32 - 'a' as u32 + 10) as u8)
    } else if 'A' <= c && c <= 'F' {
        Some((c as u32 - 'A' as u32 + 10) as u8)
    } else {
        None
    }
}

impl Color {
    pub fn new(r: u8, g: u8, b: u8) -> (c: Self)
        ensures
            c@ == (r, g, b),
    {
        Color { r, g, b }
    }

    /// Parses `#rgb` or `#rrggbb`.
    pub fn parse(s: &str) -> (res: Result<Color, ParseRgbError>)
        ensures
            match res {
                Ok(c) => spec_parse_rgb(s@) == Some(c@),
                Err(_) => spec_parse_rgb(s@) is None,
            },
    {
        let cs = str_chars(s);
        if cs.len() < 1 || cs[0] != '#' {
            return Err(ParseRgbError);
        }
        let n = cs.len();
        let mut values: Vec<u8> = Vec::new();
        let mut i: usize = 1;
        while i < n
            invariant
                1 <= i <= n,
                n == cs@.len(),
                cs@ == s@,
                values@.len() == i - 1,
                forall|k: int| 1 <= k < i ==> is_hex(#[trigger] cs@[k]) && values@[k - 1] as int == hv(cs@[k]),
            decreases n - i,
        {
            match hex_digit_value(cs[i]) {
                Some(v) => values.push(v),
                None => return Err(ParseRgbError),
            }
            i += 1;
        }
        if n != 4 && n != 7 {
            return Err(ParseRgbError);
        }
        assert(forall|k: int| 1 <= k < n ==> is_hex(#[trigger] s@[k]));
        if n == 4 {
            assert(values@[0] as int == hv(s@[1]));
            assert(values@[1] as int == hv(s@[2]));
            assert(values@[2] as int == hv(s@[3]));
            Ok(Color::new(17 * values[0], 17 * values[1], 17 * values[2]))
        } else {
            assert(values@[0] as int == hv(s@[1]));
            assert(values@[1] as int == hv(s@[2]));
            assert(values@[2] as int == hv(s@[3]));
            assert(values@[3] as int == hv(s@[4]));
            assert(values@[4] as int == hv(s@[5]));
            assert(values@[5] as int == hv(s@[6]));
            Ok(
                Color::new(
                    16 * values[0] + values[1],
                    16 * values[2] + values[3],
                    16 * values[4] + values[5],
                ),
            )
        }
    }

    /// The color as `#rrggbb` in lowercase hexadecimal digits.
    pub fn to_hex_string(&self) -> (r: String)
        ensures
            r@ == spec_hex_string(self@),
    {
        let mut s = String::new();
        push_char(&mut s, '#');
        push_hex_byte(&mut s, self.r);
        push_hex_byte(&mut s, self.g);
        push_hex_byte(&mut s, self.b);
        assert(s@ =~= spec_hex_string(self@));
        s
    }
}

impl Default for Color {
    fn default() -> (c: Self)
        ensures
            c@ == (0u8, 0u8, 0u8),
    {
        Color { r: 0, g: 0, b: 0 }
    }
}

impl core::str::FromStr for Color {
    type Err = ParseRgbError;

    fn from_str(s: &str) -> (res: Result<Self, Self::Err>)
        ensures
            match res {
                Ok(c) => spec_parse_rgb(s@) == Some(c@),
                Err(_) => spec_parse_rgb(s@) is None,
            },
    {
        Color::parse(s)
    }
}

proof fn lemma_hex_digit_value(d: int)
    requires
        0 <= d < 16,
    ensures
        is_hex(crate::text::hex_digit_char(d)),
        hv(crate::text::hex_digit_char(d)) == d,
{
}

/// Writing a color as `#rrggbb` and parsing it back gives the color.
pub proof fn lemma_parse_hex_string(c: (u8, u8, u8))
    ensures
        spec_parse_rgb(spec_hex_string(c)) == Some(c),
{
    let s = spec_hex_string(c);
    lemma_hex_digit_value(c.0 as int / 16);
    lemma_hex_digit_value(c.0 as int % 16);
    lemma_hex_digit_value(c.1 as int / 16);
    lemma_hex_digit_value(c.1 as int % 16);
    lemma_hex_digit_value(c.2 as int / 16);
    lemma_hex_digit_value(c.2 as int % 16);
    assert(s.len() == 7);
    assert(s[1] == crate::text::hex_digit_char(c.0 as int / 16));
    assert(s[2] == crate::text::hex_digit_char(c.0 as int % 16));
    assert(s[3] == crate::text::hex_digit_char(c.1 as int / 16));
    assert(s[4] == crate::text::hex_digit_char(c.1 as int % 16));
    assert(s[5] == crate::text::hex_digit_char(c.2 as int / 16));
    assert(s[6] == crate::text::hex_digit_char(c.2 as int % 16));
    assert(forall|i: int| 1 <= i < s.len() ==> is_hex(#[trigger] s[i]));
}

/// Output area colors for the light and the dark theme.
#[derive(Clone, Copy, Debug)]
pub struct Colors {
    pub light: LightColors,
    pub dark: DarkColors,
}

/// Output area light theme colors.
#[derive(Clone, Copy, Debug)]
pub struct LightColors {
    /// Output name text color
    pub text: Color,
    /// Output background color
    pub output: Color,
    /// Screen rectangle color
    pub bounds: Color,
    /// Output selection color
    pub selection: Color,
}

impl Default for LightColors {
    fn default() -> (r: Self)
        ensures
            r.text@ == (0xffu8, 0xffu8, 0xffu8),
            r.output@ == (0x3cu8, 0x3cu8, 0x3cu8),
            r.bounds@ == (0x3cu8, 0x3cu8, 0x3cu8),
            r.selection@ == (0x35u8, 0x84u8, 0xe4u8),
    {
        Self {
            text: Color::new(0xff, 0xff, 0xff),
            output: Color::new(0x3c, 0x3c, 0x3c),
            bounds: Color::new(0x3c, 0x3c, 0x3c),
            selection: Color::new(0x35, 0x84, 0xe4),
        }
    }
}

/// Output area dark theme colors.
#[derive(Clone, Copy, Debug)]
pub struct DarkColors {
    /// Output name text color
    pub text: Color,
    /// Output background color
    pub output: Color,
    /// Screen rectangle color
    pub bounds: Color,
    /// Output selection color
    pub selection: Color,
}

impl Default for DarkColors {
    fn default() -> (r: Self)
        ensures
            r.text@ == (0u8, 0u8, 0u8),
            r.output@ == (0xf6u8, 0xf5u8, 0xf4u8),
            r.bounds@ == (0xf6u8, 0xf5u8, 0xf4u8),
            r.selection@ == (0x1bu8, 0x68u8, 0xc6u8),
    {
        Self {
            text: Color::new(0, 0, 0),
            output: Color::new(0xf6, 0xf5, 0xf4),
            bounds: Color::new(0xf6, 0xf5, 0xf4),
            selection: Color::new(0x1b, 0x68, 0xc6),
        }
    }
}

impl Default for Colors {
    fn default() -> (r: Self)
        ensures
            r.light.text@ == (0xffu8, 0xffu8, 0xffu8),
            r.light.output@ == (0x3cu8, 0x3cu8, 0x3cu8),
            r.light.bounds@ == (0x3cu8, 0x3cu8, 0x3cu8),
            r.light.selection@ == (0x35u8, 0x84u8, 0xe4u8),
            r.dark.text@ == (0u8, 0u8, 0u8),
            r.dark.output@ == (0xf6u8, 0xf5u8, 0xf4u8),
            r.dark.bounds@ == (0xf6u8, 0xf5u8, 0xf4u8),
            r.dark.selection@ == (0x1bu8, 0x68u8, 0xc6u8),
    {
        Self { light: LightColors::default(), dark: DarkColors::default() }
    }
}


/// Documentation of the `Colors` table: the light and the dark theme's tables.
pub open spec fn colors_table(key: Seq<char>, lvl: nat) -> Seq<char> {
    "\n"@ + light_table(sub_key(key, "light"@), lvl) + "\n"@ + dark_table(sub_key(key, "dark"@), lvl)
}

impl MarkdownTable for Colors {
    fn to_markdown_table(key: &str, lvl: u8) -> (r: String)
        ensures
            r@ == colors_table(key@, lvl as nat),
    {
        let mut s = String::new();
        let light = nested_key(key, "light");
        push_nested(&mut s, LightColors::to_markdown_table(light.as_str(), lvl));
        let dark = nested_key(key, "dark");
        push_nested(&mut s, DarkColors::to_markdown_table(dark.as_str(), lvl));
        assert(s@ =~= colors_table(key@, lvl as nat));
        s
    }
}

/// Documentation of the `LightColors` table.
pub open spec fn light_table(key: Seq<char>, lvl: nat) -> Seq<char> {
    md_heading(key, lvl, "Output area light theme colors"@)
        + md_row("text"@, "Color"@, spec_hex_string((0xffu8, 0xffu8, 0xffu8)), "Output name text color"@)
        + md_row("output"@, "Color"@, spec_hex_string((0x3cu8, 0x3cu8, 0x3cu8)), "Output background color"@)
        + md_row("bounds"@, "Color"@, spec_hex_string((0x3cu8, 0x3cu8, 0x3cu8)), "Screen rectangle color"@)
        + md_row("selection"@, "Color"@, spec_hex_string((0x35u8, 0x84u8, 0xe4u8)), "Output selection color"@)
}

impl MarkdownTable for LightColors {
    fn to_markdown_table(key: &str, lvl: u8) -> (r: String)
        ensures
            r@ == light_table(key@, lvl as nat),
    {
        let d = Self::default();
        let mut s = String::new();
        push_md_heading(&mut s, key, lvl, "Output area light theme colors");
        push_md_row(&mut s, "text", "Color", d.text.to_hex_string().as_str(), "Output name text color");
        push_md_row(&mut s, "output", "Color", d.output.to_hex_string().as_str(), "Output background color");
        push_md_row(&mut s, "bounds", "Color", d.bounds.to_hex_string().as_str(), "Screen rectangle color");
        push_md_row(&mut s, "selection", "Color", d.selection.to_hex_string().as_str(), "Output selection color");
        s
    }
}

/// Documentation of the `DarkColors` table.
pub open spec fn dark_table(key: Seq<char>, lvl: nat) -> Seq<char> {
    md_heading(key, lvl, "Output area dark theme colors"@)
        + md_row("text"@, "Color"@, spec_hex_string((0x00u8, 0x00u8, 0x00u8)), "Output name text color"@)
        + md_row("output"@, "Color"@, spec_hex_string((0xf6u8, 0xf5u8, 0xf4u8)), "Output background color"@)
        + md_row("bounds"@, "Color"@, spec_hex_string((0xf6u8, 0xf5u8, 0xf4u8)), "Screen rectangle color"@)
        + md_row("selection"@, "Color"@, spec_hex_string((0x1bu8, 0x68u8, 0xc6u8)), "Output selection color"@)
}

impl MarkdownTable for DarkColors {
    fn to_markdown_table(key: &str, lvl: u8) -> (r: String)
        ensures
            r@ == dark_table(key@, lvl as nat),
    {
        let d = Self::default();
        let mut s = String::new();
        push_md_heading(&mut s, key, lvl, "Output area dark theme colors");
        push_md_row(&mut s, "text", "Color", d.text.to_hex_string().as_str(), "Output name text color");
        push_md_row(&mut s, "output", "Color", d.output.to_hex_string().as_str(), "Output background color");
        push_md_row(&mut s, "bounds", "Color", d.bounds.to_hex_string().as_str(), "Screen rectangle color");
        push_md_row(&mut s, "selection", "Color", d.selection.to_hex_string().as_str(), "Output selection color");
        s
    }
}

} // verus!
