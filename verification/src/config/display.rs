use vstd::prelude::*;

use super::color::{spec_hex_string, Color};
use super::enums::Weight;
use super::{md_heading, md_row, nested_key, push_md_heading, push_md_row, push_nested, sub_key, MarkdownTable};
use crate::text::{dec_digits, push_decimal};

verus! {

/// Output area font configuration.
#[derive(Clone, Debug)]
pub struct Font {
    /// Font family
    pub family: String,
    /// Font size in pt
    pub size: u16,
    /// Font weight
    pub weight: Weight,
}

impl Default for Font {
    fn default() -> (r: Self)
        ensures
            r.family@ == "monospace"@,
            r.size == 12,
            r.weight == Weight::Bold,
    {
        Self { family: "monospace".to_owned(), size: 12, weight: Weight::Bold }
    }
}

/// Output area colors.
#[derive(Clone, Copy, Debug)]
pub struct Colors {
    pub light: LightColors,
    pub dark: DarkColors,
}

impl Default for Colors {
    fn default() -> (r: Self)
        ensures
            r.light.text@ == (0x00u8, 0x00u8, 0x00u8),
            r.light.output@ == (0xe8u8, 0xe6u8, 0xe3u8),
            r.light.border@ == (0xd8u8, 0xd4u8, 0xd0u8),
            r.light.screen@ == (0xcdu8, 0xc7u8, 0xc2u8),
            r.light.selection@ == (0x35u8, 0x84u8, 0xe4u8),
            r.dark.text@ == (0xffu8, 0xffu8, 0xffu8),
            r.dark.output@ == (0x20u8, 0x20u8, 0x20u8),
            r.dark.border@ == (0x28u8, 0x28u8, 0x28u8),
            r.dark.screen@ == (0x1bu8, 0x1bu8, 0x1bu8),
            r.dark.selection@ == (0x1bu8, 0x68u8, 0xc6u8),
    {
        Self { light: LightColors::default(), dark: DarkColors::default() }
    }
}

/// Output area light theme colors.
#[derive(Clone, Copy, Debug)]
pub struct LightColors {
    /// Output name text color
    pub text: Color,
    /// Output background color
    pub output: Color,
    /// Output border color
    pub border: Color,
    /// Screen rectangle color
    pub screen: Color,
    /// Output selection color
    pub selection: Color,
}

impl Default for LightColors {
    fn default() -> (r: Self)
        ensures
            r.text@ == (0x00u8, 0x00u8, 0x00u8),
            r.output@ == (0xe8u8, 0xe6u8, 0xe3u8),
            r.border@ == (0xd8u8, 0xd4u8, 0xd0u8),
            r.screen@ == (0xcdu8, 0xc7u8, 0xc2u8),
            r.selection@ == (0x35u8, 0x84u8, 0xe4u8),
    {
        Self {
            text: Color::new(0x00, 0x00, 0x00),
            output: Color::new(0xe8, 0xe6, 0xe3),
            border: Color::new(0xd8, 0xd4, 0xd0),
            screen: Color::new(0xcd, 0xc7, 0xc2),
            selection: Color::new(0x35, 0x84, 0xe4),
        }
    }
}

/// Output area dark theme colors.
#[derive(Clone, Copy, Debug)]
pub struct DarkColors {
    /// Output name text color
    pub text: Color,
    /// Output background color
    pub output: Color,
    /// Output border color
    pub border: Color,
    /// Screen rectangle color
    pub screen: Color,
    /// Output selection color
    pub selection: Color,
}

impl Default for DarkColors {
    fn default() -> (r: Self)
        ensures
            r.text@ == (0xffu8, 0xffu8, 0xffu8),
            r.output@ == (0x20u8, 0x20u8, 0x20u8),
            r.border@ == (0x28u8, 0x28u8, 0x28u8),
            r.screen@ == (0x1bu8, 0x1bu8, 0x1bu8),
            r.selection@ == (0x1bu8, 0x68u8, 0xc6u8),
    {
        Self {
            text: Color::new(0xff, 0xff, 0xff),
            output: Color::new(0x20, 0x20, 0x20),
            border: Color::new(0x28, 0x28, 0x28),
            screen: Color::new(0x1b, 0x1b, 0x1b),
            selection: Color::new(0x1b, 0x68, 0xc6),
        }
    }
}


/// Documentation of the `Colors` table: the light and the dark theme's tables.
pub open spec fn colors_table(key: Seq<char>, lvl: nat) -> Seq<char> {
    "\n"@ + light_table(sub_key(key, "light"@), lvl) + "\n"@ + dark_table(sub_key(key, "dark"@), lvl)
}

impl MarkdownTable for Colors {
    fn to_markdown_table(key: &str, lvl: u8) -> (r: String)
        ensures
            r@ == colors_table(key@, lvl as nat),
    {
        let mut s = String::new();
        let light = nested_key(key, "light");
        push_nested(&mut s, LightColors::to_markdown_table(light.as_str(), lvl));
        let dark = nested_key(key, "dark");
        push_nested(&mut s, DarkColors::to_markdown_table(dark.as_str(), lvl));
        assert(s@ =~= colors_table(key@, lvl as nat));
        s
    }
}

/// Documentation of the `LightColors` table.
pub open spec fn light_table(key: Seq<char>, lvl: nat) -> Seq<char> {
    md_heading(key, lvl, "Output area light theme colors"@)
        + md_row("text"@, "Color"@, spec_hex_string((0x00u8, 0x00u8, 0x00u8)), "Output name text color"@)
        + md_row("output"@, "Color"@, spec_hex_string((0xe8u8, 0xe6u8, 0xe3u8)), "Output background color"@)
        + md_row("border"@, "Color"@, spec_hex_string((0xd8u8, 0xd4u8, 0xd0u8)), "Output border color"@)
        + md_row("screen"@, "Color"@, spec_hex_string((0xcdu8, 0xc7u8, 0xc2u8)), "Screen rectangle color"@)
        + md_row("selection"@, "Color"@, spec_hex_string((0x35u8, 0x84u8, 0xe4u8)), "Output selection color"@)
}

impl MarkdownTable for LightColors {
    fn to_markdown_table(key: &str, lvl: u8) -> (r: String)
        ensures
            r@ == light_table(key@, lvl as nat),
    {
        let d = Self::default();
        let mut s = String::new();
        push_md_heading(&mut s, key, lvl, "Output area light theme colors");
        push_md_row(&mut s, "text", "Color", d.text.to_hex_string().as_str(), "Output name text color");
        push_md_row(&mut s, "output", "Color", d.output.to_hex_string().as_str(), "Output background color");
        push_md_row(&mut s, "border", "Color", d.border.to_hex_string().as_str(), "Output border color");
        push_md_row(&mut s, "screen", "Color", d.screen.to_hex_string().as_str(), "Screen rectangle color");
        push_md_row(&mut s, "selection", "Color", d.selection.to_hex_string().as_str(), "Output selection color");
        s
    }
}

/// Documentation of the `DarkColors` table.
pub open spec fn dark_table(key: Seq<char>, lvl: nat) -> Seq<char> {
    md_heading(key, lvl, "Output area dark theme colors"@)
        + md_row("text"@, "Color"@, spec_hex_string((0xffu8, 0xffu8, 0xffu8)), "Output name text color"@)
        + md_row("output"@, "Color"@, spec_hex_string((0x20u8, 0x20u8, 0x20u8)), "Output background color"@)
        + md_row("border"@, "Color"@, spec_hex_string((0x28u8, 0x28u8, 0x28u8)), "Output border color"@)
        + md_row("screen"@, "Color"@, spec_hex_string((0x1bu8, 0x1bu8, 0x1bu8)), "Screen rectangle color"@)
        + md_row("selection"@, "Color"@, spec_hex_string((0x1bu8, 0x68u8, 0xc6u8)), "Output selection color"@)
}

impl MarkdownTable for DarkColors {
    fn to_markdown_table(key: &str, lvl: u8) -> (r: String)
        ensures
            r@ == dark_table(key@, lvl as nat),
    {
        let d = Self::default();
        let mut s = String::new();
        push_md_heading(&mut s, key, lvl, "Output area dark theme colors");
        push_md_row(&mut s, "text", "Color", d.text.to_hex_string().as_str(), "Output name text color");
        push_md_row(&mut s, "output", "Color", d.output.to_hex_string().as_str(), "Output background color");
        push_md_row(&mut s, "border", "Color", d.border.to_hex_string().as_str(), "Output border color");
        push_md_row(&mut s, "screen", "Color", d.screen.to_hex_string().as_str(), "Screen rectangle color");
        push_md_row(&mut s, "selection", "Color", d.selection.to_hex_string().as_str(), "Output selection color");
        s
    }
}


/// Documentation of the `Font` table.
pub open spec fn font_table(key: Seq<char>, lvl: nat) -> Seq<char> {
    md_heading(key, lvl, "Output area font configuration"@) + md_row("family"@, "String"@, "monospace"@, "Font family"@) + md_row(
        "size"@,
        "Integer"@,
        dec_digits(12nat),
        "Font size in pt"@,
    ) + md_row("weight"@, "Weight"@, Weight::Bold.spec_name(), "Font weight"@)
}

impl MarkdownTable for Font {
    fn to_markdown_table(key: &str, lvl: u8) -> (r: String)
        ensures
            r@ == font_table(key@, lvl as nat),
    {
        let d = Self::default();
        let mut size = String::new();
        push_decimal(&mut size, d.size as u64);
        let weight = d.weight.name();
        let mut s = String::new();
        push_md_heading(&mut s, key, lvl, "Output area font configuration");
        push_md_row(&mut s, "family", "String", d.family.as_str(), "Font family");
        push_md_row(&mut s, "size", "Integer", size.as_str(), "Font size in pt");
        push_md_row(&mut s, "weight", "Weight", weight.as_str(), "Font weight");
        s
    }
}

} // verus!
