use vstd::prelude::*;

use super::auto::Auto;
use super::color::{spec_hex_string, Color};
use super::enums::Weight;
use super::{md_heading, md_row, nested_key, push_md_heading, push_md_row, push_nested, sub_key, MarkdownTable};
use crate::text::{push_decimal, push_str};

verus! {

/// Identify popup font configuration.
#[derive(Clone, Debug)]
pub struct Font {
    /// Font family
    pub family: String,
    /// Font size in pt or "auto"
    pub size: Auto<u16>,
    /// Font weight
    pub weight: Weight,
}

impl Default for Font {
    fn default() -> (r: Self)
        ensures
            r.family@ == "Sans"@,
            r.size is Auto,
            r.weight == Weight::Bold,
    {
        Self { family: "Sans".to_owned(), size: Auto::default(), weight: Weight::Bold }
    }
}

/// Identify popup colors.
#[derive(Clone, Copy, Debug)]
pub struct Colors {
    pub light: LightColors,
    pub dark: DarkColors,
}

impl Default for Colors {
    fn default() -> (r: Self)
        ensures
            r.light.text@ == (0x00u8, 0x00u8, 0x00u8),
            r.light.background@ == (0xf6u8, 0xf5u8, 0xf4u8),
            r.light.border@ == (0xcdu8, 0xc7u8, 0xc2u8),
            r.dark.text@ == (0xffu8, 0xffu8, 0xffu8),
            r.dark.background@ == (0x35u8, 0x35u8, 0x35u8),
            r.dark.border@ == (0x1bu8, 0x1bu8, 0x1bu8),
    {
        Self { light: LightColors::default(), dark: DarkColors::default() }
    }
}

/// Identify popup light theme colors.
#[derive(Clone, Copy, Debug)]
pub struct LightColors {
    /// Text color
    pub text: Color,
    /// Background color
    pub background: Color,
    /// Border color
    pub border: Color,
}

impl Default for LightColors {
    fn default() -> (r: Self)
        ensures
            r.text@ == (0x00u8, 0x00u8, 0x00u8),
            r.background@ == (0xf6u8, 0xf5u8, 0xf4u8),
            r.border@ == (0xcdu8, 0xc7u8, 0xc2u8),
    {
        Self {
            text: Color::new(0x00, 0x00, 0x00),
            background: Color::new(0xf6, 0xf5, 0xf4),
            border: Color::new(0xcd, 0xc7, 0xc2),
        }
    }
}

/// Identify popup dark theme colors.
#[derive(Clone, Copy, Debug)]
pub struct DarkColors {
    /// Text color
    pub text: Color,
    /// Background color
    pub background: Color,
    /// Border color
    pub border: Color,
}

impl Default for DarkColors {
    fn default() -> (r: Self)
        ensures
            r.text@ == (0xffu8, 0xffu8, 0xffu8),
            r.background@ == (0x35u8, 0x35u8, 0x35u8),
            r.border@ == (0x1bu8, 0x1bu8, 0x1bu8),
    {
        Self {
            text: Color::new(0xff, 0xff, 0xff),
            background: Color::new(0x35, 0x35, 0x35),
            border: Color::new(0x1b, 0x1b, 0x1b),
        }
    }
}


/// Documentation of the `Colors` table: the light and the dark theme's tables.
pub open spec fn colors_table(key: Seq<char>, lvl: nat) -> Seq<char> {
    "\n"@ + light_table(sub_key(key, "light"@), lvl) + "\n"@ + dark_table(sub_key(key, "dark"@), lvl)
}

impl MarkdownTable for Colors {
    fn to_markdown_table(key: &str, lvl: u8) -> (r: String)
        ensures
            r@ == colors_table(key@, lvl as nat),
    {
        let mut s = String::new();
        let light = nested_key(key, "light");
        push_nested(&mut s, LightColors::to_markdown_table(light.as_str(), lvl));
        let dark = nested_key(key, "dark");
        push_nested(&mut s, DarkColors::to_markdown_table(dark.as_str(), lvl));
        assert(s@ =~= colors_table(key@, lvl as nat));
        s
    }
}

/// Documentation of the `LightColors` table.
pub open spec fn light_table(key: Seq<char>, lvl: nat) -> Seq<char> {
    md_heading(key, lvl, "Identify popup light theme colors"@)
        + md_row("text"@, "Color"@, spec_hex_string((0x00u8, 0x00u8, 0x00u8)), "Text color"@)
        + md_row("background"@, "Color"@, spec_hex_string((0xf6u8, 0xf5u8, 0xf4u8)), "Background color"@)
        + md_row("border"@, "Color"@, spec_hex_string((0xcdu8, 0xc7u8, 0xc2u8)), "Border color"@)
}

impl MarkdownTable for LightColors {
    fn to_markdown_table(key: &str, lvl: u8) -> (r: String)
        ensures
            r@ == light_table(key@, lvl as nat),
    {
        let d = Self::default();
        let mut s = String::new();
        push_md_heading(&mut s, key, lvl, "Identify popup light theme colors");
        push_md_row(&mut s, "text", "Color", d.text.to_hex_string().as_str(), "Text color");
        push_md_row(&mut s, "background", "Color", d.background.to_hex_string().as_str(), "Background color");
        push_md_row(&mut s, "border", "Color", d.border.to_hex_string().as_str(), "Border color");
        s
    }
}

/// Documentation of the `DarkColors` table.
pub open spec fn dark_table(key: Seq<char>, lvl: nat) -> Seq<char> {
    md_heading(key, lvl, "Identify popup dark theme colors"@)
        + md_row("text"@, "Color"@, spec_hex_string((0xffu8, 0xffu8, 0xffu8)), "Text color"@)
        + md_row("background"@, "Color"@, spec_hex_string((0x35u8, 0x35u8, 0x35u8)), "Background color"@)
        + md_row("border"@, "Color"@, spec_hex_string((0x1bu8, 0x1bu8, 0x1bu8)), "Border color"@)
}

impl MarkdownTable for DarkColors {
    fn to_markdown_table(key: &str, lvl: u8) -> (r: String)
        ensures
            r@ == dark_table(key@, lvl as nat),
    {
        let d = Self::default();
        let mut s = String::new();
        push_md_heading(&mut s, key, lvl, "Identify popup dark theme colors");
        push_md_row(&mut s, "text", "Color", d.text.to_hex_string().as_str(), "Text color");
        push_md_row(&mut s, "background", "Color", d.background.to_hex_string().as_str(), "Background color");
        push_md_row(&mut s, "border", "Color", d.border.to_hex_string().as_str(), "Border color");
        s
    }
}


/// Documentation of the `Font` table.
pub open spec fn font_table(key: Seq<char>, lvl: nat) -> Seq<char> {
    md_heading(key, lvl, "Identify popup font configuration"@) + md_row("family"@, "String"@, "Sans"@, "Font family"@) + md_row(
        "size"@,
        "Integer or \"auto\""@,
        "auto"@,
        "Font size in pt or \"auto\""@,
    ) + md_row("weight"@, "Weight"@, Weight::Bold.spec_name(), "Font weight"@)
}

impl MarkdownTable for Font {
    fn to_markdown_table(key: &str, lvl: u8) -> (r: String)
        ensures
            r@ == font_table(key@, lvl as nat),
    {
        let d = Self::default();
        let mut size = String::new();
        match d.size {
            Auto::Auto => push_str(&mut size, "auto"),
            Auto::Value(v) => push_decimal(&mut size, v as u64),
        }
        let weight = d.weight.name();
        let mut s = String::new();
        push_md_heading(&mut s, key, lvl, "Identify popup font configuration");
        push_md_row(&mut s, "family", "String", d.family.as_str(), "Font family");
        push_md_row(&mut s, "size", "Integer or \"auto\"", size.as_str(), "Font size in pt or \"auto\"");
        push_md_row(&mut s, "weight", "Weight", weight.as_str(), "Font weight");
        s
    }
}

} // verus!
