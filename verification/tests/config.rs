use std::str::FromStr;

use rrandr::config::auto::Auto;
use rrandr::config::MarkdownTable;
use rrandr::config::color::{Color, Colors, DarkColors, LightColors, ParseRgbError};
use rrandr::config::display;
use rrandr::config::enums::{BorderStyle, Weight};
use rrandr::config::popup;
use rrandr::enums::{
    contains, intersects, rotation_mask, Reflection, Rotation, REFLECT_X, REFLECT_Y, ROTATE0, ROTATE180,
    ROTATE270, ROTATE90,
};
use rrandr::update::Update;
use rrandr::values::{I16, U16};

fn hex(c: &Color) -> String {
    c.to_hex_string()
}

#[test]
fn color_parse_short_form() {
    let c = Color::parse("#abc").ok().unwrap();
    assert_eq!(hex(&c), "#aabbcc");
    let w = Color::from_str("#fff").ok().unwrap();
    assert_eq!(hex(&w), "#ffffff");
}

#[test]
fn color_parse_long_form_either_case() {
    let c = Color::parse("#3584E4").ok().unwrap();
    assert_eq!(hex(&c), "#3584e4");
    let d = Color::parse("#1b68c6").ok().unwrap();
    assert_eq!(hex(&d), "#1b68c6");
}

#[test]
fn color_parse_errors() {
    for s in ["abc", "#12", "#ggg", "#12345", "#1234567", "", "#", "#abcd", "#ab\u{e9}", "# abc"] {
        assert_eq!(Color::parse(s).err(), Some(ParseRgbError), "{s:?}");
    }
}

#[test]
fn color_hex_string_round_trip() {
    for (r, g, b) in [(0u8, 0u8, 0u8), (255, 255, 255), (0x3c, 0x3c, 0x3c), (1, 2, 254)] {
        let c = Color::new(r, g, b);
        let back = Color::parse(&c.to_hex_string()).ok().unwrap();
        assert_eq!(hex(&back), hex(&c));
    }
    assert_eq!(hex(&Color::new(1, 2, 254)), "#0102fe");
}

#[test]
fn color_default_is_black() {
    assert_eq!(hex(&Color::default()), "#000000");
}

#[test]
fn area_color_defaults() {
    let colors = Colors::default();
    let light = colors.light;
    let dark = colors.dark;
    assert_eq!(hex(&light.text), "#ffffff");
    assert_eq!(hex(&light.output), "#3c3c3c");
    assert_eq!(hex(&light.bounds), "#3c3c3c");
    assert_eq!(hex(&light.selection), "#3584e4");
    assert_eq!(hex(&dark.text), "#000000");
    assert_eq!(hex(&dark.output), "#f6f5f4");
    assert_eq!(hex(&dark.bounds), "#f6f5f4");
    assert_eq!(hex(&dark.selection), "#1b68c6");
    assert_eq!(hex(&LightColors::default().selection), "#3584e4");
    assert_eq!(hex(&DarkColors::default().selection), "#1b68c6");
}

#[test]
fn display_defaults() {
    let font = display::Font::default();
    assert_eq!(font.family, "monospace");
    assert_eq!(font.size, 12);
    assert_eq!(font.weight, Weight::Bold);
    let colors = display::Colors::default();
    let light = [colors.light.text, colors.light.output, colors.light.border, colors.light.screen, colors.light.selection];
    let dark = [colors.dark.text, colors.dark.output, colors.dark.border, colors.dark.screen, colors.dark.selection];
    assert_eq!(light.iter().map(hex).collect::<Vec<_>>(), ["#000000", "#e8e6e3", "#d8d4d0", "#cdc7c2", "#3584e4"]);
    assert_eq!(dark.iter().map(hex).collect::<Vec<_>>(), ["#ffffff", "#202020", "#282828", "#1b1b1b", "#1b68c6"]);
}

#[test]
fn popup_defaults() {
    let font = popup::Font::default();
    assert_eq!(font.family, "Sans");
    assert!(matches!(font.size, Auto::Auto));
    assert_eq!(font.weight, Weight::Bold);
    let colors = popup::Colors::default();
    let light = [colors.light.text, colors.light.background, colors.light.border];
    let dark = [colors.dark.text, colors.dark.background, colors.dark.border];
    assert_eq!(light.iter().map(hex).collect::<Vec<_>>(), ["#000000", "#f6f5f4", "#cdc7c2"]);
    assert_eq!(dark.iter().map(hex).collect::<Vec<_>>(), ["#ffffff", "#353535", "#1b1b1b"]);
}

#[test]
fn auto_unwrap_or_else() {
    assert_eq!(Auto::Value(7u16).unwrap_or_else(|| 3), 7);
    assert_eq!(Auto::<u16>::Auto.unwrap_or_else(|| 3), 3);
    assert_eq!(Auto::<u16>::default().unwrap_or_else(|| 9), 9);
    assert_eq!(Auto::from(5u16).unwrap_or_else(|| 9), 5);
}

#[test]
fn auto_is_value_and() {
    assert!(Auto::Value(7u16).is_value_and(|v| v > 5));
    assert!(!Auto::Value(3u16).is_value_and(|v| v > 5));
    assert!(!Auto::<u16>::Auto.is_value_and(|_| true));
}

#[test]
fn weight_and_border_names() {
    assert_eq!(Weight::Ultralight.name(), "ultralight");
    assert_eq!(Weight::Bold.name(), "bold");
    assert_eq!(Weight::Ultraheavy.name(), "ultraheavy");
    assert_eq!(BorderStyle::Solid.name(), "solid");
    assert_eq!(BorderStyle::Dashed.name(), "dashed");
    assert_eq!(BorderStyle::NoLine.name(), "none");
}

#[test]
fn rotation_names_and_positions() {
    assert_eq!(Rotation::Normal.xrandr(), "normal");
    assert_eq!(Rotation::Left.xrandr(), "left");
    assert_eq!(Rotation::Right.xrandr(), "right");
    assert_eq!(Rotation::Inverted.xrandr(), "inverted");
    for v in 0u32..4 {
        assert_eq!(u32::from(Rotation::from_u32(v)), v);
    }
    assert_eq!(Rotation::default(), Rotation::Normal);
}

#[test]
fn reflection_names_and_positions() {
    assert_eq!(Reflection::Normal.xrandr(), "normal");
    assert_eq!(Reflection::Horizontal.xrandr(), "x");
    assert_eq!(Reflection::Vertical.xrandr(), "y");
    assert_eq!(Reflection::Both.xrandr(), "xy");
    for v in 0u32..4 {
        assert_eq!(u32::from(Reflection::from_u32(v)), v);
    }
    assert_eq!(Reflection::default(), Reflection::Normal);
}

#[test]
fn randr_masks() {
    assert_eq!(Rotation::Left.to_randr(), ROTATE90);
    assert_eq!(Rotation::Right.to_randr(), ROTATE270);
    assert_eq!(Rotation::Inverted.to_randr(), ROTATE180);
    assert_eq!(Reflection::Both.to_randr(), REFLECT_X | REFLECT_Y);
    assert_eq!(rotation_mask(Rotation::Normal, Reflection::Normal), ROTATE0);
    assert_eq!(rotation_mask(Rotation::Right, Reflection::Vertical), ROTATE270 | REFLECT_Y);
    assert_eq!(Rotation::from_randr(ROTATE180 | REFLECT_X), Rotation::Inverted);
    assert_eq!(Reflection::from_randr(ROTATE180 | REFLECT_X), Reflection::Horizontal);
}

#[test]
fn randr_mask_round_trip() {
    let rotations = [Rotation::Normal, Rotation::Left, Rotation::Right, Rotation::Inverted];
    let reflections = [Reflection::Normal, Reflection::Horizontal, Reflection::Vertical, Reflection::Both];
    for r in rotations {
        for f in reflections {
            let m = rotation_mask(r, f);
            assert_eq!(Rotation::from_randr(m), r);
            assert_eq!(Reflection::from_randr(m), f);
        }
    }
}

#[test]
fn mask_helpers() {
    assert!(contains(ROTATE90 | REFLECT_X, REFLECT_X));
    assert!(!contains(ROTATE90, REFLECT_X | REFLECT_Y));
    assert!(intersects(ROTATE270, ROTATE90 | ROTATE270));
    assert!(!intersects(ROTATE0, ROTATE90 | ROTATE270));
}

#[test]
fn update_positions() {
    for v in 0u8..8 {
        assert_eq!(Update::from_u8(v).to_u8(), v);
        assert_eq!(u8::from(Update::from_u8(v)), v);
    }
    assert_eq!(Update::from_u8(2), Update::Resolution);
    assert_eq!(Update::Primary.to_u8(), 7);
}

#[test]
fn value_wrappers_round_trip() {
    assert_eq!(I16::new(-5).get(), -5);
    assert_eq!(I16::from_i32(-32768).to_i32(), -32768);
    assert_eq!(I16::default().get(), 0);
    assert_eq!(U16::new(65535).get(), 65535);
    assert_eq!(U16::from_u32(1234).to_u32(), 1234);
    assert_eq!(U16::default().get(), 0);
}

const TABLE_HEADER: &str = "| Attribute | Type | Default | Description |\n|-|-|-|-|\n";

#[test]
fn display_font_table() {
    let expected = format!(
        "### `[display.font]` Output area font configuration\n\n{TABLE_HEADER}\
         | `family` | `String` | `monospace` | Font family |\n\
         | `size` | `Integer` | `12` | Font size in pt |\n\
         | `weight` | `Weight` | `bold` | Font weight |\n"
    );
    assert_eq!(<display::Font as MarkdownTable>::to_markdown_table("display.font", 3), expected);
}

#[test]
fn display_colors_table() {
    let expected = format!(
        "\n### `[display.colors.light]` Output area light theme colors\n\n{TABLE_HEADER}\
         | `text` | `Color` | `#000000` | Output name text color |\n\
         | `output` | `Color` | `#e8e6e3` | Output background color |\n\
         | `border` | `Color` | `#d8d4d0` | Output border color |\n\
         | `screen` | `Color` | `#cdc7c2` | Screen rectangle color |\n\
         | `selection` | `Color` | `#3584e4` | Output selection color |\n\
         \n### `[display.colors.dark]` Output area dark theme colors\n\n{TABLE_HEADER}\
         | `text` | `Color` | `#ffffff` | Output name text color |\n\
         | `output` | `Color` | `#202020` | Output background color |\n\
         | `border` | `Color` | `#282828` | Output border color |\n\
         | `screen` | `Color` | `#1b1b1b` | Screen rectangle color |\n\
         | `selection` | `Color` | `#1b68c6` | Output selection color |\n"
    );
    assert_eq!(<display::Colors as MarkdownTable>::to_markdown_table("display.colors", 3), expected);
}

#[test]
fn popup_tables() {
    let font = format!(
        "### `[popup.font]` Identify popup font configuration\n\n{TABLE_HEADER}\
         | `family` | `String` | `Sans` | Font family |\n\
         | `size` | `Integer or \"auto\"` | `auto` | Font size in pt or \"auto\" |\n\
         | `weight` | `Weight` | `bold` | Font weight |\n"
    );
    assert_eq!(<popup::Font as MarkdownTable>::to_markdown_table("popup.font", 3), font);
    let colors = format!(
        "\n### `[popup.colors.light]` Identify popup light theme colors\n\n{TABLE_HEADER}\
         | `text` | `Color` | `#000000` | Text color |\n\
         | `background` | `Color` | `#f6f5f4` | Background color |\n\
         | `border` | `Color` | `#cdc7c2` | Border color |\n\
         \n### `[popup.colors.dark]` Identify popup dark theme colors\n\n{TABLE_HEADER}\
         | `text` | `Color` | `#ffffff` | Text color |\n\
         | `background` | `Color` | `#353535` | Background color |\n\
         | `border` | `Color` | `#1b1b1b` | Border color |\n"
    );
    assert_eq!(<popup::Colors as MarkdownTable>::to_markdown_table("popup.colors", 3), colors);
}

#[test]
fn table_keys_at_root_and_nested() {
    let root = <LightColors as MarkdownTable>::to_markdown_table("", 2);
    assert!(root.starts_with("## `[]` Output area light theme colors\n\n"));
    let nested = <Colors as MarkdownTable>::to_markdown_table("", 1);
    assert!(nested.starts_with("\n# `[light]` Output area light theme colors"));
    assert!(nested.contains("\n# `[dark]` Output area dark theme colors"));
    assert!(nested.contains("| `bounds` | `Color` | `#3c3c3c` | Screen rectangle color |\n"));
}
