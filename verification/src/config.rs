//! Configuration values: colors, fonts, optional values and the tables that
//! document them.

pub mod auto;
pub mod color;
pub mod display;
pub mod enums;
pub mod popup;

use vstd::prelude::*;

use crate::text::{push_char, push_str};

verus! {

/// Documentation of a configuration table as a Markdown table.
pub trait MarkdownTable {
    fn to_markdown_table(key: &str, lvl: u8) -> String;
}

/// Heading of a table's documentation: `lvl` hashes, the table's key in brackets and
/// its description, then the header of the attribute table.
pub open spec fn md_heading(key: Seq<char>, lvl: nat, desc: Seq<char>) -> Seq<char> {
    Seq::new(lvl, |i: int| '#') + " `["@ + key + "]` "@ + desc + "\n\n"@
        + "| Attribute | Type | Default | Description |\n"@ + "|-|-|-|-|\n"@
}

/// One attribute of a table's documentation: its name, type, default and
/// description.
pub open spec fn md_row(attr: Seq<char>, ty: Seq<char>, default: Seq<char>, desc: Seq<char>) -> Seq<
    char,
> {
    "| `"@ + attr + "` | `"@ + ty + "` | `"@ + default + "` | "@ + desc + " |\n"@
}

/// The key of a nested table: the name under the parent's key.
pub open spec fn sub_key(key: Seq<char>, name: Seq<char>) -> Seq<char> {
    if key.len() == 0 {
        name
    } else {
        key + "."@ + name
    }
}

/// Appends the heading of a table's documentation.
pub(crate) fn push_md_heading(s: &mut String, key: &str, lvl: u8, desc: &str)
    ensures
        final(s)@ == old(s)@ + md_heading(key@, lvl as nat, desc@),
{
    let ghost start = s@;
    let mut i: u8 = 0;
    while i < lvl
        invariant
            0 <= i <= lvl,
            s@ == start + Seq::new(i as nat, |k: int| '#'),
        decreases lvl - i,
    {
        push_char(s, '#');
        i += 1;
        assert(s@ =~= start + Seq::new(i as nat, |k: int| '#'));
    }
    push_str(s, " `[");
    push_str(s, key);
    push_str(s, "]` ");
    push_str(s, desc);
    push_str(s, "\n\n");
    push_str(s, "| Attribute | Type | Default | Description |\n");
    push_str(s, "|-|-|-|-|\n");
    assert(s@ =~= start + md_heading(key@, lvl as nat, desc@));
}

/// Appends one attribute of a table's documentation.
pub(crate) fn push_md_row(s: &mut String, attr: &str, ty: &str, default: &str, desc: &str)
    ensures
        final(s)@ == old(s)@ + md_row(attr@, ty@, default@, desc@),
{
    let ghost start = s@;
    push_str(s, "| `");
    push_str(s, attr);
    push_str(s, "` | `");
    push_str(s, ty);
    push_str(s, "` | `");
    push_str(s, default);
    push_str(s, "` | ");
    push_str(s, desc);
    push_str(s, " |\n");
    assert(s@ =~= start + md_row(attr@, ty@, default@, desc@));
}

/// The key of a nested table.
pub(crate) fn nested_key(key: &str, name: &str) -> (r: String)
    ensures
        r@ == sub_key(key@, name@),
{
    let mut s = String::new();
    push_str(&mut s, key);
    if !key.is_empty() {
        push_str(&mut s, ".");
    }
    push_str(&mut s, name);
    assert(s@ =~= sub_key(key@, name@));
    s
}

/// Appends a nested table's documentation after an empty line.
pub(crate) fn push_nested(s: &mut String, table: String)
    ensures
        final(s)@ == old(s)@ + "\n"@ + table@,
{
    let ghost start = s@;
    push_str(s, "\n");
    push_str(s, table.as_str());
    assert(s@ =~= start + "\n"@ + table@);
}

} // verus!
