use vstd::prelude::*;

verus! {

/// Font weight of a configured font.
#[derive(Debug, Clone, Copy, PartialEq, Eq, Structural)]
pub enum Weight {
    Thin,
    Ultralight,
    Light,
    Semilight,
    Book,
    Normal,
    Medium,
    Semibold,
    Bold,
    Ultrabold,
    Heavy,
    Ultraheavy,
}

impl Weight {
    /// Lowercase name of the weight, as written in the configuration file.
    pub open spec fn spec_name(self) -> Seq<char> {
        match self {
            Weight::Thin => "thin"@,
            Weight::Ultralight => "ultralight"@,
            Weight::Light => "light"@,
            Weight::Semilight => "semilight"@,
            Weight::Book => "book"@,
            Weight::Normal => "normal"@,
            Weight::Medium => "medium"@,
            Weight::Semibold => "semibold"@,
            Weight::Bold => "bold"@,
            Weight::Ultrabold => "ultrabold"@,
            Weight::Heavy => "heavy"@,
            Weight::Ultraheavy => "ultraheavy"@,
        }
    }

    pub fn name(&self) -> (r: String)
        ensures
            r@ == self.spec_name(),
    {
        match *self {
            Weight::Thin => "thin".to_owned(),
            Weight::Ultralight => "ultralight".to_owned(),
            Weight::Light => "light".to_owned(),
            Weight::Semilight => "semilight".to_owned(),
            Weight::Book => "book".to_owned(),
            Weight::Normal => "normal".to_owned(),
            Weight::Medium => "medium".to_owned(),
            Weight::Semibold => "semibold".to_owned(),
            Weight::Bold => "bold".to_owned(),
            Weight::Ultrabold => "ultrabold".to_owned(),
            Weight::Heavy => "heavy".to_owned(),
            Weight::Ultraheavy => "ultraheavy".to_owned(),
        }
    }
}

/// Line style of an outline.
#[derive(Debug, Clone, Copy, PartialEq, Eq, Structural)]
pub enum BorderStyle {
    Solid,
    Dotted,
    Dashed,
    NoLine,
}

impl BorderStyle {
    /// Lowercase name of the style, as written in the configuration file.
    pub open spec fn spec_name(self) -> Seq<char> {
        match self {
            BorderStyle::Solid => "solid"@,
            BorderStyle::Dotted => "dotted"@,
            BorderStyle::Dashed => "dashed"@,
            BorderStyle::NoLine => "none"@,
        }
    }

    pub fn name(&self) -> (r: String)
        ensures
            r@ == self.spec_name(),
    {
        match *self {
            BorderStyle::Solid => "solid".to_owned(),
            BorderStyle::Dotted => "dotted".to_owned(),
            BorderStyle::Dashed => "dashed".to_owned(),
            BorderStyle::NoLine => "none".to_owned(),
        }
    }
}

} // verus!
