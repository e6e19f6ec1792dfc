use vstd::prelude::*;

verus! {

/// A signed 16-bit value stored in a 32-bit property.
#[derive(Clone, Copy, Debug)]
pub struct I16(i16);

impl View for I16 {
    type V = i16;

    closed spec fn view(&self) -> i16 {
        self.0
    }
}

impl I16 {
    pub fn new(value: i16) -> (r: Self)
        ensures
            r@ == value,
    {
        Self(value)
    }

    pub fn get(self) -> (r: i16)
        ensures
            r == self@,
    {
        self.0
    }

    /// The value of a 32-bit property; it must fit in 16 bits.
    pub fn from_i32(value: i32) -> (r: Self)
        requires
            i16::MIN <= value <= i16::MAX,
        ensures
            r@ == value,
    {
        Self(value as i16)
    }

    /// The value widened to 32 bits.
    pub fn to_i32(self) -> (r: i32)
        ensures
            r == self@,
    {
        self.0 as i32
    }
}

impl Default for I16 {
    fn default() -> (r: Self)
        ensures
            r@ == 0,
    {
        Self(0)
    }
}

/// An unsigned 16-bit value stored in a 32-bit property.
#[derive(Clone, Copy, Debug)]
pub struct U16(u16);

impl View for U16 {
    type V = u16;

    closed spec fn view(&self) -> u16 {
        self.0
    }
}

impl U16 {
    pub fn new(value: u16) -> (r: Self)
        ensures
            r@ == value,
    {
        Self(value)
    }

    pub fn get(self) -> (r: u16)
        ensures
            r == self@,
    {
        self.0
    }

    /// The value of a 32-bit property; it must fit in 16 bits.
    pub fn from_u32(value: u32) -> (r: Self)
        requires
            value <= u16::MAX,
        ensures
            r@ == value,
    {
        Self(value as u16)
    }

    /// The value widened to 32 bits.
    pub fn to_u32(self) -> (r: u32)
        ensures
            r == self@,
    {
        self.0 as u32
    }
}

impl Default for U16 {
    fn default() -> (r: Self)
        ensures
            r@ == 0,
    {
        Self(0)
    }
}

/// Widening to 32 bits and narrowing back gives the value unchanged, and a 32-bit
/// value that fits in 16 bits survives the opposite way.
pub proof fn lemma_i16_roundtrip(v: i16, w: i32)
    ensures
        (v as i32) as i16 == v,
        i16::MIN <= w <= i16::MAX ==> ((w as i16) as i32) == w,
{
}

/// Widening to 32 bits and narrowing back gives the value unchanged, and a 32-bit
/// value that fits in 16 bits survives the opposite way.
pub proof fn lemma_u16_roundtrip(v: u16, w: u32)
    ensures
        (v as u32) as u16 == v,
        w <= u16::MAX ==> ((w as u16) as u32) == w,
{
}

} // verus!
