use vstd::prelude::*;

use crate::text::{dec_digits, push_char, push_decimal, push_spaces};

verus! {

/// A display mode of an output: its RandR id and resolution.
#[derive(Clone, Copy, Debug, PartialEq, Eq, Structural)]
pub struct Mode {
    id: u32,
    width: u16,
    height: u16,
}

/// Narrow no-break space, used between the numbers of a resolution.
pub const NNBSP: char = '\u{202F}';

/// Number of spaces that pad a text of `len` characters to `width` characters.
pub open spec fn pad_len(len: int, width: int) -> int {
    if width > len {
        width - len
    } else {
        0
    }
}

/// A resolution as `W x H`, the height left-aligned in a field of `format_width`
/// characters.
pub open spec fn spec_resolution_str(width: u16, height: u16, format_width: int) -> Seq<char> {
    dec_digits(width as nat) + seq![NNBSP, 'x', NNBSP] + dec_digits(height as nat) + Seq::new(
        pad_len(dec_digits(height as nat).len() as int, format_width) as nat,
        |i: int| ' ',
    )
}

/// Number of decimal digits of a number.
pub fn decimal_len(n: u64) -> (r: usize)
    ensures
        r == dec_digits(n as nat).len(),
        1 <= r <= 20,
    decreases n,
{
    if n >= 10 {
        let k = decimal_len(n / 10);
        assert(dec_digits(n as nat).len() == dec_digits((n / 10) as nat).len() + 1);
        if k >= 20 {
            // A u64 has at most twenty digits.
            proof {
                lemma_dec_digits_len_bound(n as nat);
            }
        }
        k + 1
    } else {
        1
    }
}

proof fn lemma_dec_digits_len_bound(n: nat)
    requires
        n <= u64::MAX,
    ensures
        dec_digits(n).len() <= 20,
{
    reveal_with_fuel(pow10, 21);
    assert(pow10(20) == 100000000000000000000nat);
    lemma_dec_digits_len_pow(n, 20);
}

proof fn lemma_dec_digits_len_pow(n: nat, k: nat)
    requires
        n < pow10(k),
        k >= 1,
    ensures
        dec_digits(n).len() <= k,
    decreases k,
{
    if n >= 10 {
        lemma_dec_digits_len_pow(n / 10, (k - 1) as nat);
    }
}

spec fn pow10(k: nat) -> nat
    decreases k,
{
    if k == 0 {
        1
    } else {
        10 * pow10((k - 1) as nat)
    }
}

impl Mode {
    pub closed spec fn spec_id(&self) -> u32 {
        self.id
    }

    pub closed spec fn spec_width(&self) -> u16 {
        self.width
    }

    pub closed spec fn spec_height(&self) -> u16 {
        self.height
    }

    pub fn new(id: u32, width: u16, height: u16) -> (m: Mode)
        ensures
            m.spec_id() == id,
            m.spec_width() == width,
            m.spec_height() == height,
    {
        Mode { id, width, height }
    }

    pub fn id(&self) -> (r: u32)
        ensures
            r == self.spec_id(),
    {
        self.id
    }

    pub fn width(&self) -> (r: u16)
        ensures
            r == self.spec_width(),
    {
        self.width
    }

    pub fn height(&self) -> (r: u16)
        ensures
            r == self.spec_height(),
    {
        self.height
    }

    /// The resolution as `W x H` with narrow no-break spaces around the `x`; the height
    /// is left-aligned in a field of `format_width` characters.
    pub fn as_resolution_str(&self, format_width: Option<usize>) -> (r: String)
        ensures
            r@ == spec_resolution_str(
                self.spec_width(),
                self.spec_height(),
                match format_width {
                    Some(w) => w as int,
                    None => 0,
                },
            ),
    {
        let fw = match format_width {
            Some(w) => w,
            None => 0,
        };
        let mut s = String::new();
        push_decimal(&mut s, self.width as u64);
        push_char(&mut s, NNBSP);
        push_char(&mut s, 'x');
        push_char(&mut s, NNBSP);
        push_decimal(&mut s, self.height as u64);
        let len = decimal_len(self.height as u64);
        let pad = if fw > len {
            fw - len
        } else {
            0
        };
        push_spaces(&mut s, pad);
        assert(s@ =~= spec_resolution_str(self.width, self.height, fw as int));
        s
    }
}

} // verus!
