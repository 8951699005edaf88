//! The numeric behaviour of the settings widget's spin button: stepping a
//! value within bounds, zero-padded rendering, parsing what the user
//! typed, and the 12-hour clock conversion. The widget itself only wires
//! these functions to its entry and buttons.

use vstd::prelude::*;
use crate::accounts::{parse_u32, spec_parse_u32};
use crate::expr::{digit_char, digit_str};

verus! {

/// The decimal rendering of a value, most significant digit first.
pub open spec fn spec_decimal_u32(n: u32) -> Seq<char>
    decreases n,
{
    if n < 10 {
        seq![digit_char(n as u8)]
    } else {
        spec_decimal_u32(n / 10) + seq![digit_char((n % 10) as u8)]
    }
}

/// A run of `k` zero characters (empty when `k` is negative).
pub open spec fn spec_zeros(k: int) -> Seq<char> {
    Seq::new(if k < 0 { 0 } else { k as nat }, |i: int| '0')
}

/// A value rendered in decimal, left-padded with zeros to `padding`
/// characters (longer values are not truncated).
pub open spec fn spec_format_number(n: u32, padding: int) -> Seq<char> {
    spec_zeros(padding - spec_decimal_u32(n).len()) + spec_decimal_u32(n)
}

/// Append the decimal rendering of `n`.
fn push_decimal(out: &mut String, n: u32)
    ensures
        final(out)@ == old(out)@ + spec_decimal_u32(n),
    decreases n,
{
    if n >= 10 {
        push_decimal(out, n / 10);
        out.append(digit_str((n % 10) as u8));
        proof {
            assert(out@ =~= old(out)@ + spec_decimal_u32(n));
        }
    } else {
        out.append(digit_str(n as u8));
    }
}

/// Render a value in decimal, left-padded with zeros to `padding`
/// characters.
pub fn format_number(value: u32, padding: usize) -> (r: String)
    ensures
        r@ == spec_format_number(value, padding as int),
{
    let mut digits = String::new();
    push_decimal(&mut digits, value);
    let len = digits.unicode_len();
    let mut out = String::new();
    let mut k: usize = len;
    proof {
        assert(out@ =~= spec_zeros(k - len));
    }
    while k < padding
        invariant
            len == spec_decimal_u32(value).len(),
            len <= k,
            k <= padding || k == len,
            out@ == spec_zeros(k - len),
        decreases padding - k,
    {
        out.append("0");
        k = k + 1;
        proof {
            reveal_strlit("0");
            assert(out@ =~= spec_zeros(k - len));
        }
    }
    out.append(digits.as_str());
    proof {
        assert(out@ =~= spec_format_number(value, padding as int));
    }
    out
}

/// Clamp a value into `min..=max` (for `min <= max`).
pub open spec fn spec_clamp_to(v: u32, min: u32, max: u32) -> u32 {
    if v < min {
        min
    } else if v > max {
        max
    } else {
        v
    }
}

/// The numeric state of a spin button: its bounds, step sizes, and the
/// width values are padded to.
#[derive(Clone, Copy, Debug, PartialEq, Eq, Structural)]
pub struct BetterSpinButton {
    pub min: u32,
    pub max: u32,
    pub inc_small: u32,
    pub inc_large: u32,
    pub padding: u32,
}

impl BetterSpinButton {
    /// A spin button over `min..=max`, stepping by `inc_small` or
    /// `inc_large`, rendering values padded to `padding` characters.
    pub fn new(min: u32, max: u32, inc_small: u32, inc_large: u32, padding: u32) -> (r:
        BetterSpinButton)
        ensures
            r == (BetterSpinButton { min, max, inc_small, inc_large, padding }),
    {
        BetterSpinButton { min, max, inc_small, inc_large, padding }
    }

    /// Increase a value by `inc` without exceeding the maximum.
    pub fn increase(&self, value: u32, inc: u32) -> (r: u32)
        requires
            value + inc <= u32::MAX,
        ensures
            r == (if value + inc > self.max {
                self.max
            } else {
                (value + inc) as u32
            }),
    {
        let stepped = value + inc;
        if stepped > self.max {
            self.max
        } else {
            stepped
        }
    }

    /// Decrease a value by `inc` without passing the minimum.
    pub fn decrease(&self, value: u32, inc: u32) -> (r: u32)
        ensures
            r == (if value < inc || value - inc < self.min {
                self.min
            } else {
                (value - inc) as u32
            }),
    {
        if value < inc {
            self.min
        } else {
            let stepped = value - inc;
            if stepped < self.min {
                self.min
            } else {
                stepped
            }
        }
    }

    /// The text shown for a value: padded decimal.
    pub fn set_value(&self, value: u32) -> (r: String)
        ensures
            r@ == spec_format_number(value, self.padding as int),
    {
        format_number(value, self.padding as usize)
    }

    /// The value read back from the entry's text: its number, or zero when
    /// it holds none.
    pub fn value(&self, text: &str) -> (r: u32)
        ensures
            r == (match spec_parse_u32(text@) {
                Some(v) => v,
                None => 0u32,
            }),
    {
        match parse_u32(text) {
            Some(v) => v,
            None => 0,
        }
    }

    /// What typed text becomes once checked: its number clamped into the
    /// bounds — the minimum when it holds no number — rendered padded.
    pub fn normalize(&self, text: &str) -> (r: String)
        ensures
            r@ == spec_format_number(
                match spec_parse_u32(text@) {
                    Some(v) => spec_clamp_to(v, self.min, self.max),
                    None => self.min,
                },
                self.padding as int,
            ),
    {
        let value = match parse_u32(text) {
            Some(v) => {
                if v < self.min {
                    self.min
                } else if v > self.max {
                    self.max
                } else {
                    v
                }
            },
            None => self.min,
        };
        format_number(value, self.padding as usize)
    }
}

/// A 24-hour clock hour as its 12-hour rendering: the hour shown and
/// whether it is past noon.
pub fn as_12(hour: u8) -> (r: (u8, bool))
    ensures
        hour == 0 ==> r == (12u8, false),
        0 < hour < 12 ==> r == (hour, false),
        hour == 12 ==> r == (12u8, true),
        hour > 12 ==> r == ((hour - 12) as u8, true),
{
    if hour == 0 {
        (12, false)
    } else if hour < 12 {
        (hour, false)
    } else if hour == 12 {
        (12, true)
    } else {
        (hour - 12, true)
    }
}

} // verus!
