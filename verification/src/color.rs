//! Ball and background colors, and their CSS-style text form.

use vstd::prelude::*;
use vstd::string::StringExecFns;
use crate::num::UNIT;

verus! {

/// An RGBA color. `red`, `green` and `blue` are the usual 0..=255 channel
/// values; `alpha` is an opacity in `UNIT`s (thousandths), so `UNIT` is fully
/// opaque.
#[derive(Clone, Copy, Debug, PartialEq, Eq, Structural)]
pub struct Color {
    pub red: i64,
    pub green: i64,
    pub blue: i64,
    pub alpha: i64,
}

/// The decimal digit `d` as a character.
pub open spec fn digit_char(d: int) -> char {
    if d == 0 {
        '0'
    } else if d == 1 {
        '1'
    } else if d == 2 {
        '2'
    } else if d == 3 {
        '3'
    } else if d == 4 {
        '4'
    } else if d == 5 {
        '5'
    } else if d == 6 {
        '6'
    } else if d == 7 {
        '7'
    } else if d == 8 {
        '8'
    } else {
        '9'
    }
}

/// The decimal digits of `n`, most significant first, without a sign and
/// without leading zeros (`0` itself is the single digit `0`).
pub open spec fn decimal_digits(n: int) -> Seq<char>
    decreases n,
{
    if n < 10 {
        seq![digit_char(n)]
    } else {
        decimal_digits(n / 10) + seq![digit_char(n % 10)]
    }
}

/// A fraction of a `UNIT` as exactly three digits, zero-padded on the left.
pub open spec fn frac3_chars(a: int) -> Seq<char> {
    if a < 10 {
        "00"@ + decimal_digits(a)
    } else if a < 100 {
        "0"@ + decimal_digits(a)
    } else {
        decimal_digits(a)
    }
}

/// An alpha value in `UNIT`s as CSS text: `UNIT` itself prints as `1`, any
/// smaller value as `0.` followed by its three-digit fraction.
pub open spec fn alpha_chars(a: int) -> Seq<char> {
    if a == UNIT as int {
        "1"@
    } else {
        "0."@ + frac3_chars(a)
    }
}

/// The CSS text of a color: `rgb(R, G, B, A)`.
pub open spec fn css_of(c: Color) -> Seq<char> {
    "rgb("@ + decimal_digits(c.red as int) + ", "@ + decimal_digits(c.green as int) + ", "@
        + decimal_digits(c.blue as int) + ", "@ + alpha_chars(c.alpha as int) + ")"@
}

/// The decimal digit `d` as a one-character string slice.
fn digit_str(d: i64) -> (s: &'static str)
    requires
        0 <= d < 10,
    ensures
        s@ == seq![digit_char(d as int)],
{
    proof {
        reveal_strlit("0");
        reveal_strlit("1");
        reveal_strlit("2");
        reveal_strlit("3");
        reveal_strlit("4");
        reveal_strlit("5");
        reveal_strlit("6");
        reveal_strlit("7");
        reveal_strlit("8");
        reveal_strlit("9");
    }
    let s: &'static str = if d == 0 {
        "0"
    } else if d == 1 {
        "1"
    } else if d == 2 {
        "2"
    } else if d == 3 {
        "3"
    } else if d == 4 {
        "4"
    } else if d == 5 {
        "5"
    } else if d == 6 {
        "6"
    } else if d == 7 {
        "7"
    } else if d == 8 {
        "8"
    } else {
        "9"
    };
    proof {
        assert(s@ =~= seq![digit_char(d as int)]);
    }
    s
}

/// Appends the decimal digits of `n` to `s`.
fn push_decimal(s: &mut String, n: i64)
    requires
        0 <= n,
    ensures
        final(s)@ == old(s)@ + decimal_digits(n as int),
    decreases n,
{
    if n >= 10 {
        push_decimal(s, n / 10);
        s.append(digit_str(n % 10));
        proof {
            assert(s@ =~= old(s)@ + decimal_digits(n as int));
        }
    } else {
        s.append(digit_str(n));
        proof {
            assert(s@ =~= old(s)@ + decimal_digits(n as int));
        }
    }
}

impl Color {
    /// Channel values a color of this library can take: byte-sized RGB
    /// channels and an alpha of at most one.
    pub open spec fn wf(self) -> bool {
        &&& 0 <= self.red
        &&& 0 <= self.green
        &&& 0 <= self.blue
        &&& 0 <= self.alpha <= UNIT as int
    }

    /// The color as CSS text, `rgb(R, G, B, A)`.
    pub fn to_css(&self) -> (s: String)
        requires
            self.wf(),
        ensures
            s@ == css_of(*self),
    {
        let mut s = String::from_str("rgb(");
        push_decimal(&mut s, self.red);
        s.append(", ");
        push_decimal(&mut s, self.green);
        s.append(", ");
        push_decimal(&mut s, self.blue);
        s.append(", ");
        if self.alpha == UNIT {
            s.append("1");
        } else {
            s.append("0.");
            if self.alpha < 10 {
                s.append("00");
            } else if self.alpha < 100 {
                s.append("0");
            }
            push_decimal(&mut s, self.alpha);
        }
        s.append(")");
        proof {
            assert(s@ =~= css_of(*self));
        }
        s
    }
}

/// The fixed background color: opaque black.
pub open spec fn bg_color_spec() -> Color {
    Color { red: 0, green: 0, blue: 0, alpha: UNIT as i64 }
}

/// The background color of every frame, opaque black.
pub fn bg_color() -> (c: Color)
    ensures
        c == bg_color_spec(),
{
    Color { red: 0, green: 0, blue: 0, alpha: UNIT }
}

} // verus!
