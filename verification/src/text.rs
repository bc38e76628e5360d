//! Textual rendering.
//!
//! A coordinate renders as its decimal value followed by a degree mark, a
//! direction as its single-letter compass code (empty for Center), and an
//! error as its human-readable description. The decimal digits are computed
//! here; nothing is delegated to a formatter.

use vstd::prelude::*;

use crate::coords::LatLngError;
use crate::coords::Latitude;
use crate::coords::Longitude;
use crate::direction::Direction;

verus! {

/// The decimal digit character for `n` in [0, 10).
pub open spec fn dec_digit(n: int) -> char {
    ((48 + n) as u8) as char
}

/// The decimal digits of a non-negative number, most significant first.
pub open spec fn dec_nat(n: int) -> Seq<char>
    decreases n,
{
    if n < 10 {
        seq![dec_digit(n)]
    } else {
        dec_nat(n / 10).push(dec_digit(n % 10))
    }
}

/// The decimal rendering of a signed number: a minus sign for negative
/// values, then the digits of the magnitude.
pub open spec fn dec_int(n: int) -> Seq<char> {
    if n < 0 {
        seq!['-'] + dec_nat(-n)
    } else {
        dec_nat(n)
    }
}

/// A coordinate's text: its decimal value followed by a degree mark.
pub open spec fn degrees_text(n: int) -> Seq<char> {
    dec_int(n) + "\u{b0}"@
}

/// The single-letter compass code of a direction; Center renders as the
/// empty string.
pub open spec fn direction_text(d: Direction) -> Seq<char> {
    match d {
        Direction::Notrh => seq!['N'],
        Direction::East => seq!['E'],
        Direction::South => seq!['S'],
        Direction::West => seq!['W'],
        Direction::Center => Seq::empty(),
    }
}

fn digit_str(d: u128) -> (r: &'static str)
    requires
        d < 10,
    ensures
        r@ == seq![dec_digit(d as int)],
{
    proof {
        reveal_strlit("0");
        reveal_strlit("1");
        reveal_strlit("2");
        reveal_strlit("3");
        reveal_strlit("4");
        reveal_strlit("5");
        reveal_strlit("6");
        reveal_strlit("7");
        reveal_strlit("8");
        reveal_strlit("9");
    }
    match d {
        0 => "0",
        1 => "1",
        2 => "2",
        3 => "3",
        4 => "4",
        5 => "5",
        6 => "6",
        7 => "7",
        8 => "8",
        _ => "9",
    }
}

fn push_dec_nat(s: &mut String, n: u128)
    ensures
        final(s)@ == old(s)@ + dec_nat(n as int),
    decreases n,
{
    if n >= 10 {
        push_dec_nat(s, n / 10);
        s.append(digit_str(n % 10));
        proof {
            assert(s@ =~= old(s)@ + dec_nat(n as int));
        }
    } else {
        s.append(digit_str(n));
        proof {
            assert(s@ =~= old(s)@ + dec_nat(n as int));
        }
    }
}

/// Renders `n` as a signed decimal number followed by a degree mark.
pub(crate) fn render_degrees(n: i128) -> (r: String)
    ensures
        r@ == degrees_text(n as int),
{
    let mut s = String::new();
    let m: u128 = if n >= 0 {
        n as u128
    } else {
        s.append("-");
        proof {
            reveal_strlit("-");
        }
        ((-(n + 1)) as u128) + 1
    };
    push_dec_nat(&mut s, m);
    s.append("\u{b0}");
    proof {
        assert(s@ =~= degrees_text(n as int));
    }
    s
}

impl Direction {
    /// The compass code used when a coordinate is rendered.
    pub fn to_text(&self) -> (r: &'static str)
        ensures
            r@ == direction_text(*self),
    {
        proof {
            reveal_strlit("N");
            reveal_strlit("E");
            reveal_strlit("S");
            reveal_strlit("W");
            reveal_strlit("");
        }
        match self {
            Direction::Notrh => "N",
            Direction::East => "E",
            Direction::South => "S",
            Direction::West => "W",
            Direction::Center => "",
        }
    }
}

impl LatLngError {
    /// The human-readable description of the error.
    pub fn message(&self) -> (r: &'static str)
        ensures
            *self == LatLngError::LatitudeOutOfRange ==> r@ == "Latitude must be between -90\u{b0} and 90\u{b0}"@,
            *self == LatLngError::LongitudeOutOfRange ==> r@ == "Longitude must be between -180\u{b0} and 180\u{b0}"@,
    {
        match self {
            LatLngError::LatitudeOutOfRange => "Latitude must be between -90\u{b0} and 90\u{b0}",
            LatLngError::LongitudeOutOfRange => "Longitude must be between -180\u{b0} and 180\u{b0}",
        }
    }
}

impl Latitude<i8> {
    /// The coordinate's text: its value followed by a degree mark.
    pub fn to_text(&self) -> (r: String)
        ensures
            r@ == degrees_text(self.0 as int),
    {
        render_degrees(self.0 as i128)
    }
}

impl Latitude<i16> {
    /// The coordinate's text: its value followed by a degree mark.
    pub fn to_text(&self) -> (r: String)
        ensures
            r@ == degrees_text(self.0 as int),
    {
        render_degrees(self.0 as i128)
    }
}

impl Latitude<i32> {
    /// The coordinate's text: its value followed by a degree mark.
    pub fn to_text(&self) -> (r: String)
        ensures
            r@ == degrees_text(self.0 as int),
    {
        render_degrees(self.0 as i128)
    }
}

impl Latitude<i64> {
    /// The coordinate's text: its value followed by a degree mark.
    pub fn to_text(&self) -> (r: String)
        ensures
            r@ == degrees_text(self.0 as int),
    {
        render_degrees(self.0 as i128)
    }
}

impl Latitude<i128> {
    /// The coordinate's text: its value followed by a degree mark.
    pub fn to_text(&self) -> (r: String)
        ensures
            r@ == degrees_text(self.0 as int),
    {
        render_degrees(self.0 as i128)
    }
}

impl Latitude<isize> {
    /// The coordinate's text: its value followed by a degree mark.
    pub fn to_text(&self) -> (r: String)
        ensures
            r@ == degrees_text(self.0 as int),
    {
        render_degrees(self.0 as i128)
    }
}

impl Longitude<i8> {
    /// The coordinate's text: its value followed by a degree mark.
    pub fn to_text(&self) -> (r: String)
        ensures
            r@ == degrees_text(self.0 as int),
    {
        render_degrees(self.0 as i128)
    }
}

impl Longitude<i16> {
    /// The coordinate's text: its value followed by a degree mark.
    pub fn to_text(&self) -> (r: String)
        ensures
            r@ == degrees_text(self.0 as int),
    {
        render_degrees(self.0 as i128)
    }
}

impl Longitude<i32> {
    /// The coordinate's text: its value followed by a degree mark.
    pub fn to_text(&self) -> (r: String)
        ensures
            r@ == degrees_text(self.0 as int),
    {
        render_degrees(self.0 as i128)
    }
}

impl Longitude<i64> {
    /// The coordinate's text: its value followed by a degree mark.
    pub fn to_text(&self) -> (r: String)
        ensures
            r@ == degrees_text(self.0 as int),
    {
        render_degrees(self.0 as i128)
    }
}

impl Longitude<i128> {
    /// The coordinate's text: its value followed by a degree mark.
    pub fn to_text(&self) -> (r: String)
        ensures
            r@ == degrees_text(self.0 as int),
    {
        render_degrees(self.0 as i128)
    }
}

impl Longitude<isize> {
    /// The coordinate's text: its value followed by a degree mark.
    pub fn to_text(&self) -> (r: String)
        ensures
            r@ == degrees_text(self.0 as int),
    {
        render_degrees(self.0 as i128)
    }
}

} // verus!
