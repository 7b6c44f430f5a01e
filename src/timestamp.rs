//! The observation time, read from the page caption.

use vstd::prelude::*;
use crate::text::{char_is_digit, is_digit};

verus! {

/// Length of the `YYYY.MM.DD.HH:MM` stamp.
pub const STAMP_LEN: usize = 16;

/// `t` has the shape `YYYY.MM.DD.HH:MM`, with ASCII digits.
pub open spec fn stamp_shape(t: Seq<char>) -> bool {
    &&& t.len() == STAMP_LEN
    &&& is_digit(t[0]) && is_digit(t[1]) && is_digit(t[2]) && is_digit(t[3])
    &&& t[4] == '.'
    &&& is_digit(t[5]) && is_digit(t[6])
    &&& t[7] == '.'
    &&& is_digit(t[8]) && is_digit(t[9])
    &&& t[10] == '.'
    &&& is_digit(t[11]) && is_digit(t[12])
    &&& t[13] == ':'
    &&& is_digit(t[14]) && is_digit(t[15])
}

/// The last `STAMP_LEN` characters of `s`.
pub open spec fn stamp_tail(s: Seq<char>) -> Seq<char> {
    s.subrange(s.len() - STAMP_LEN, s.len() as int)
}

/// The caption `s` ends with a stamp.
pub open spec fn has_stamp(s: Seq<char>) -> bool {
    s.len() >= STAMP_LEN && stamp_shape(stamp_tail(s))
}

/// The stamp that ends `s`, written `YYYY-MM-DDTHH:MM:00+0900`.
pub open spec fn observed_at_of(s: Seq<char>) -> Seq<char> {
    let t = stamp_tail(s);
    t.subrange(0, 4) + "-"@ + t.subrange(5, 7) + "-"@ + t.subrange(8, 10) + "T"@ + t.subrange(
        11,
        13,
    ) + ":"@ + t.subrange(14, 16) + ":00+0900"@
}

fn is_stamp(t: &str) -> (r: bool)
    requires
        t@.len() == STAMP_LEN,
    ensures
        r == stamp_shape(t@),
{
    char_is_digit(t.get_char(0)) && char_is_digit(t.get_char(1)) && char_is_digit(t.get_char(2))
        && char_is_digit(t.get_char(3)) && t.get_char(4) == '.' && char_is_digit(t.get_char(5))
        && char_is_digit(t.get_char(6)) && t.get_char(7) == '.' && char_is_digit(t.get_char(8))
        && char_is_digit(t.get_char(9)) && t.get_char(10) == '.' && char_is_digit(t.get_char(11))
        && char_is_digit(t.get_char(12)) && t.get_char(13) == ':' && char_is_digit(
        t.get_char(14),
    ) && char_is_digit(t.get_char(15))
}

/// Reads the observation time from the end of the caption: `None` unless
/// the caption ends with `YYYY.MM.DD.HH:MM`, which is given back as
/// `YYYY-MM-DDTHH:MM:00+0900` (the stations' fixed UTC+9 offset).
pub fn extract_observed_at(caption: &str) -> (r: Option<String>)
    ensures
        r is Some <==> has_stamp(caption@),
        r matches Some(o) ==> o@ == observed_at_of(caption@),
{
    let n = caption.unicode_len();
    if n < STAMP_LEN {
        return None;
    }
    let t = caption.substring_char(n - STAMP_LEN, n);
    if !is_stamp(t) {
        return None;
    }
    let mut o = String::from_str(t.substring_char(0, 4));
    o.append("-");
    o.append(t.substring_char(5, 7));
    o.append("-");
    o.append(t.substring_char(8, 10));
    o.append("T");
    o.append(t.substring_char(11, 13));
    o.append(":");
    o.append(t.substring_char(14, 16));
    o.append(":00+0900");
    Some(o)
}

} // verus!
