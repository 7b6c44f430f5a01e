//! Decoders from one trimmed cell text to a typed field value.

use vstd::prelude::*;
use crate::text::{digits_value, is_u32_text, parse_u32, text_is};

verus! {

/// A decimal number `mantissa * 10^(-scale)`.
#[derive(Clone, Copy, Debug, PartialEq, Eq, Structural)]
pub struct Dec {
    pub mantissa: i128,
    pub scale: u32,
}

/// An optional decimal as a pair of mantissa and scale.
pub open spec fn dec_opt_view(o: Option<Dec>) -> Option<(int, nat)> {
    match o {
        Some(d) => Some((d.mantissa as int, d.scale as nat)),
        None => None,
    }
}

/// The mantissa and scale of the decimal that `rust_decimal` reads from a
/// text, or `None` where it reads none.
pub uninterp spec fn decimal_of(s: Seq<char>) -> Option<(int, nat)>;

/// Relies on `rust_decimal::Decimal::from_str`, the parser behind
/// `Decimal::try_from(&str)`: its result depends on the text alone, it
/// refuses an empty text and a lone `.`, and a value it returns has a scale
/// of at most 28 (`Decimal::MAX_SCALE`).
#[verifier::external_body]
fn parse_decimal_text(s: &str) -> (r: Option<Dec>)
    ensures
        dec_opt_view(r) == decimal_of(s@),
        s@.len() == 0 ==> r is None,
        s@ == seq!['.'] ==> r is None,
        r matches Some(d) ==> d.scale <= 28,
{
    match <rust_decimal::Decimal as std::str::FromStr>::from_str(s) {
        Ok(d) => Some(Dec { mantissa: d.mantissa(), scale: d.scale() }),
        Err(_) => None,
    }
}

/// Reads a decimal field. A text that is no number gives `None`: the station
/// reported no observation there.
pub fn decode_decimal(s: &str) -> (r: Option<Dec>)
    ensures
        dec_opt_view(r) == decimal_of(s@),
        s@.len() == 0 ==> r is None,
        s@ == seq!['.'] ==> r is None,
        r matches Some(d) ==> d.scale <= 28,
{
    parse_decimal_text(s)
}

/// Why a number field could not be read.
#[derive(Clone, Copy, Debug, PartialEq, Eq, Structural)]
pub enum DecodeError {
    /// The text is not a base-10 unsigned integer that fits in `u32`.
    InvalidNumber,
    /// The text is empty, so it has no unit suffix to strip.
    TooShort,
}

/// Reads a base-10 unsigned integer.
pub fn decode_unsigned(s: &str) -> (r: Result<u32, DecodeError>)
    ensures
        r is Ok <==> is_u32_text(s@),
        r matches Ok(v) ==> v as nat == digits_value(s@),
        r is Err ==> r == Err::<u32, DecodeError>(DecodeError::InvalidNumber),
{
    match parse_u32(s) {
        Some(v) => Ok(v),
        None => Err(DecodeError::InvalidNumber),
    }
}

/// An elevation in whole units.
#[derive(Clone, Copy, Debug, PartialEq, Eq, Structural)]
pub struct Height(pub u32);

impl Height {
    /// Reads an elevation written with a one-character unit suffix (`10m`):
    /// the last character is dropped and the rest read as an unsigned
    /// integer.
    pub fn decode(s: &str) -> (r: Result<Height, DecodeError>)
        ensures
            s@.len() == 0 ==> r == Err::<Height, DecodeError>(DecodeError::TooShort),
            s@.len() > 0 ==> (r is Ok <==> is_u32_text(s@.drop_last())),
            s@.len() > 0 && r is Err ==> r == Err::<Height, DecodeError>(
                DecodeError::InvalidNumber,
            ),
            r matches Ok(h) ==> h.0 as nat == digits_value(s@.drop_last()),
    {
        let n = s.unicode_len();
        if n == 0 {
            return Err(DecodeError::TooShort);
        }
        let body = s.substring_char(0, n - 1);
        assert(body@ =~= s@.drop_last());
        match decode_unsigned(body) {
            Ok(v) => Ok(Height(v)),
            Err(e) => Err(e),
        }
    }
}

/// Whether it rains at the station.
#[derive(Clone, Copy, Debug, PartialEq, Eq, Structural)]
pub enum RainStatus {
    Clear,
    Rain,
    Unavailable,
    Unknown,
}

/// The rain status that a cell text stands for.
pub open spec fn rain_status_of(s: Seq<char>) -> RainStatus {
    if s == "●"@ {
        RainStatus::Rain
    } else if s == "○"@ {
        RainStatus::Clear
    } else if s == "."@ {
        RainStatus::Unavailable
    } else {
        RainStatus::Unknown
    }
}

impl RainStatus {
    /// Reads a rain-status glyph: a filled circle is rain, an open circle is
    /// clear, a period is unavailable, and anything else unknown.
    pub fn decode(s: &str) -> (r: RainStatus)
        ensures
            r == rain_status_of(s@),
    {
        if text_is(s, "●") {
            RainStatus::Rain
        } else if text_is(s, "○") {
            RainStatus::Clear
        } else if text_is(s, ".") {
            RainStatus::Unavailable
        } else {
            RainStatus::Unknown
        }
    }
}

/// A compass point, or the absence of a reported direction.
#[derive(Clone, Copy, Debug, PartialEq, Eq, Structural)]
pub enum WindDirectionText {
    N,
    NNW,
    NW,
    WNW,
    W,
    WSW,
    SW,
    SSW,
    S,
    SSE,
    SE,
    ESE,
    E,
    ENE,
    NE,
    NNE,
    /// No direction reported (`-`).
    No,
    /// Any other text.
    Unavailable,
}

/// The wind direction that a cell text stands for.
pub open spec fn wind_direction_of(s: Seq<char>) -> WindDirectionText {
    if s == "N"@ {
        WindDirectionText::N
    } else if s == "NNW"@ {
        WindDirectionText::NNW
    } else if s == "NW"@ {
        WindDirectionText::NW
    } else if s == "WNW"@ {
        WindDirectionText::WNW
    } else if s == "W"@ {
        WindDirectionText::W
    } else if s == "WSW"@ {
        WindDirectionText::WSW
    } else if s == "SW"@ {
        WindDirectionText::SW
    } else if s == "SSW"@ {
        WindDirectionText::SSW
    } else if s == "S"@ {
        WindDirectionText::S
    } else if s == "SSE"@ {
        WindDirectionText::SSE
    } else if s == "SE"@ {
        WindDirectionText::SE
    } else if s == "ESE"@ {
        WindDirectionText::ESE
    } else if s == "E"@ {
        WindDirectionText::E
    } else if s == "ENE"@ {
        WindDirectionText::ENE
    } else if s == "NE"@ {
        WindDirectionText::NE
    } else if s == "NNE"@ {
        WindDirectionText::NNE
    } else if s == "-"@ {
        WindDirectionText::No
    } else {
        WindDirectionText::Unavailable
    }
}

impl WindDirectionText {
    /// Reads one of the sixteen compass abbreviations, or `-` for no
    /// direction; anything else is unavailable.
    pub fn decode(s: &str) -> (r: WindDirectionText)
        ensures
            r == wind_direction_of(s@),
    {
        if text_is(s, "N") {
            WindDirectionText::N
        } else if text_is(s, "NNW") {
            WindDirectionText::NNW
        } else if text_is(s, "NW") {
            WindDirectionText::NW
        } else if text_is(s, "WNW") {
            WindDirectionText::WNW
        } else if text_is(s, "W") {
            WindDirectionText::W
        } else if text_is(s, "WSW") {
            WindDirectionText::WSW
        } else if text_is(s, "SW") {
            WindDirectionText::SW
        } else if text_is(s, "SSW") {
            WindDirectionText::SSW
        } else if text_is(s, "S") {
            WindDirectionText::S
        } else if text_is(s, "SSE") {
            WindDirectionText::SSE
        } else if text_is(s, "SE") {
            WindDirectionText::SE
        } else if text_is(s, "ESE") {
            WindDirectionText::ESE
        } else if text_is(s, "E") {
            WindDirectionText::E
        } else if text_is(s, "ENE") {
            WindDirectionText::ENE
        } else if text_is(s, "NE") {
            WindDirectionText::NE
        } else if text_is(s, "NNE") {
            WindDirectionText::NNE
        } else if text_is(s, "-") {
            WindDirectionText::No
        } else {
            WindDirectionText::Unavailable
        }
    }
}

} // verus!
