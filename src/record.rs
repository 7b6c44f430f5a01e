//! Assembly of one station record from the positional cells of a table row.

use vstd::prelude::*;
use crate::fields::{
    dec_opt_view, decimal_of, decode_decimal, decode_unsigned, rain_status_of,
    wind_direction_of, Dec, Height, RainStatus, WindDirectionText,
};
use crate::text::{digits_value, is_u32_text};

verus! {

/// Number of cells in a station row.
pub const ROW_CELLS: usize = 20;

/// Column of the station id.
pub const COL_ID: usize = 0;

/// Column of the station name.
pub const COL_NAME: usize = 1;

/// Column of the elevation.
pub const COL_HEIGHT: usize = 2;

/// First of the seven rain columns: status, then the 15-minute, 60-minute,
/// 3-hour, 6-hour, 12-hour and daily amounts.
pub const COL_RAIN: usize = 3;

/// Column of the temperature.
pub const COL_TEMPERATURE: usize = 10;

/// First of the three 1-minute wind columns: bearing, compass point, speed.
pub const COL_WIND1: usize = 11;

/// First of the three 10-minute wind columns: bearing, compass point, speed.
pub const COL_WIND10: usize = 14;

/// Column of the humidity.
pub const COL_HUMIDITY: usize = 17;

/// Column of the atmospheric pressure.
pub const COL_ATMOSPHERIC: usize = 18;

/// Column of the address.
pub const COL_ADDRESS: usize = 19;

/// Precipitation state of a station.
#[derive(Clone, Debug, PartialEq)]
pub struct Rain {
    pub is_raining: RainStatus,
    pub rain15: Option<Dec>,
    pub rain60: Option<Dec>,
    pub rain3h: Option<Dec>,
    pub rain6h: Option<Dec>,
    pub rain12h: Option<Dec>,
    pub rainday: Option<Dec>,
}

/// An averaged wind reading.
#[derive(Clone, Debug, PartialEq)]
pub struct Wind {
    pub direction_code: Option<Dec>,
    pub direction_text: WindDirectionText,
    pub velocity: Option<Dec>,
}

/// One station's reading.
#[derive(Clone, Debug, PartialEq)]
pub struct Record {
    pub id: u32,
    pub name: String,
    pub height: Option<Height>,
    pub rain: Rain,
    pub temperature: Option<Dec>,
    pub wind1: Wind,
    pub wind10: Wind,
    pub humidity: Option<Dec>,
    pub atmospheric: Option<Dec>,
    pub address: String,
}

/// Why a row gave no record.
#[derive(Clone, Copy, Debug, PartialEq, Eq, Structural)]
pub enum RowError {
    /// The row has fewer cells than a station row.
    TooFewCells,
    /// The first cell is no station id.
    InvalidId,
}

/// The texts of a row's cells.
pub open spec fn cells_view(v: Seq<String>) -> Seq<Seq<char>> {
    v.map_values(|c: String| c@)
}

/// `h` is the elevation read from the cell text `s`, or `None` where `s`
/// holds none.
pub open spec fn height_matches(h: Option<Height>, s: Seq<char>) -> bool {
    match h {
        Some(x) => s.len() > 0 && is_u32_text(s.drop_last()) && x.0 as nat == digits_value(
            s.drop_last(),
        ),
        None => !(s.len() > 0 && is_u32_text(s.drop_last())),
    }
}

/// `r` is the rain state read from the seven rain cells `c`.
pub open spec fn rain_matches(r: Rain, c: Seq<Seq<char>>) -> bool {
    &&& c.len() == 7
    &&& r.is_raining == rain_status_of(c[0])
    &&& dec_opt_view(r.rain15) == decimal_of(c[1])
    &&& dec_opt_view(r.rain60) == decimal_of(c[2])
    &&& dec_opt_view(r.rain3h) == decimal_of(c[3])
    &&& dec_opt_view(r.rain6h) == decimal_of(c[4])
    &&& dec_opt_view(r.rain12h) == decimal_of(c[5])
    &&& dec_opt_view(r.rainday) == decimal_of(c[6])
}

/// `w` is the wind reading read from the three wind cells `c`.
pub open spec fn wind_matches(w: Wind, c: Seq<Seq<char>>) -> bool {
    &&& c.len() == 3
    &&& dec_opt_view(w.direction_code) == decimal_of(c[0])
    &&& w.direction_text == wind_direction_of(c[1])
    &&& dec_opt_view(w.velocity) == decimal_of(c[2])
}

/// A row gives a record when it has all its cells and its first cell is a
/// station id.
pub open spec fn row_accepted(c: Seq<Seq<char>>) -> bool {
    c.len() >= ROW_CELLS && is_u32_text(c[COL_ID as int])
}

/// `r` is the record read from the row cells `c`, column by column.
pub open spec fn record_matches(r: Record, c: Seq<Seq<char>>) -> bool {
    &&& row_accepted(c)
    &&& r.id as nat == digits_value(c[COL_ID as int])
    &&& r.name@ == c[COL_NAME as int]
    &&& height_matches(r.height, c[COL_HEIGHT as int])
    &&& rain_matches(r.rain, c.subrange(COL_RAIN as int, COL_RAIN + 7))
    &&& dec_opt_view(r.temperature) == decimal_of(c[COL_TEMPERATURE as int])
    &&& wind_matches(r.wind1, c.subrange(COL_WIND1 as int, COL_WIND1 + 3))
    &&& wind_matches(r.wind10, c.subrange(COL_WIND10 as int, COL_WIND10 + 3))
    &&& dec_opt_view(r.humidity) == decimal_of(c[COL_HUMIDITY as int])
    &&& dec_opt_view(r.atmospheric) == decimal_of(c[COL_ATMOSPHERIC as int])
    &&& r.address@ == c[COL_ADDRESS as int]
}

impl Rain {
    /// Reads the seven rain cells that start at `at`.
    pub fn from_cells(cells: &Vec<String>, at: usize) -> (r: Rain)
        requires
            at + 7 <= cells.len(),
        ensures
            rain_matches(r, cells_view(cells@).subrange(at as int, at + 7)),
    {
        Rain {
            is_raining: RainStatus::decode(cells[at].as_str()),
            rain15: decode_decimal(cells[at + 1].as_str()),
            rain60: decode_decimal(cells[at + 2].as_str()),
            rain3h: decode_decimal(cells[at + 3].as_str()),
            rain6h: decode_decimal(cells[at + 4].as_str()),
            rain12h: decode_decimal(cells[at + 5].as_str()),
            rainday: decode_decimal(cells[at + 6].as_str()),
        }
    }
}

impl Wind {
    /// Reads the three wind cells that start at `at`.
    pub fn from_cells(cells: &Vec<String>, at: usize) -> (r: Wind)
        requires
            at + 3 <= cells.len(),
        ensures
            wind_matches(r, cells_view(cells@).subrange(at as int, at + 3)),
    {
        Wind {
            direction_code: decode_decimal(cells[at].as_str()),
            direction_text: WindDirectionText::decode(cells[at + 1].as_str()),
            velocity: decode_decimal(cells[at + 2].as_str()),
        }
    }
}

impl Record {
    /// Reads a station record from a row's trimmed cells. A row with fewer
    /// cells than a station row, or whose first cell is no station id, gives
    /// no record; every other field that cannot be read is left empty.
    pub fn from_cells(cells: &Vec<String>) -> (r: Result<Record, RowError>)
        ensures
            cells@.len() < ROW_CELLS ==> r == Err::<Record, RowError>(RowError::TooFewCells),
            cells@.len() >= ROW_CELLS && !is_u32_text(cells@[COL_ID as int]@) ==> r == Err::<
                Record,
                RowError,
            >(RowError::InvalidId),
            r is Ok <==> row_accepted(cells_view(cells@)),
            r matches Ok(rec) ==> rec.id as nat == digits_value(cells@[COL_ID as int]@),
            r matches Ok(rec) ==> record_matches(rec, cells_view(cells@)),
    {
        if cells.len() < ROW_CELLS {
            return Err(RowError::TooFewCells);
        }
        let id = match decode_unsigned(cells[COL_ID].as_str()) {
            Ok(v) => v,
            Err(_) => return Err(RowError::InvalidId),
        };
        let height = match Height::decode(cells[COL_HEIGHT].as_str()) {
            Ok(h) => Some(h),
            Err(_) => None,
        };
        let rec = Record {
            id,
            name: cells[COL_NAME].clone(),
            height,
            rain: Rain::from_cells(cells, COL_RAIN),
            temperature: decode_decimal(cells[COL_TEMPERATURE].as_str()),
            wind1: Wind::from_cells(cells, COL_WIND1),
            wind10: Wind::from_cells(cells, COL_WIND10),
            humidity: decode_decimal(cells[COL_HUMIDITY].as_str()),
            atmospheric: decode_decimal(cells[COL_ATMOSPHERIC].as_str()),
            address: cells[COL_ADDRESS].clone(),
        };
        assert(record_matches(rec, cells_view(cells@)));
        Ok(rec)
    }
}

} // verus!
