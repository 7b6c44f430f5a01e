//! Extraction of weather-station observations from a station table page:
//! cell tokenizing, per-column field decoding, record assembly and
//! timestamp extraction, each with a checked contract.

pub mod fields;
pub mod page;
pub mod record;
pub mod text;
pub mod timestamp;
