//! Elevation and speed profiles of a GPS track: speed derivation from
//! consecutive samples, and a trailing moving-average filter, over integer
//! series (millimetres, millimetres per second, milliseconds).

pub mod error;
pub mod filter;
pub mod profile;
pub mod speed;
pub mod track;
