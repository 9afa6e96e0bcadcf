use vstd::prelude::*;

verus! {

/// A geographic position in units of 1e-7 degree.
#[derive(Clone, Copy, Debug)]
pub struct Position {
    pub latitude_e7: i32,
    pub longitude_e7: i32,
}

impl Position {
    /// Latitude lies in [-90, 90] degrees and longitude in [-180, 180].
    pub open spec fn wf(&self) -> bool {
        &&& -900_000_000 <= self.latitude_e7 <= 900_000_000
        &&& -1_800_000_000 <= self.longitude_e7 <= 1_800_000_000
    }
}

/// One GPS sample: a position with an optional elevation (millimetres), time
/// (milliseconds since the Unix epoch) and recorded speed (millimetres per
/// second).
#[derive(Clone, Copy, Debug)]
pub struct TrackPoint {
    pub position: Position,
    pub elevation_mm: Option<i64>,
    pub time_ms: Option<i64>,
    pub speed_mm_per_s: Option<i64>,
}

/// A contiguous, time-ordered run of points.
#[derive(Clone, Debug)]
pub struct Segment {
    pub points: Vec<TrackPoint>,
}

/// One recorded route.
#[derive(Clone, Debug)]
pub struct Track {
    pub name: Option<String>,
    pub segments: Vec<Segment>,
}

/// A parsed GPS document.
#[derive(Clone, Debug)]
pub struct Document {
    pub tracks: Vec<Track>,
}

} // verus!
