use vstd::prelude::*;

use crate::error::ProfileError;
use crate::filter::{is_smoothing, lowpass_filter};
use crate::speed::{can_derive, derive_speeds, derived_speeds, legs_on_sphere};
use crate::track::{Document, TrackPoint};

verus! {

/// Window size that smooths GPS jitter while keeping terrain and pace trends.
pub const DEFAULT_WINDOW: usize = 75;

/// The two smoothed series of a segment, one value per point.
#[derive(Clone, Debug)]
pub struct Profile {
    /// Elevation in millimetres.
    pub elevation: Vec<i64>,
    /// Speed in millimetres per second.
    pub speed: Vec<i64>,
}

/// The document holds exactly one track, and that track a segment.
pub open spec fn has_single_track(doc: Document) -> bool {
    doc.tracks.len() == 1 && doc.tracks[0].segments.len() >= 1
}

/// The points of the first segment of the first track.
pub open spec fn profile_points(doc: Document) -> Seq<TrackPoint> {
    doc.tracks[0].segments[0].points@
}

pub open spec fn all_elevated(pts: Seq<TrackPoint>) -> bool {
    forall|i: int| 0 <= i < pts.len() ==> pts[i].elevation_mm is Some
}

pub open spec fn all_speeds_recorded(pts: Seq<TrackPoint>) -> bool {
    forall|i: int| 0 <= i < pts.len() ==> pts[i].speed_mm_per_s is Some
}

pub open spec fn elevations(pts: Seq<TrackPoint>) -> Seq<i64> {
    Seq::new(pts.len(), |i: int| pts[i].elevation_mm->Some_0)
}

pub open spec fn recorded_speeds(pts: Seq<TrackPoint>) -> Seq<i64> {
    Seq::new(pts.len(), |i: int| pts[i].speed_mm_per_s->Some_0)
}

/// The raw speed series: the recorded speeds when every point has one,
/// otherwise the speeds derived from positions and times.
pub open spec fn raw_speeds(pts: Seq<TrackPoint>, legs: Seq<u64>) -> Seq<i64> {
    if all_speeds_recorded(pts) {
        recorded_speeds(pts)
    } else {
        derived_speeds(pts, legs)
    }
}

/// The error that building a profile gives, if any.
pub open spec fn profile_error(doc: Document, legs: Seq<u64>, window: nat) -> Option<ProfileError> {
    if window == 0 {
        Some(ProfileError::InvalidParameter)
    } else if !has_single_track(doc) {
        Some(ProfileError::Structure)
    } else if !all_elevated(profile_points(doc)) {
        Some(ProfileError::MissingData)
    } else if !all_speeds_recorded(profile_points(doc)) && !can_derive(profile_points(doc), legs) {
        Some(ProfileError::MissingData)
    } else {
        None
    }
}

fn collect_elevations(pts: &Vec<TrackPoint>) -> (r: Option<Vec<i64>>)
    ensures
        r is Some <==> all_elevated(pts@),
        r is Some ==> r->Some_0@ == elevations(pts@),
{
    let mut res: Vec<i64> = Vec::new();
    let mut i: usize = 0;
    while i < pts.len()
        invariant
            i <= pts.len(),
            res.len() == i,
            forall|k: int| 0 <= k < i ==> pts@[k].elevation_mm is Some,
            forall|k: int| 0 <= k < i ==> res@[k] == elevations(pts@)[k],
        decreases pts.len() - i,
    {
        match pts[i].elevation_mm {
            Some(e) => res.push(e),
            None => {
                return None;
            },
        }
        i = i + 1;
    }
    assert(res@ =~= elevations(pts@));
    Some(res)
}

fn collect_recorded_speeds(pts: &Vec<TrackPoint>) -> (r: Option<Vec<i64>>)
    ensures
        r is Some <==> all_speeds_recorded(pts@),
        r is Some ==> r->Some_0@ == recorded_speeds(pts@),
{
    let mut res: Vec<i64> = Vec::new();
    let mut i: usize = 0;
    while i < pts.len()
        invariant
            i <= pts.len(),
            res.len() == i,
            forall|k: int| 0 <= k < i ==> pts@[k].speed_mm_per_s is Some,
            forall|k: int| 0 <= k < i ==> res@[k] == recorded_speeds(pts@)[k],
        decreases pts.len() - i,
    {
        match pts[i].speed_mm_per_s {
            Some(v) => res.push(v),
            None => {
                return None;
            },
        }
        i = i + 1;
    }
    assert(res@ =~= recorded_speeds(pts@));
    Some(res)
}

/// Builds the smoothed elevation and speed series of the single track's
/// first segment. `legs_mm[i]` is the distance from point `i - 1` to point
/// `i`, read only when some point has no recorded speed. Nothing is built
/// unless every check passes: the window first, then the document's shape,
/// then elevations, then speeds.
pub fn build_profile(doc: &Document, legs_mm: &Vec<u64>, window: usize) -> (r: Result<
    Profile,
    ProfileError,
>)
    requires
        legs_on_sphere(legs_mm@),
    ensures
        match profile_error(*doc, legs_mm@, window as nat) {
            Some(e) => r == Err::<Profile, ProfileError>(e),
            None => r is Ok,
        },
        r is Ok ==> {
            &&& is_smoothing(r->Ok_0.elevation@, elevations(profile_points(*doc)), window as nat)
            &&& is_smoothing(
                r->Ok_0.speed@,
                raw_speeds(profile_points(*doc), legs_mm@),
                window as nat,
            )
        },
{
    if window == 0 {
        return Err(ProfileError::InvalidParameter);
    }
    if doc.tracks.len() != 1 {
        return Err(ProfileError::Structure);
    }
    if doc.tracks[0].segments.len() == 0 {
        return Err(ProfileError::Structure);
    }
    let points = &doc.tracks[0].segments[0].points;
    let elevation = match collect_elevations(points) {
        Some(e) => e,
        None => {
            return Err(ProfileError::MissingData);
        },
    };
    let speed = match collect_recorded_speeds(points) {
        Some(s) => s,
        None => match derive_speeds(points, legs_mm) {
            Ok(s) => s,
            Err(e) => {
                return Err(e);
            },
        },
    };
    Ok(
        Profile {
            elevation: lowpass_filter(&elevation, window),
            speed: lowpass_filter(&speed, window),
        },
    )
}

/// A single point without elevation makes the whole build fail with
/// `MissingData`, so no partial series is ever produced.
pub proof fn lemma_missing_elevation_fails(doc: Document, legs: Seq<u64>, window: nat, i: int)
    requires
        window >= 1,
        has_single_track(doc),
        0 <= i < profile_points(doc).len(),
        profile_points(doc)[i].elevation_mm is None,
    ensures
        profile_error(doc, legs, window) == Some(ProfileError::MissingData),
{
}

/// A document that does not hold exactly one track is rejected with
/// `Structure`, whatever its points hold.
pub proof fn lemma_track_count_is_checked(doc: Document, legs: Seq<u64>, window: nat)
    requires
        window >= 1,
        doc.tracks.len() != 1,
    ensures
        profile_error(doc, legs, window) == Some(ProfileError::Structure),
{
}

} // verus!
