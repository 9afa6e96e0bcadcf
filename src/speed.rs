use vstd::prelude::*;

use crate::error::ProfileError;
use crate::track::TrackPoint;

verus! {

/// Half the circumference of a sphere of radius 6 371 000 m, in millimetres,
/// rounded up: no great-circle distance between two points is longer.
pub const MAX_LEG_MM: u64 = 20_015_087_000;

/// Speed in millimetres per second over `leg_mm` millimetres covered in
/// `dt_ms` milliseconds, rounded down. A time step that is zero or negative
/// gives speed zero.
pub open spec fn speed_over(leg_mm: int, dt_ms: int) -> int {
    if dt_ms <= 0 {
        0
    } else {
        leg_mm * 1000 / dt_ms
    }
}

/// Every point carries a timestamp.
pub open spec fn all_timed(pts: Seq<TrackPoint>) -> bool {
    forall|i: int| 0 <= i < pts.len() ==> pts[i].time_ms is Some
}

/// The speed at point `i`, where `legs[i]` is the distance from point `i - 1`
/// to point `i`; the first point has speed zero.
pub open spec fn derived_speed(pts: Seq<TrackPoint>, legs: Seq<u64>, i: int) -> int {
    if i == 0 {
        0
    } else {
        speed_over(legs[i] as int, pts[i].time_ms->Some_0 - pts[i - 1].time_ms->Some_0)
    }
}

/// The derived speed series, one value per point.
pub open spec fn derived_speeds(pts: Seq<TrackPoint>, legs: Seq<u64>) -> Seq<i64> {
    Seq::new(pts.len(), |i: int| derived_speed(pts, legs, i) as i64)
}

/// Speeds can be derived: every point is timed and there is a leg per point.
pub open spec fn can_derive(pts: Seq<TrackPoint>, legs: Seq<u64>) -> bool {
    all_timed(pts) && legs.len() == pts.len()
}

/// Every leg is a distance on the Earth sphere.
pub open spec fn legs_on_sphere(legs: Seq<u64>) -> bool {
    forall|i: int| 0 <= i < legs.len() ==> legs[i] <= MAX_LEG_MM
}

fn speed_step(leg_mm: u64, t0: i64, t1: i64) -> (r: i64)
    requires
        leg_mm <= MAX_LEG_MM,
    ensures
        r as int == speed_over(leg_mm as int, t1 - t0),
{
    let dt: i128 = t1 as i128 - t0 as i128;
    if dt <= 0 {
        0
    } else {
        let num: u128 = leg_mm as u128 * 1000;
        let q: u128 = num / (dt as u128);
        assert(q <= num) by (nonlinear_arith)
            requires
                q == num / (dt as u128),
                dt >= 1,
        ;
        q as i64
    }
}

/// Speed at each point from the distance and time since the previous point:
/// `legs_mm[i]` is the distance in millimetres from point `i - 1` to point `i`
/// (`legs_mm[0]` is not read). Fails with `MissingData` when a point has no
/// timestamp or the legs do not match the points one for one.
pub fn derive_speeds(points: &Vec<TrackPoint>, legs_mm: &Vec<u64>) -> (r: Result<
    Vec<i64>,
    ProfileError,
>)
    requires
        legs_on_sphere(legs_mm@),
    ensures
        r is Ok <==> can_derive(points@, legs_mm@),
        r is Err ==> r == Err::<Vec<i64>, ProfileError>(ProfileError::MissingData),
        r is Ok ==> r->Ok_0@ == derived_speeds(points@, legs_mm@),
{
    let n = points.len();
    if legs_mm.len() != n {
        return Err(ProfileError::MissingData);
    }
    let mut res: Vec<i64> = Vec::new();
    let mut i: usize = 0;
    while i < n
        invariant
            n == points.len(),
            legs_mm.len() == n,
            legs_on_sphere(legs_mm@),
            i <= n,
            res.len() == i,
            forall|k: int| 0 <= k < i ==> points@[k].time_ms is Some,
            forall|k: int|
                0 <= k < i ==> res@[k] == derived_speeds(points@, legs_mm@)[k],
        decreases n - i,
    {
        match points[i].time_ms {
            None => {
                return Err(ProfileError::MissingData);
            },
            Some(t1) => {
                if i == 0 {
                    res.push(0);
                } else {
                    let t0 = match points[i - 1].time_ms {
                        Some(t) => t,
                        None => 0,
                    };
                    let v = speed_step(legs_mm[i], t0, t1);
                    res.push(v);
                }
            },
        }
        i = i + 1;
    }
    assert(res@ =~= derived_speeds(points@, legs_mm@));
    Ok(res)
}

} // verus!
