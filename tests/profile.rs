use gpx_profile::error::{GpxError, ProfileError};
use gpx_profile::filter::{lowpass_filter, smooth};
use gpx_profile::profile::{build_profile, DEFAULT_WINDOW};
use gpx_profile::speed::derive_speeds;
use gpx_profile::track::{Document, Position, Segment, Track, TrackPoint};

fn point(elevation_mm: Option<i64>, time_ms: Option<i64>, speed: Option<i64>) -> TrackPoint {
    TrackPoint {
        position: Position { latitude_e7: 556_000_000, longitude_e7: 131_000_000 },
        elevation_mm,
        time_ms,
        speed_mm_per_s: speed,
    }
}

fn document(points: Vec<TrackPoint>, n_tracks: usize) -> Document {
    let track = Track { name: Some(String::from("run")), segments: vec![Segment { points }] };
    Document { tracks: vec![track; n_tracks] }
}

#[test]
fn unit_window_leaves_series_unchanged() {
    let d = vec![5, -3, 12, 7, 0, 9];
    assert_eq!(smooth(&d, 1).unwrap(), d);
}

#[test]
fn full_window_ends_at_mean() {
    let d = vec![2, 4, 6, 8];
    let r = smooth(&d, 10).unwrap();
    assert_eq!(r[3], 5);
    assert_eq!(r, vec![2, 3, 4, 5]);
}

#[test]
fn smoothing_keeps_length() {
    let d: Vec<i64> = (0..50).map(|x| x * 3 - 20).collect();
    for w in [1usize, 2, 7, 49, 50, 51, 500] {
        assert_eq!(smooth(&d, w).unwrap().len(), d.len());
    }
    assert_eq!(smooth(&Vec::new(), 3).unwrap(), Vec::<i64>::new());
}

#[test]
fn trailing_window_values() {
    assert_eq!(lowpass_filter(&vec![1, 2, 3, 4], 2), vec![1, 1, 2, 3]);
    assert_eq!(lowpass_filter(&vec![10, 20, 30, 40, 50], 3), vec![10, 15, 20, 30, 40]);
}

#[test]
fn negative_means_round_down() {
    assert_eq!(lowpass_filter(&vec![-1, -2], 2), vec![-1, -2]);
}

#[test]
fn extreme_values_do_not_overflow() {
    let d = vec![i64::MAX, i64::MAX, i64::MIN, i64::MAX];
    assert_eq!(lowpass_filter(&d, 2), vec![i64::MAX, i64::MAX, -1, -1]);
}

#[test]
fn zero_window_is_rejected() {
    assert_eq!(smooth(&vec![1, 2], 0), Err(ProfileError::InvalidParameter));
}

#[test]
fn two_point_speed() {
    let pts = vec![point(Some(0), Some(1_000), None), point(Some(0), Some(11_000), None)];
    let r = derive_speeds(&pts, &vec![0, 25_000]).unwrap();
    assert_eq!(r, vec![0, 2_500]);
}

#[test]
fn zero_time_step_gives_zero_speed() {
    let pts = vec![point(None, Some(5_000), None), point(None, Some(5_000), None)];
    assert_eq!(derive_speeds(&pts, &vec![0, 1_000]).unwrap(), vec![0, 0]);
}

#[test]
fn missing_time_is_missing_data() {
    let pts = vec![point(None, Some(0), None), point(None, None, None)];
    assert_eq!(derive_speeds(&pts, &vec![0, 1_000]), Err(ProfileError::MissingData));
}

#[test]
fn unmatched_legs_are_missing_data() {
    let pts = vec![point(None, Some(0), None), point(None, Some(1_000), None)];
    assert_eq!(derive_speeds(&pts, &vec![0]), Err(ProfileError::MissingData));
}

#[test]
fn synthetic_climb_profile() {
    let n: i64 = 200;
    let points: Vec<TrackPoint> = (0..n)
        .map(|i| point(Some(i * 200_000 / (n - 1)), Some(i * 1_000), Some(1_000)))
        .collect();
    let p = build_profile(&document(points, 1), &Vec::new(), DEFAULT_WINDOW).unwrap();
    assert_eq!(p.elevation.len(), 200);
    assert_eq!(p.speed.len(), 200);
    for i in 1..p.elevation.len() {
        assert!(p.elevation[i] >= p.elevation[i - 1]);
    }
    assert!(p.speed.iter().all(|&v| v == 1_000));
}

#[test]
fn derived_speed_profile_ramps_up() {
    let n: i64 = 200;
    let points: Vec<TrackPoint> =
        (0..n).map(|i| point(Some(i * 1_000), Some(i * 1_000), None)).collect();
    let legs = vec![1_000u64; 200];
    let p = build_profile(&document(points, 1), &legs, DEFAULT_WINDOW).unwrap();
    assert_eq!(p.speed[0], 0);
    assert_eq!(p.speed[1], 500);
    assert!(p.speed[74] < 1_000);
    assert!(p.speed[75..].iter().all(|&v| v == 1_000));
}

#[test]
fn partial_recorded_speeds_are_derived() {
    let points = vec![
        point(Some(0), Some(0), Some(7_000)),
        point(Some(0), Some(2_000), None),
    ];
    let p = build_profile(&document(points, 1), &vec![0, 4_000], 1).unwrap();
    assert_eq!(p.speed, vec![0, 2_000]);
}

#[test]
fn two_tracks_is_structure_error() {
    let points = vec![point(Some(0), Some(0), Some(1)), point(Some(1), Some(1), Some(1))];
    let r = build_profile(&document(points, 2), &Vec::new(), DEFAULT_WINDOW);
    assert_eq!(r.unwrap_err(), ProfileError::Structure);
}

#[test]
fn no_track_or_segment_is_structure_error() {
    let r = build_profile(&Document { tracks: Vec::new() }, &Vec::new(), 3);
    assert_eq!(r.unwrap_err(), ProfileError::Structure);
    let doc = Document { tracks: vec![Track { name: None, segments: Vec::new() }] };
    assert_eq!(build_profile(&doc, &Vec::new(), 3).unwrap_err(), ProfileError::Structure);
}

#[test]
fn missing_elevation_is_missing_data() {
    let points = vec![
        point(Some(0), Some(0), Some(1)),
        point(None, Some(1), Some(1)),
        point(Some(2), Some(2), Some(1)),
    ];
    let r = build_profile(&document(points, 1), &Vec::new(), 2);
    assert_eq!(r.unwrap_err(), ProfileError::MissingData);
}

#[test]
fn zero_window_is_checked_first() {
    let r = build_profile(&Document { tracks: Vec::new() }, &Vec::new(), 0);
    assert_eq!(r.unwrap_err(), ProfileError::InvalidParameter);
}

#[test]
fn error_keeps_message() {
    let e = GpxError::new("GPX file must have exactly one track contained in it");
    assert_eq!(e.message(), "GPX file must have exactly one track contained in it");
}
