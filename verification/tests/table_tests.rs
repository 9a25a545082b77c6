use blackhole::physics::{escape_deflection, integrate_fall, ray_captured, ray_outcome, swept_azimuth};
use blackhole::table::{bucket_angle, bucket_index, generate_outcomes};

const MIN: u64 = 0;
const MAX: u64 = 327680;
const START_R: u64 = 6553600;

#[test]
fn bucket_angles_are_uniform() {
    assert_eq!(bucket_angle(0, MIN, MAX, 8), 0);
    assert_eq!(bucket_angle(1, MIN, MAX, 8), 40960);
    assert_eq!(bucket_angle(7, MIN, MAX, 8), 286720);
}

#[test]
fn bucket_index_inverts_the_linear_relation() {
    assert_eq!(bucket_index(0, MIN, MAX, 8192), 0);
    assert_eq!(bucket_index(40960, MIN, MAX, 8192), 1024);
    // An angle beyond the range clamps into the last bucket.
    assert_eq!(bucket_index(400000, MIN, MAX, 8192), 8191);
}

#[test]
fn radial_rays_are_captured() {
    // An incidence angle of zero aims straight at the hole.
    let (result, captured) = ray_outcome(0, START_R);
    assert!(captured);
    assert_eq!(result, 0);
    assert!(ray_captured(0, START_R));
}

#[test]
fn wide_rays_escape_with_small_deflection() {
    // At the top of the range the ray passes far from the hole: it
    // escapes, and its result angle exceeds the incidence angle by a
    // deflection of about a fiftieth of the angle itself.
    let theta: u64 = 286720;
    let (result, captured) = ray_outcome(theta, START_R);
    assert!(!captured);
    assert_eq!(result, theta + 1310);
    assert_eq!(escape_deflection(theta, START_R), 1310);
}

#[test]
fn small_table_entries_are_exact() {
    let (angles, flags) = generate_outcomes(MIN, MAX, 8, START_R);
    assert_eq!(flags, vec![1, 0, 0, 0, 0, 0, 0, 0]);
    assert_eq!(
        angles,
        vec![0, 43057, 83230, 124190, 165150, 206110, 247070, 288030]
    );
}

#[test]
fn generation_is_deterministic() {
    let (a1, c1) = generate_outcomes(MIN, MAX, 8192, START_R);
    let (a2, c2) = generate_outcomes(MIN, MAX, 8192, START_R);
    assert_eq!(a1, a2);
    assert_eq!(c1, c2);
}

#[test]
fn capture_flag_transitions_at_most_once() {
    let (_, flags) = generate_outcomes(MIN, MAX, 8192, START_R);
    // Scanning by increasing incidence angle, the flag goes from set to
    // clear exactly once and never comes back.
    let mut transitions = 0;
    for i in 1..flags.len() {
        if flags[i] != flags[i - 1] {
            transitions += 1;
        }
    }
    assert_eq!(transitions, 1);
    assert_eq!(flags[0], 1);
    assert_eq!(flags[42], 1);
    assert_eq!(flags[43], 0);
    assert_eq!(flags[8191], 0);
}

#[test]
fn capture_integration_stays_bounded() {
    // The integration is cut off after its fuel whatever the state.
    assert!(integrate_fall(0, 0) <= 4096);
    assert_eq!(integrate_fall(65536, 0), 0);
    // A captured ray just off axis sweeps some azimuth before falling in.
    let swept = swept_azimuth(40, START_R);
    assert!(swept <= 804 * 4096);
}
