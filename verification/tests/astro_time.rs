use starfield::astro::{
    angle_units_to_degrees_e7, mean_sidereal_time, FULL_TURN_UNITS, GMST_AT_J2000_UNITS,
    GMST_AT_JD0_UNITS, J2000_EPOCH_MS, SIDEREAL_RATE_UNITS_PER_MS, UNITS_PER_DEGREE,
};

#[test]
fn gmst_at_j2000_epoch_is_reference_value() {
    // 280.46061837 degrees at JD 2451545.0, exactly.
    let g = mean_sidereal_time(J2000_EPOCH_MS);
    assert_eq!(g, GMST_AT_J2000_UNITS);
    assert_eq!(g, 2_423_179_742_716_800_000_000);
    // 280.4606183 degrees at a 1e-7 degree resolution: well within 1e-3
    // of the 280.46 reference.
    assert_eq!(angle_units_to_degrees_e7(g), 2_804_606_183);
}

#[test]
fn gmst_at_jd0_matches_constant() {
    assert_eq!(mean_sidereal_time(0), GMST_AT_JD0_UNITS);
    assert_eq!(mean_sidereal_time(0), 2_087_320_552_864_848_000_000);
}

#[test]
fn gmst_at_j2000_midnight_is_known_value() {
    // JD 2451544.5 (2000 Jan 1, 0h UT): GMST is the well-known 99.9678
    // degrees.
    let midnight_ms: u64 = 2_451_544 * 86_400_000 + 43_200_000;
    let g = mean_sidereal_time(midnight_ms);
    assert_eq!(g, 863_721_746_094_427_200_000);
    assert_eq!(angle_units_to_degrees_e7(g), 999_677_946);
}

#[test]
fn gmst_advances_at_sidereal_rate_per_ms() {
    let g0 = mean_sidereal_time(J2000_EPOCH_MS);
    let g1 = mean_sidereal_time(J2000_EPOCH_MS + 1);
    assert_eq!(g1 - g0, SIDEREAL_RATE_UNITS_PER_MS);
}

#[test]
fn gmst_returns_after_one_sidereal_day() {
    // One mean sidereal day is 86_164_090.530832 ms; after the nearest
    // whole millisecond the angle is back to its start to within the
    // rounding of the day, far inside a 1e-3 degree tolerance.
    let d: u64 = 86_164_091;
    let g0 = mean_sidereal_time(J2000_EPOCH_MS);
    let g1 = mean_sidereal_time(J2000_EPOCH_MS + d);
    let diff = if g1 >= g0 { g1 - g0 } else { g0 - g1 };
    assert_eq!(diff, 16_936_292_189_239);
    assert!(diff < UNITS_PER_DEGREE / 1000);
}

#[test]
fn gmst_distinguishes_instants_within_a_day() {
    // Within one sidereal day no two distinct milliseconds share an
    // angle: the advance per millisecond never lands on a whole turn.
    let g0 = mean_sidereal_time(J2000_EPOCH_MS);
    assert_ne!(mean_sidereal_time(J2000_EPOCH_MS + 1), g0);
    assert_ne!(mean_sidereal_time(J2000_EPOCH_MS + 43_082_045), g0);
    assert_ne!(mean_sidereal_time(J2000_EPOCH_MS + 86_164_090), g0);
}

#[test]
fn gmst_stays_in_full_turn() {
    assert!(mean_sidereal_time(0) < FULL_TURN_UNITS);
    assert!(mean_sidereal_time(u64::MAX) < FULL_TURN_UNITS);
    assert!(mean_sidereal_time(J2000_EPOCH_MS) < FULL_TURN_UNITS);
}
