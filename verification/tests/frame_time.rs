use starfield::astro::{mean_sidereal_time, J2000_EPOCH_MS};
use starfield::frame::{
    build_sky_uniform, effective_time_ms, Mat3Bits, ObserverFrame, Orientation,
    TIME_SCALE_REAL_TIME,
};

#[test]
fn default_frame_is_j2000_identity_real_time() {
    let f = ObserverFrame::default();
    assert_eq!(f.origin_ms, J2000_EPOCH_MS);
    assert_eq!(f.time_scale_milli, TIME_SCALE_REAL_TIME);
    match f.orientation {
        Orientation::Matrix { m } => assert_eq!(m, Mat3Bits::identity()),
        Orientation::Geodetic { .. } => panic!("default orientation must be a matrix"),
    }
}

#[test]
fn time_scale_zero_freezes_sidereal_time() {
    let mut f = ObserverFrame::default();
    f.set_time_scale_milli(0);
    let u0 = build_sky_uniform(&f, 0).unwrap();
    let u1 = build_sky_uniform(&f, 12_345).unwrap();
    let u2 = build_sky_uniform(&f, 999_999_999).unwrap();
    assert_eq!(u0.sidereal_units, mean_sidereal_time(J2000_EPOCH_MS));
    assert_eq!(u1.sidereal_units, u0.sidereal_units);
    assert_eq!(u2.sidereal_units, u0.sidereal_units);
}

#[test]
fn time_scale_one_advances_at_real_rate() {
    let f = ObserverFrame::default();
    let one_hour_ms: u64 = 3_600_000;
    let u = build_sky_uniform(&f, one_hour_ms).unwrap();
    assert_eq!(u.sidereal_units, mean_sidereal_time(J2000_EPOCH_MS + one_hour_ms));
    assert_eq!(u.sidereal_units, 2_553_134_575_768_664_400_000);
}

#[test]
fn equator_observer_returns_after_one_sidereal_day() {
    // Observer on the equator at the prime meridian, heading north,
    // real-time scale: after one mean sidereal day (to the millisecond)
    // the sidereal uniform is back at its start within tolerance.
    let mut f = ObserverFrame::default();
    f.set_geodetic(0, 0, 0);
    let start = build_sky_uniform(&f, 0).unwrap();
    let one_sidereal_day_ms: u64 = 86_164_091;
    let later = build_sky_uniform(&f, one_sidereal_day_ms).unwrap();
    let diff = if later.sidereal_units >= start.sidereal_units {
        later.sidereal_units - start.sidereal_units
    } else {
        start.sidereal_units - later.sidereal_units
    };
    // 16_936_292_189_239 units is about 2e-6 degrees.
    assert_eq!(diff, 16_936_292_189_239);
    assert_eq!(later.orientation, start.orientation);
}

#[test]
fn scaled_time_truncates_to_milliseconds() {
    // A time scale of 1/1000 over 1999 elapsed ms advances by exactly
    // 1 ms.
    assert_eq!(effective_time_ms(100, 1, 1_999), Some(101));
    assert_eq!(effective_time_ms(100, 1, 2_000), Some(102));
}

#[test]
fn effective_time_overflow_is_reported() {
    assert_eq!(effective_time_ms(u64::MAX, 1_000, 1), None);
    assert_eq!(effective_time_ms(0, u64::MAX, u64::MAX), None);
    assert_eq!(effective_time_ms(u64::MAX, 0, u64::MAX), Some(u64::MAX));
    let f = ObserverFrame {
        orientation: Orientation::Geodetic { latitude_udeg: 0, longitude_udeg: 0, heading_udeg: 0 },
        origin_ms: u64::MAX,
        time_scale_milli: 1_000,
    };
    assert!(build_sky_uniform(&f, 1).is_none());
}

#[test]
fn snapshot_copies_the_whole_configuration() {
    let mut f = ObserverFrame::default();
    f.set_geodetic(48_856_600, 2_352_200, 90_000_000);
    f.set_origin_ms(123_456_789);
    f.set_time_scale_milli(86_400_000);
    let s = f.snapshot();
    assert_eq!(s, f);
    f.set_time_scale_milli(0);
    assert_eq!(s.time_scale_milli, 86_400_000);
}

#[test]
fn setters_change_only_their_field() {
    let mut f = ObserverFrame::default();
    f.set_origin_ms(7);
    assert_eq!(f.origin_ms, 7);
    assert_eq!(f.time_scale_milli, TIME_SCALE_REAL_TIME);
    let m = Mat3Bits::identity();
    f.set_matrix(m);
    assert_eq!(f.origin_ms, 7);
    match f.orientation {
        Orientation::Matrix { m: got } => assert_eq!(got, m),
        Orientation::Geodetic { .. } => panic!("orientation must be the matrix just set"),
    }
}
