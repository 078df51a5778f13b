use majitimer::rest::rest_duration_ms;

// The default curve of the settings template: L = 40 min, k = 0.0017 per
// second (1700 millionths), w0 = 40 min.
const L_MS: u64 = 2_400_000;
const K_MICRO: u64 = 1700;
const W0_SECS: u64 = 2400;

#[test]
fn rest_at_midpoint_is_exactly_half() {
    // Endurance elapsed exactly w0 gives exactly L/2: 20 minutes.
    assert_eq!(rest_duration_ms(L_MS, K_MICRO, W0_SECS, W0_SECS), 1_200_000);
}

#[test]
fn rest_midpoint_is_exact_for_other_curves() {
    assert_eq!(rest_duration_ms(1_000_000, 3, 7, 7), 500_000);
    assert_eq!(rest_duration_ms(5, 1700, 0, 0), 2);
}

#[test]
fn rest_is_monotone_in_endurance_time() {
    let samples: [u64; 8] = [0, 60, 600, 1200, 2399, 2400, 2401, 3600];
    let mut prev: u64 = 0;
    for w in samples {
        let r = rest_duration_ms(L_MS, K_MICRO, W0_SECS, w);
        assert!(r >= prev);
        prev = r;
    }
}

#[test]
fn rest_stays_within_zero_and_l() {
    for w in [0u64, 1, 2400, 100_000, u64::MAX] {
        let r = rest_duration_ms(L_MS, K_MICRO, W0_SECS, w);
        assert!(r <= L_MS);
    }
}

#[test]
fn rest_saturates_toward_l_for_long_work() {
    // Far beyond the midpoint the curve is within a sliver of L.
    let r = rest_duration_ms(L_MS, K_MICRO, W0_SECS, 1_000_000);
    assert!(r > L_MS - 1000);
    assert!(r <= L_MS);
}

#[test]
fn rest_is_small_for_no_work() {
    // At w = 0 the curve sits near L / (1 + e^(k*w0)), far below L/2.
    let r = rest_duration_ms(L_MS, K_MICRO, W0_SECS, 0);
    assert!(r < 1_200_000);
    assert!(r < 100_000);
}

#[test]
fn rest_with_zero_steepness_is_flat() {
    // k = 0 degenerates to L/2 everywhere.
    for w in [0u64, 100, 2400, 1_000_000] {
        assert_eq!(rest_duration_ms(L_MS, 0, W0_SECS, w), 1_200_000);
    }
}

#[test]
fn rest_with_zero_ceiling_is_zero() {
    for w in [0u64, 2400, 1_000_000] {
        assert_eq!(rest_duration_ms(0, K_MICRO, W0_SECS, w), 0);
    }
}
