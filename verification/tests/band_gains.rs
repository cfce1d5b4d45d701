use stadium_eq::bands::{bin_interpolation, find_band, BinInterpolation, BARK_BANDS, BARK_BAND_EDGES};

#[test]
fn test_find_band() {
    assert_eq!(find_band(0), Some(0));
    assert_eq!(find_band(3), Some(0));
    assert_eq!(find_band(4), Some(1));
    assert_eq!(find_band(512), Some(21));
    assert_eq!(find_band(513), None);
}

#[test]
fn find_band_agrees_with_edges() {
    for bin in 0..600usize {
        match find_band(bin) {
            Some(b) => {
                assert!(b < BARK_BANDS);
                assert!(BARK_BAND_EDGES[b] <= bin && bin < BARK_BAND_EDGES[b + 1]);
            }
            None => assert!(bin >= BARK_BAND_EDGES[BARK_BANDS]),
        }
    }
}

#[test]
fn band_center_uses_band_gain() {
    // Band 1 spans bins 4..8, its center is bin 6.
    assert_eq!(bin_interpolation(6), BinInterpolation::Band { band: 1 });
    // Band 0 spans bins 0..4, center 2: bins before it keep band 0's gain.
    assert_eq!(bin_interpolation(0), BinInterpolation::Band { band: 0 });
    assert_eq!(bin_interpolation(2), BinInterpolation::Band { band: 0 });
}

#[test]
fn bins_between_centers_blend_neighbours() {
    // Bin 4 is in band 1 (center 6), below its center; band 0's center is 2.
    assert_eq!(
        bin_interpolation(4),
        BinInterpolation::Blend { lower: 0, num: 2, den: 4 }
    );
    // Bin 7 is in band 1 above its center 6; band 2 (8..13) has center 10.
    assert_eq!(
        bin_interpolation(7),
        BinInterpolation::Blend { lower: 1, num: 1, den: 4 }
    );
}

#[test]
fn bins_past_last_band_take_last_gain() {
    // Last band 427..513 has center 470; above it there is no next band.
    assert_eq!(bin_interpolation(500), BinInterpolation::Band { band: 21 });
    assert_eq!(bin_interpolation(513), BinInterpolation::Band { band: 21 });
    assert_eq!(bin_interpolation(10_000), BinInterpolation::Band { band: 21 });
}

#[test]
fn interpolation_weights_are_convex() {
    for bin in 0..513usize {
        match bin_interpolation(bin) {
            BinInterpolation::Band { band } => assert!(band < BARK_BANDS),
            BinInterpolation::Blend { lower, num, den } => {
                assert!(lower + 1 < BARK_BANDS);
                assert!(0 < num && num < den);
            }
        }
    }
}
