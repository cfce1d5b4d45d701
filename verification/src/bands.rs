use vstd::prelude::*;

verus! {

/// Number of Bark-scale bands.
pub const BARK_BANDS: usize = 22;

/// 23 edges defining 22 Bark-scale bands in FFT bin indices (48 kHz, 1024-point FFT).
pub const BARK_BAND_EDGES: [usize; 23] = [
    0, 4, 8, 13, 17, 21, 26, 30, 34, 43, 51, 60, 68, 85, 102, 119, 145, 170, 205, 256, 333, 427, 513,
];

pub open spec fn edge(i: int) -> int {
    BARK_BAND_EDGES@[i] as int
}

pub proof fn lemma_edges()
    ensures
        BARK_BAND_EDGES@.len() == 23,
        edge(0) == 0,
        edge(22) == 513,
        forall|i: int, j: int| 0 <= i < j < 23 ==> edge(i) < edge(j),
{
    assert(BARK_BAND_EDGES@ =~= seq![
        0usize, 4, 8, 13, 17, 21, 26, 30, 34, 43, 51, 60, 68, 85, 102, 119, 145, 170, 205, 256, 333, 427, 513,
    ]);
}

/// Find which Bark band a given FFT bin falls into.
pub fn find_band(bin: usize) -> (r: Option<usize>)
    ensures
        match r {
            Some(b) => b < BARK_BANDS && edge(b as int) <= bin < edge(b + 1),
            None => bin >= edge(BARK_BANDS as int),
        },
{
    proof { lemma_edges(); }
    let mut b: usize = 0;
    while b < BARK_BANDS
        invariant
            b <= BARK_BANDS,
            bin >= edge(b as int),
            BARK_BAND_EDGES@.len() == 23,
        decreases BARK_BANDS - b,
    {
        if bin < BARK_BAND_EDGES[b + 1] {
            return Some(b);
        }
        b += 1;
    }
    None
}


/// Midpoint bin of band `b`.
pub open spec fn center(b: int) -> int {
    (edge(b) + edge(b + 1)) / 2
}

/// The band that holds `bin`, for `bin < 513`.
pub open spec fn band_index(bin: int) -> int {
    choose|b: int| 0 <= b < BARK_BANDS && #[trigger] edge(b) <= bin < edge(b + 1)
}

/// Where the gain of one FFT bin comes from, given the gains of the bands.
#[derive(Debug, Clone, Copy, PartialEq, Eq, Structural)]
pub enum BinInterpolation {
    /// The gain of band `band`, unchanged.
    Band { band: usize },
    /// `gains[lower] * (1 - t) + gains[lower + 1] * t`, with `t = num / den`.
    Blend { lower: usize, num: usize, den: usize },
}

/// Within each band the gain is that of the band at the band's center bin;
/// between the centers of two neighbouring bands it is interpolated linearly
/// by the bin's distance from them. Before the first center and after the
/// last one, and beyond the last band edge, a bin takes the gain of its
/// nearest band.
pub open spec fn interpolation_spec(bin: int) -> BinInterpolation {
    if bin >= edge(BARK_BANDS as int) {
        BinInterpolation::Band { band: (BARK_BANDS - 1) as usize }
    } else {
        let b = band_index(bin);
        let c = center(b);
        if bin == c {
            BinInterpolation::Band { band: b as usize }
        } else if bin < c && b > 0 {
            let p = center(b - 1);
            if c == p {
                BinInterpolation::Band { band: b as usize }
            } else {
                BinInterpolation::Blend {
                    lower: (b - 1) as usize,
                    num: (bin - p) as usize,
                    den: (c - p) as usize,
                }
            }
        } else if bin > c && b < BARK_BANDS - 1 {
            let nx = center(b + 1);
            if nx == c {
                BinInterpolation::Band { band: b as usize }
            } else {
                BinInterpolation::Blend {
                    lower: b as usize,
                    num: (bin - c) as usize,
                    den: (nx - c) as usize,
                }
            }
        } else {
            BinInterpolation::Band { band: b as usize }
        }
    }
}

/// A blend mixes two neighbouring bands with a weight strictly between 0
/// and 1, and every band named is one of the 22.
pub open spec fn interpolation_well_formed(r: BinInterpolation) -> bool {
    match r {
        BinInterpolation::Band { band } => band < BARK_BANDS,
        BinInterpolation::Blend { lower, num, den } => lower + 1 < BARK_BANDS && 0 < num < den,
    }
}

proof fn lemma_band_index(bin: int, b: int)
    requires
        0 <= b < BARK_BANDS,
        edge(b) <= bin < edge(b + 1),
    ensures
        band_index(bin) == b,
{
    lemma_edges();
    let c = band_index(bin);
    assert(0 <= c < BARK_BANDS && edge(c) <= bin < edge(c + 1));
    if c < b {
        assert(edge(c + 1) <= edge(b));
    } else if c > b {
        assert(edge(b + 1) <= edge(c));
    }
}

/// How a bin inside band `b` gets its gain, in terms of the band centers:
/// at the center the band's own gain; strictly between the previous band's
/// center and this one, a blend whose weight on band `b` is the distance
/// from the previous center over the distance between the centers (0 at the
/// previous center, growing by one step per bin); strictly between this
/// center and the next band's, a blend whose weight on band `b + 1` is the
/// distance from this center over the distance between the centers; before
/// the first center and after the last, the nearest band's gain.
pub open spec fn interpolation_law(bin: int, b: int, r: BinInterpolation) -> bool {
    &&& bin == center(b) ==> r == (BinInterpolation::Band { band: b as usize })
    &&& (bin < center(b) && b > 0 && center(b - 1) != center(b)) ==> (r matches BinInterpolation::Blend {
        lower,
        num,
        den,
    } && lower == b - 1 && num == bin - center(b - 1) && den == center(b) - center(b - 1))
    &&& (bin < center(b) && b == 0) ==> r == (BinInterpolation::Band { band: 0 })
    &&& (bin > center(b) && b + 1 < BARK_BANDS && center(b + 1) != center(b)) ==> (
    r matches BinInterpolation::Blend { lower, num, den } && lower == b && num == bin - center(b)
        && den == center(b + 1) - center(b))
    &&& (bin > center(b) && b + 1 == BARK_BANDS) ==> r == (BinInterpolation::Band {
        band: b as usize,
    })
}

/// Every bin of every band gets its gain as `interpolation_law` describes.
pub proof fn lemma_interpolation_follows_centers(bin: int, b: int)
    requires
        0 <= b < BARK_BANDS,
        edge(b) <= bin < edge(b + 1),
    ensures
        interpolation_law(bin, b, interpolation_spec(bin)),
{
    lemma_edges();
    lemma_band_index(bin, b);
}

/// Bins past the last band edge take the last band's gain.
pub proof fn lemma_interpolation_past_last_edge(bin: int)
    requires
        bin >= edge(BARK_BANDS as int),
    ensures
        interpolation_spec(bin) == (BinInterpolation::Band { band: (BARK_BANDS - 1) as usize }),
{
}

/// Where the gain of FFT bin `bin` comes from when 22 band gains are spread
/// over the bins.
pub fn bin_interpolation(bin: usize) -> (r: BinInterpolation)
    ensures
        r == interpolation_spec(bin as int),
        interpolation_well_formed(r),
        forall|b: int|
            0 <= b < BARK_BANDS && #[trigger] edge(b) <= bin < edge(b + 1) ==> interpolation_law(
                bin as int,
                b,
                r,
            ),
        bin >= edge(BARK_BANDS as int) ==> r == (BinInterpolation::Band {
            band: (BARK_BANDS - 1) as usize,
        }),
{
    proof {
        lemma_edges();
        assert forall|b: int|
            0 <= b < BARK_BANDS && #[trigger] edge(b) <= bin < edge(b + 1) implies interpolation_law(
            bin as int,
            b,
            interpolation_spec(bin as int),
        ) by {
            lemma_interpolation_follows_centers(bin as int, b);
        }
    }
    match find_band(bin) {
        Some(b) => {
            proof { lemma_band_index(bin as int, b as int); }
            let center = (BARK_BAND_EDGES[b] + BARK_BAND_EDGES[b + 1]) / 2;
            if bin == center {
                BinInterpolation::Band { band: b }
            } else if bin < center && b > 0 {
                let prev_center = (BARK_BAND_EDGES[b - 1] + BARK_BAND_EDGES[b]) / 2;
                if center == prev_center {
                    BinInterpolation::Band { band: b }
                } else {
                    BinInterpolation::Blend {
                        lower: b - 1,
                        num: bin - prev_center,
                        den: center - prev_center,
                    }
                }
            } else if bin > center && b < BARK_BANDS - 1 {
                let next_center = (BARK_BAND_EDGES[b + 1] + BARK_BAND_EDGES[b + 2]) / 2;
                if next_center == center {
                    BinInterpolation::Band { band: b }
                } else {
                    BinInterpolation::Blend {
                        lower: b,
                        num: bin - center,
                        den: next_center - center,
                    }
                }
            } else {
                BinInterpolation::Band { band: b }
            }
        },
        None => BinInterpolation::Band { band: BARK_BANDS - 1 },
    }
}


/// A bin at the center of a band takes that band's gain unchanged.
pub proof fn lemma_center_takes_band_gain(b: int)
    requires
        0 <= b < BARK_BANDS,
    ensures
        interpolation_spec(center(b)) == (BinInterpolation::Band { band: b as usize }),
{
    lemma_edges();
    lemma_band_index(center(b), b);
}

} // verus!
