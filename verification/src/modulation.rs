//! Beat-phase subdivision and spectrum band averaging.
//!
//! A beat phase is a fraction in `[0, 1)` stored in fixed point as a
//! number of `1/65536` units.  Subdividing a phase doubles its frequency:
//! the half-note phase completes two full cycles while the whole-note
//! phase completes one.  Spectrum band energies are exact rationals: the
//! sum of a range of byte-valued bins over the largest value that range
//! can take.

use vstd::prelude::*;
use crate::model::Model;

verus! {

/// One whole beat phase in fixed-point units: a phase fraction `w` in
/// `[0, 1)` is stored as `w * PHASE_ONE`, truncated.
pub const PHASE_ONE: u32 = 65536;

/// Half of [`PHASE_ONE`].
pub const PHASE_HALF: u32 = 32768;

/// The phase one octave above `w`: the sawtooth that rises twice as fast
/// and wraps twice per cycle of `w`.
pub open spec fn subdivided(w: int) -> int {
    if w < PHASE_HALF {
        2 * w
    } else {
        2 * (w - PHASE_HALF)
    }
}

/// Doubles the frequency of a phase: `(w mod 1/2) * 2` in fixed point.
pub fn subdivide(w: u32) -> (r: u32)
    requires
        w < PHASE_ONE,
    ensures
        r == subdivided(w as int),
        r < PHASE_ONE,
{
    proof {
        if w < PHASE_HALF {
            assert((w % 32768u32) == w) by (bit_vector)
                requires
                    w < 32768u32,
            ;
        } else {
            assert((w % 32768u32) == w - 32768u32) by (bit_vector)
                requires
                    32768u32 <= w < 65536u32,
            ;
        }
    }
    (w % PHASE_HALF) * 2
}

/// The number of frequency bins in a spectrum snapshot.
pub const SPECTRUM_BINS: usize = 16;

/// The largest value a spectrum bin can hold.
pub const BIN_MAX: u32 = 255;

/// The sum of the bins in `[lo, hi)`.
pub open spec fn band_sum(bins: Seq<u8>, lo: int, hi: int) -> int
    decreases hi - lo,
{
    if lo >= hi {
        0
    } else {
        bins[lo] + band_sum(bins, lo + 1, hi)
    }
}

proof fn lemma_band_sum_extend(bins: Seq<u8>, lo: int, hi: int)
    requires
        lo <= hi,
    ensures
        band_sum(bins, lo, hi + 1) == band_sum(bins, lo, hi) + bins[hi],
    decreases hi - lo,
{
    assert(band_sum(bins, lo, hi + 1) == bins[lo] + band_sum(bins, lo + 1, hi + 1));
    if lo < hi {
        lemma_band_sum_extend(bins, lo + 1, hi);
    } else {
        assert(band_sum(bins, lo + 1, hi + 1) == 0);
    }
}

fn sum_range(bins: &[u8; 16], lo: usize, hi: usize) -> (s: u32)
    requires
        lo <= hi <= SPECTRUM_BINS,
    ensures
        s == band_sum(bins@, lo as int, hi as int),
        s <= BIN_MAX * (hi - lo),
{
    let mut s: u32 = 0;
    let mut i: usize = lo;
    while i < hi
        invariant
            lo <= i <= hi <= SPECTRUM_BINS,
            s == band_sum(bins@, lo as int, i as int),
            s <= BIN_MAX * (i - lo),
        decreases hi - i,
    {
        proof {
            lemma_band_sum_extend(bins@, lo as int, i as int);
        }
        s = s + bins[i] as u32;
        i = i + 1;
    }
    s
}

/// A band-averaged spectrum energy: the exact rational `num / den`,
/// with `num <= den`, standing for a value in `[0, 1]`.
#[derive(Clone, Copy, Debug, PartialEq, Eq, Structural)]
pub struct Energy {
    pub num: u32,
    pub den: u32,
}

impl Energy {
    /// The rational is a well-formed value in `[0, 1]`.
    pub open spec fn wf(self) -> bool {
        0 < self.den && self.num <= self.den
    }

    /// The energy equals one: every bin of its band was at the maximum.
    pub open spec fn is_one(self) -> bool {
        self.num == self.den
    }
}

/// The average of the bins in `[lo, hi)`, normalized so that all-maximal
/// bins give exactly one.
fn band_energy(bins: &[u8; 16], lo: usize, hi: usize) -> (e: Energy)
    requires
        lo < hi <= SPECTRUM_BINS,
    ensures
        e.num == band_sum(bins@, lo as int, hi as int),
        e.den == BIN_MAX * (hi - lo),
        e.wf(),
{
    let s = sum_range(bins, lo, hi);
    Energy { num: s, den: BIN_MAX * ((hi - lo) as u32) }
}

/// The modulation vector handed to every draw call of a frame: the beat
/// phase with its four octave subdivisions, and the three spectrum band
/// energies.
#[derive(Clone, Copy, Debug, PartialEq, Eq, Structural)]
pub struct Modulation {
    /// The whole-measure beat phase.
    pub whole: u32,
    /// The phase one octave up: two cycles per measure.
    pub half: u32,
    /// Two octaves up: four cycles per measure.
    pub quarter: u32,
    /// Three octaves up: eight cycles per measure.
    pub eighth: u32,
    /// Four octaves up: sixteen cycles per measure.
    pub sixteenth: u32,
    /// Average energy of the two lowest spectrum bins.
    pub bass: Energy,
    /// Average energy of the six bins above the bass.
    pub mid: Energy,
    /// Average energy of the eight highest bins.
    pub treble: Energy,
}

/// The modulation vector of the current frame: the tracker's remembered
/// beat phase, its four successive octave subdivisions, and the bass,
/// mid and treble averages of the spectrum snapshot.
pub fn get_modifiers(model: &Model, spectrum: &[u8; 16]) -> (m: Modulation)
    requires
        model@.last_whole < PHASE_ONE,
    ensures
        m.whole == model@.last_whole,
        m.half == subdivided(model@.last_whole),
        m.quarter == subdivided(m.half as int),
        m.eighth == subdivided(m.quarter as int),
        m.sixteenth == subdivided(m.eighth as int),
        m.whole < PHASE_ONE && m.half < PHASE_ONE && m.quarter < PHASE_ONE && m.eighth
            < PHASE_ONE && m.sixteenth < PHASE_ONE,
        m.bass.num == band_sum(spectrum@, 0, 2) && m.bass.den == 510,
        m.mid.num == band_sum(spectrum@, 2, 8) && m.mid.den == 1530,
        m.treble.num == band_sum(spectrum@, 8, 16) && m.treble.den == 2040,
        m.bass.wf() && m.mid.wf() && m.treble.wf(),
{
    let whole = model.last_whole;
    let half = subdivide(whole);
    let quarter = subdivide(half);
    let eighth = subdivide(quarter);
    let sixteenth = subdivide(eighth);
    let bass = band_energy(spectrum, 0, 2);
    let mid = band_energy(spectrum, 2, 8);
    let treble = band_energy(spectrum, 8, 16);
    Modulation { whole, half, quarter, eighth, sixteenth, bass, mid, treble }
}

/// A phase and each of its successive octave subdivisions stay in
/// `[0, PHASE_ONE)`, and each subdivision runs through two full cycles,
/// one on each half of its parent's cycle, so it oscillates twice as
/// fast: on the first half it is the parent phase doubled, and the second
/// half repeats the first.
pub proof fn lemma_subdivision_two_cycles(w: int)
    requires
        0 <= w < PHASE_ONE,
    ensures
        0 <= subdivided(w) < PHASE_ONE,
        w < PHASE_HALF ==> subdivided(w) == 2 * w,
        PHASE_HALF <= w ==> subdivided(w) == subdivided(w - PHASE_HALF),
{
}

} // verus!
