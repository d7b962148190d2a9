use beatgrid::model::Model;
use beatgrid::modulation::{get_modifiers, subdivide, Modulation, PHASE_HALF, PHASE_ONE};

#[test]
fn subdivide_exact_values() {
    assert_eq!(subdivide(0), 0);
    assert_eq!(subdivide(16384), 32768);
    assert_eq!(subdivide(32767), 65534);
    assert_eq!(subdivide(32768), 0);
    assert_eq!(subdivide(49152), 32768);
    assert_eq!(subdivide(65535), 65534);
}

#[test]
fn subdivide_two_cycles_per_sweep() {
    // On the first half of a sweep the subdivision is the doubled phase;
    // the second half repeats the first, so it cycles exactly twice.
    for w in [0u32, 1, 100, 10000, 32767] {
        assert_eq!(subdivide(w), 2 * w);
        assert_eq!(subdivide(w + PHASE_HALF), subdivide(w));
        assert!(subdivide(w) < PHASE_ONE);
        assert!(subdivide(w + PHASE_HALF) < PHASE_ONE);
    }
}

fn modifiers_at(last_whole: u32, spectrum: &[u8; 16]) -> Modulation {
    let mut m = Model::new();
    m.last_whole = last_whole;
    get_modifiers(&m, spectrum)
}

#[test]
fn bass_is_one_when_low_bins_maxed() {
    let mut bins = [0u8; 16];
    bins[0] = 255;
    bins[1] = 255;
    let m = modifiers_at(0, &bins);
    assert_eq!(m.bass.num, m.bass.den);
    assert_eq!(m.bass.den, 510);
    assert_eq!(m.mid.num, 0);
    assert_eq!(m.treble.num, 0);
}

#[test]
fn band_averages_exact() {
    let mut bins = [255u8; 16];
    let m = modifiers_at(0, &bins);
    assert_eq!(m.bass.num, 510);
    assert_eq!(m.mid.num, 1530);
    assert_eq!(m.mid.den, 1530);
    assert_eq!(m.treble.num, 2040);
    assert_eq!(m.treble.den, 2040);

    bins = [0u8; 16];
    for i in 2..8 {
        bins[i] = 51; // a fifth of full scale over the whole mid band
    }
    let m = modifiers_at(0, &bins);
    assert_eq!(m.bass.num, 0);
    assert_eq!(m.mid.num, 306);
    assert_eq!(m.mid.den, 1530);
    assert_eq!(m.treble.num, 0);
}

#[test]
fn modulation_chain_exact() {
    let bins = [0u8; 16];
    let m = modifiers_at(40000, &bins);
    assert_eq!(m.whole, 40000);
    assert_eq!(m.half, 14464);
    assert_eq!(m.quarter, 28928);
    assert_eq!(m.eighth, 57856);
    assert_eq!(m.sixteenth, 50176);
}

#[test]
fn modulation_at_phase_zero() {
    let bins = [0u8; 16];
    let m = modifiers_at(0, &bins);
    assert_eq!(m.whole, 0);
    assert_eq!(m.half, 0);
    assert_eq!(m.quarter, 0);
    assert_eq!(m.eighth, 0);
    assert_eq!(m.sixteenth, 0);
}
