//! Tests of the bit-crusher stage.

use penare::fixed::{Sample, ONE};
use penare::fxs::crusher::CrushType;

fn s(x: f64) -> Sample {
    Sample::from_raw((x * ONE as f64).round() as i64)
}

#[test]
fn test_quantize() {
    let xs = vec![0.0, 0.1, 0.2, 0.5, 0.7, 0.9, 1.0];
    let raws = xs.iter().map(|x| s(*x).raw).collect::<Vec<i64>>();
    let os = xs
        .iter()
        .map(|x| CrushType::BitsQU16.apply(s(*x), s(1.2)).raw)
        .collect::<Vec<i64>>();
    assert_ne!(raws, os);
}

#[test]
fn crush_floor_and_round_exact() {
    // floor(0.7 * 4) / 4 = 0.5; round(0.7 * 4) / 4 = 3 / 4.
    assert_eq!(CrushType::Floor.apply(s(0.7), Sample::from_int(4)).raw, ONE / 2);
    assert_eq!(CrushType::Round.apply(s(0.7), Sample::from_int(4)).raw, 3 * (ONE / 4));
    // Negative inputs keep their sign.
    assert_eq!(CrushType::Floor.apply(s(-0.7), Sample::from_int(4)).raw, -(ONE / 2));
}

#[test]
fn crush_bits_on_grid() {
    // Step 2^-2 = 0.25: 0.25 is exactly representable on the grid.
    assert_eq!(CrushType::Bits.apply(s(0.25), Sample::from_int(2)).raw, ONE / 4);
    // 0.3 snaps to the nearest multiple of 0.25.
    assert_eq!(CrushType::Bits.apply(s(0.3), Sample::from_int(2)).raw, ONE / 4);
    // The historical no-op variants quantize identically.
    assert_eq!(
        CrushType::BitsQ.apply(s(0.3), Sample::from_int(2)).raw,
        CrushType::Bits.apply(s(0.3), Sample::from_int(2)).raw,
    );
    assert_eq!(
        CrushType::BitsQU16.apply(s(0.3), Sample::from_int(2)).raw,
        CrushType::Bits.apply(s(0.3), Sample::from_int(2)).raw,
    );
}
