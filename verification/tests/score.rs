use sentiric_ai_pipeline_sdk::score::{Score, MOOD_THRESHOLD_BITS};

fn samples() -> Vec<f32> {
    let mut all = vec![
        0.0,
        -0.0,
        0.15,
        -0.15,
        0.150_000_02,
        0.149_999_99,
        1.0,
        -1.0,
        0.5,
        f32::MIN_POSITIVE,
        f32::MAX,
        f32::MIN,
        f32::INFINITY,
        f32::NEG_INFINITY,
        f32::NAN,
        -f32::NAN,
        f32::from_bits(1),
        f32::from_bits(0x8000_0001),
        f32::from_bits(0x7f80_0001),
    ];
    let mut bits: u32 = 0;
    while bits < 0xff00_0000 {
        all.push(f32::from_bits(bits));
        bits += 0x0012_3457;
    }
    all
}

#[test]
fn the_threshold_is_fifteen_hundredths() {
    assert_eq!(0.15f32.to_bits(), MOOD_THRESHOLD_BITS);
    assert_eq!(0.15f32 as f64, 10066330.0 / 67108864.0);
}

#[test]
fn positive_scores_are_those_above_zero() {
    for x in samples() {
        assert_eq!(Score::from_bits(x.to_bits()).is_positive(), x > 0.0, "{}", x);
    }
    assert!(!Score::zero().is_positive());
    assert_eq!(f32::from_bits(Score::zero().bits), 0.0);
}

#[test]
fn far_scores_are_those_beyond_the_threshold() {
    for x in samples() {
        assert_eq!(
            Score::from_bits(x.to_bits()).is_beyond_mood_threshold(),
            x.abs() > 0.15,
            "{}",
            x
        );
    }
}
