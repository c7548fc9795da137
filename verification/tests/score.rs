use helix_client::Score;

fn score(x: f64) -> Score {
    Score::from_bits(x.to_bits())
}

const SAMPLES: [f64; 14] = [
    0.0,
    -0.0,
    0.5,
    -0.5,
    0.9,
    1.0,
    -1.0,
    1.0e-300,
    -1.0e-300,
    5.0e-324,
    f64::MAX,
    f64::INFINITY,
    f64::NEG_INFINITY,
    f64::NAN,
];

#[test]
fn lt_agrees_with_f64_less_than() {
    for a in SAMPLES {
        for b in SAMPLES {
            assert_eq!(score(a).lt(&score(b)), a < b, "{a} < {b}");
        }
    }
}

#[test]
fn eq_agrees_with_f64_equality() {
    for a in SAMPLES {
        for b in SAMPLES {
            assert_eq!(score(a) == score(b), a == b, "{a} == {b}");
        }
    }
}

#[test]
fn ge_agrees_with_f64() {
    for a in SAMPLES {
        for b in SAMPLES {
            assert_eq!(score(a).ge(&score(b)), a >= b, "{a} >= {b}");
        }
        assert_eq!(score(a).ge(&Score::zero()), a >= 0.0, "{a}");
        assert_eq!(score(a).is_nan(), a.is_nan(), "{a}");
    }
}

#[test]
fn bits_round_trip() {
    let s = Score::from_bits(0x3fe0_0000_0000_0000);
    assert_eq!(s.to_bits(), 0x3fe0_0000_0000_0000);
    assert_eq!(f64::from_bits(s.to_bits()), 0.5);
    assert_eq!(Score::zero().to_bits(), 0);
}
