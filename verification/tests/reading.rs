use monitoring_system::reading::{lt, FIVE, HUNDRED, HUNDRED_TWENTY_FIVE, MINUS_FORTY, ZERO};

fn samples() -> Vec<f32> {
    vec![
        0.0, -0.0, 1.0, -1.0, 0.5, -0.5, 30.0, 30.2, 50.0, 100.0, 125.0, -40.0, 5.0,
        f32::MIN_POSITIVE, -f32::MIN_POSITIVE, f32::MAX, f32::MIN, f32::INFINITY,
        f32::NEG_INFINITY, f32::NAN, -f32::NAN, 1.0e-40, -1.0e-40, 3.9, 4095.0,
    ]
}

#[test]
fn lt_agrees_with_f32_order() {
    for a in samples() {
        for b in samples() {
            assert_eq!(lt(a.to_bits(), b.to_bits()), a < b, "{} < {}", a, b);
        }
    }
}

#[test]
fn constants_are_the_words_of_their_values() {
    assert_eq!(ZERO, 0.0f32.to_bits());
    assert_eq!(FIVE, 5.0f32.to_bits());
    assert_eq!(HUNDRED, 100.0f32.to_bits());
    assert_eq!(HUNDRED_TWENTY_FIVE, 125.0f32.to_bits());
    assert_eq!(MINUS_FORTY, (-40.0f32).to_bits());
}

#[test]
fn nan_is_unordered() {
    let nan = f32::NAN.to_bits();
    assert!(!lt(nan, 1.0f32.to_bits()));
    assert!(!lt(1.0f32.to_bits(), nan));
    assert!(!lt(nan, nan));
}

#[test]
fn zeros_are_equal() {
    assert!(!lt(0.0f32.to_bits(), (-0.0f32).to_bits()));
    assert!(!lt((-0.0f32).to_bits(), 0.0f32.to_bits()));
    assert!(lt((-0.0f32).to_bits(), 1.0e-40f32.to_bits()));
}

#[test]
fn lt_agrees_with_f32_order_on_many_words() {
    let mut state: u64 = 0x2545_F491_4F6C_DD1D;
    let mut next = || {
        state ^= state << 13;
        state ^= state >> 7;
        state ^= state << 17;
        state as u32
    };
    for _ in 0..20000 {
        let a = next();
        let b = if next() % 4 == 0 { a ^ (next() % 8) } else { next() };
        assert_eq!(lt(a, b), f32::from_bits(a) < f32::from_bits(b), "{:#x} < {:#x}", a, b);
    }
}
