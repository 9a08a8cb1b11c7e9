use conveyor::amount::Amount;
use conveyor::errors::CoreError;
use conveyor::rand_value::{fresh_rng, ValueGen};

#[test]
fn amounts_keep_raw_mantissa_and_scale() {
    let a = Amount::from_u128_with_scale(100, 0);
    assert_eq!(a.to_u128_raw(), 100);
    assert_eq!(a.scale, 0);
    let b = Amount::from_u128_with_scale(12345, 2);
    assert_eq!(b.to_u128_raw(), 12345);
    assert_eq!(b.scale, 2);
}

#[test]
fn drawn_values_respect_the_bounds() {
    let gen = ValueGen::new(100, 1000, 2);
    let mut rng = fresh_rng();
    for _ in 0..50 {
        let a = gen.next(&mut rng);
        assert!(100 <= a.raw && a.raw <= 1000);
        assert_eq!(a.scale, 2);
    }
    let v = gen.draw_vector(&mut rng, 7);
    assert_eq!(v.data.len(), 7);
    for x in &v.data {
        assert!(100 <= *x && *x <= 1000);
    }
}

#[test]
fn degenerate_range_is_constant() {
    let gen = ValueGen::new(5, 5, 0);
    let mut rng = fresh_rng();
    assert_eq!(gen.next(&mut rng).raw, 5);
}

#[test]
fn every_error_describes_itself() {
    for e in [
        CoreError::WireLength,
        CoreError::OrderRecordShape,
        CoreError::DemandMismatch,
    ] {
        assert!(!e.describe().is_empty());
    }
}
