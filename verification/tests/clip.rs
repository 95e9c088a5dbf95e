use daft_core::array::{DataArray, Slot};
use daft_core::dtype::Dtype;
use daft_core::series::Series;

fn int_series(name: &str, values: &[i64]) -> Series {
    let slots: Vec<Slot> = values.iter().map(|v| Slot::I(*v)).collect();
    let validity = vec![true; values.len()];
    let arr = DataArray::new(Dtype::Int64, slots, validity).unwrap();
    Series::new(name.to_string(), arr)
}

fn int_at(s: &Series, i: usize) -> i64 {
    match s.array.get(i) {
        Slot::I(v) => v,
        Slot::U(_) => panic!("signed column holds an unsigned slot"),
    }
}

#[test]
fn clip_within_range() {
    let x = int_series("x", &[0, 5, 10, 15]);
    let lo = int_series("lo", &[3, 3, 3, 3]);
    let hi = int_series("hi", &[12, 12, 12, 12]);
    let c = x.clip(&lo, &hi).unwrap();
    assert_eq!(c.name().as_str(), "x");
    assert_eq!(
        (0..4).map(|i| int_at(&c, i)).collect::<Vec<i64>>(),
        vec![3, 5, 10, 12]
    );
}

#[test]
fn clip_inverted_range_yields_upper_bound() {
    // numpy-compatible: no error when hi < lo, the result is hi everywhere.
    let x = int_series("x", &[0, 5, 10]);
    let lo = int_series("lo", &[12, 12, 12]);
    let hi = int_series("hi", &[3, 3, 3]);
    let c = x.clip(&lo, &hi).unwrap();
    assert_eq!(
        (0..3).map(|i| int_at(&c, i)).collect::<Vec<i64>>(),
        vec![3, 3, 3]
    );
}

#[test]
fn clip_bounds_hold_row_wise() {
    let x = int_series("x", &[-50, -1, 0, 1, 50]);
    let lo = int_series("lo", &[-10, -10, -10, -10, -10]);
    let hi = int_series("hi", &[10, 10, 10, 10, 10]);
    let c = x.clip(&lo, &hi).unwrap();
    for i in 0..5 {
        let v = int_at(&c, i);
        assert!(-10 <= v && v <= 10);
    }
}

#[test]
fn clip_propagates_nulls() {
    let slots = vec![Slot::I(5), Slot::I(5)];
    let arr = DataArray::new(Dtype::Int64, slots, vec![true, false]).unwrap();
    let x = Series::new("x".to_string(), arr);
    let lo = int_series("lo", &[0, 0]);
    let hi = int_series("hi", &[10, 10]);
    let c = x.clip(&lo, &hi).unwrap();
    assert!(c.array.is_valid(0));
    assert!(!c.array.is_valid(1));
}
