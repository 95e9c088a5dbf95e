use daft_core::array::{DataArray, Slot};
use daft_core::dtype::Dtype;
use daft_core::error::Error;
use daft_core::series::Series;

fn int32_array(values: &[i32], validity: &[bool]) -> DataArray {
    let slots: Vec<Slot> = values.iter().map(|v| Slot::I(*v as i64)).collect();
    DataArray::new(Dtype::Int32, slots, validity.to_vec()).unwrap()
}

fn float32_array(values: &[f32]) -> DataArray {
    let slots: Vec<Slot> = values.iter().map(|v| Slot::U(v.to_bits() as u64)).collect();
    let validity = vec![true; values.len()];
    DataArray::new(Dtype::Float32, slots, validity).unwrap()
}

fn float32_at(arr: &DataArray, i: usize) -> f32 {
    match arr.get(i) {
        Slot::U(bits) => f32::from_bits(bits as u32),
        Slot::I(_) => panic!("float column holds an unsigned slot"),
    }
}

#[test]
fn int_min_and_max() {
    let a = int32_array(&[1, 7, -3], &[true, true, true]);
    let b = int32_array(&[2, 5, -4], &[true, true, true]);
    let mn = a.min(&b).unwrap();
    let mx = a.max(&b).unwrap();
    assert_eq!(mn.get(0), Slot::I(1));
    assert_eq!(mn.get(1), Slot::I(5));
    assert_eq!(mn.get(2), Slot::I(-4));
    assert_eq!(mx.get(0), Slot::I(2));
    assert_eq!(mx.get(1), Slot::I(7));
    assert_eq!(mx.get(2), Slot::I(-3));
}

#[test]
fn null_propagation() {
    // A result slot is valid exactly when both input slots are.
    let a = int32_array(&[1, 2, 3, 4], &[true, false, true, false]);
    let b = int32_array(&[4, 3, 2, 1], &[true, true, false, false]);
    let mn = a.min(&b).unwrap();
    assert!(mn.is_valid(0));
    assert!(!mn.is_valid(1));
    assert!(!mn.is_valid(2));
    assert!(!mn.is_valid(3));
}

#[test]
fn kernel_identity_on_itself() {
    let a = int32_array(&[5, -9, 0], &[true, false, true]);
    let mn = a.min(&a).unwrap();
    let mx = a.max(&a).unwrap();
    for i in 0..3 {
        assert_eq!(mn.get(i), a.get(i));
        assert_eq!(mx.get(i), a.get(i));
    }
}

#[test]
fn kernel_commutative_without_nan() {
    let a = float32_array(&[1.5, -2.0, 8.25]);
    let b = float32_array(&[2.5, -7.0, 8.25]);
    let ab = a.min(&b).unwrap();
    let ba = b.min(&a).unwrap();
    for i in 0..3 {
        assert_eq!(float32_at(&ab, i), float32_at(&ba, i));
    }
}

#[test]
fn float_nan_min() {
    let a = float32_array(&[1.0, f32::NAN, 3.0]);
    let b = float32_array(&[2.0, 2.0, f32::NAN]);
    let mn = a.min(&b).unwrap();
    assert_eq!(float32_at(&mn, 0), 1.0);
    assert!(float32_at(&mn, 1).is_nan());
    assert!(float32_at(&mn, 2).is_nan());
}

#[test]
fn shape_mismatch_is_an_error() {
    let a = int32_array(&[1, 2], &[true, true]);
    let b = int32_array(&[1], &[true]);
    match a.min(&b).unwrap_err() {
        Error::ShapeMismatch { lhs_len, rhs_len } => {
            assert_eq!(lhs_len, 2);
            assert_eq!(rhs_len, 1);
        }
        other => panic!("expected a shape mismatch, got {:?}", other),
    }
}

#[test]
fn cast_int_to_float_rounds_to_nearest_even() {
    let a = int32_array(&[16_777_217, 3, -5], &[true, true, true]);
    let c = a.cast(Dtype::Float32).unwrap();
    assert_eq!(c.dtype(), Dtype::Float32);
    assert_eq!(float32_at(&c, 0), 16_777_216.0);
    assert_eq!(float32_at(&c, 0).to_bits(), (16_777_217i32 as f32).to_bits());
    assert_eq!(float32_at(&c, 1), 3.0);
    assert_eq!(float32_at(&c, 2), -5.0);
}

#[test]
fn cast_large_int64_to_float64_matches_native() {
    let big: i64 = 9_007_199_254_740_993; // one past 2^53, needs rounding
    let slots = vec![Slot::I(big), Slot::I(i64::MIN), Slot::I(i64::MAX)];
    let a = DataArray::new(Dtype::Int64, slots, vec![true, true, true]).unwrap();
    let c = a.cast(Dtype::Float64).unwrap();
    for (i, v) in [big, i64::MIN, i64::MAX].iter().enumerate() {
        match c.get(i) {
            Slot::U(bits) => assert_eq!(bits, (*v as f64).to_bits()),
            Slot::I(_) => panic!("float column holds an unsigned slot"),
        }
    }
}

#[test]
fn cast_unsigned_overflow_becomes_null() {
    let slots = vec![Slot::U(u64::MAX), Slot::U(7)];
    let a = DataArray::new(Dtype::UInt64, slots, vec![true, true]).unwrap();
    let c = a.cast(Dtype::Int64).unwrap();
    assert!(!c.is_valid(0));
    assert!(c.is_valid(1));
    assert_eq!(c.get(1), Slot::I(7));
}

#[test]
fn cast_float32_to_float64_is_exact() {
    let a = float32_array(&[0.1, -0.0, f32::INFINITY, 1.0e-42]);
    let c = a.cast(Dtype::Float64).unwrap();
    for (i, v) in [0.1f32, -0.0, f32::INFINITY, 1.0e-42].iter().enumerate() {
        match c.get(i) {
            Slot::U(bits) => assert_eq!(bits, (*v as f64).to_bits()),
            Slot::I(_) => panic!("float column holds an unsigned slot"),
        }
    }
}

#[test]
fn series_promotes_mixed_operands() {
    let ints = int32_array(&[1, 10], &[true, true]);
    let floats = float32_array(&[5.0, 2.5]);
    let a = Series::new("a".to_string(), ints);
    let b = Series::new("b".to_string(), floats);
    let mn = a.binary_min(&b).unwrap();
    assert_eq!(mn.dtype(), Dtype::Float32);
    assert_eq!(mn.name().as_str(), "a");
    assert_eq!(float32_at(&mn.array, 0), 1.0);
    assert_eq!(float32_at(&mn.array, 1), 2.5);
}

#[test]
fn cast_uint64_to_float32_matches_native() {
    let values: Vec<u64> = vec![u64::MAX, 0x2000_0003, 16_777_217, 33_554_434, 33_554_435, 1];
    let slots: Vec<Slot> = values.iter().map(|v| Slot::U(*v)).collect();
    let a = DataArray::new(Dtype::UInt64, slots, vec![true; values.len()]).unwrap();
    let c = a.cast(Dtype::Float32).unwrap();
    for (i, v) in values.iter().enumerate() {
        match c.get(i) {
            Slot::U(bits) => assert_eq!(bits as u32, (*v as f32).to_bits()),
            Slot::I(_) => panic!("float column holds an unsigned slot"),
        }
    }
}
