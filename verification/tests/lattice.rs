use daft_core::dtype::Dtype;
use daft_core::error::Error;

#[test]
fn promotion_int32_float32() {
    let (lhs_cast, rhs_cast, result) = Dtype::Int32.comparison_op(&Dtype::Float32).unwrap();
    assert_eq!(lhs_cast, Dtype::Float32);
    assert_eq!(rhs_cast, Dtype::Float32);
    assert_eq!(result, Dtype::Float32);
}

#[test]
fn promotion_float_dominates() {
    let (_, _, result) = Dtype::Float64.comparison_op(&Dtype::Int8).unwrap();
    assert_eq!(result, Dtype::Float64);
    let (_, _, result) = Dtype::UInt64.comparison_op(&Dtype::Float32).unwrap();
    assert_eq!(result, Dtype::Float32);
    let (_, _, result) = Dtype::Float32.comparison_op(&Dtype::Float64).unwrap();
    assert_eq!(result, Dtype::Float64);
}

#[test]
fn promotion_same_signedness_takes_wider() {
    let (_, _, result) = Dtype::Int8.comparison_op(&Dtype::Int32).unwrap();
    assert_eq!(result, Dtype::Int32);
    let (_, _, result) = Dtype::UInt16.comparison_op(&Dtype::UInt64).unwrap();
    assert_eq!(result, Dtype::UInt64);
}

#[test]
fn promotion_mixed_signedness_widens_to_signed() {
    // The unsigned side's range forces the next wider signed dtype.
    let (_, _, result) = Dtype::UInt16.comparison_op(&Dtype::Int16).unwrap();
    assert_eq!(result, Dtype::Int32);
    let (_, _, result) = Dtype::UInt16.comparison_op(&Dtype::Int64).unwrap();
    assert_eq!(result, Dtype::Int64);
    let (_, _, result) = Dtype::UInt32.comparison_op(&Dtype::Int16).unwrap();
    assert_eq!(result, Dtype::Int64);
    // Both 64-bit with different signedness saturates at Int64.
    let (_, _, result) = Dtype::UInt64.comparison_op(&Dtype::Int8).unwrap();
    assert_eq!(result, Dtype::Int64);
}

#[test]
fn promotion_idempotent_and_symmetric() {
    let numerics = [
        Dtype::Int8,
        Dtype::Int16,
        Dtype::Int32,
        Dtype::Int64,
        Dtype::UInt8,
        Dtype::UInt16,
        Dtype::UInt32,
        Dtype::UInt64,
        Dtype::Float32,
        Dtype::Float64,
    ];
    for a in numerics {
        let (_, _, result) = a.comparison_op(&a).unwrap();
        assert_eq!(result, a);
        for b in numerics {
            let (_, _, ab) = a.comparison_op(&b).unwrap();
            let (_, _, ba) = b.comparison_op(&a).unwrap();
            assert_eq!(ab, ba);
            assert!(ab.is_numeric());
        }
    }
}

#[test]
fn promotion_rejects_non_numeric() {
    let err = Dtype::Utf8.comparison_op(&Dtype::Int32).unwrap_err();
    match err {
        Error::TypeError(dtypes) => {
            assert_eq!(dtypes, vec![Dtype::Utf8, Dtype::Int32]);
        }
        other => panic!("expected a type error, got {:?}", other),
    }
    assert!(Dtype::Int32.comparison_op(&Dtype::Boolean).is_err());
    assert!(Dtype::Null.comparison_op(&Dtype::Null).is_err());
}
