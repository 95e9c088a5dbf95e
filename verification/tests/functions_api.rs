use daft_core::array::{DataArray, Slot};
use daft_core::dtype::Dtype;
use daft_core::error::{Error, SchemaIssue};
use daft_core::expr::{AggExpr, AggOp, Expr, Field, Schema, ScalarFnOp};
use daft_core::functions::{binary_max, binary_min, clip, BinaryMax, BinaryMin, Clip, ScalarUDF};
use daft_core::series::Series;

fn test_schema() -> Schema {
    Schema::new(vec![
        Field::new("x".to_string(), Dtype::Int32),
        Field::new("y".to_string(), Dtype::Float32),
        Field::new("s".to_string(), Dtype::Utf8),
    ])
}

fn col(name: &str) -> Expr {
    Expr::Column(name.to_string())
}

#[test]
fn names_are_stable() {
    assert_eq!(BinaryMin.name(), "binary_min");
    assert_eq!(BinaryMax.name(), "binary_max");
    assert_eq!(Clip.name(), "clip");
}

#[test]
fn to_field_promotes_and_keeps_left_name() {
    let schema = test_schema();
    let f = BinaryMin.to_field(&vec![col("x"), col("y")], &schema).unwrap();
    assert_eq!(f.name, "x");
    assert_eq!(f.dtype, Dtype::Float32);
    let f = BinaryMax.to_field(&vec![col("y"), col("x")], &schema).unwrap();
    assert_eq!(f.name, "y");
    assert_eq!(f.dtype, Dtype::Float32);
    let f = Clip.to_field(&vec![col("x"), col("x"), col("y")], &schema).unwrap();
    assert_eq!(f.name, "x");
    assert_eq!(f.dtype, Dtype::Float32);
}

#[test]
fn to_field_arity_is_schema_mismatch() {
    let schema = test_schema();
    match BinaryMin.to_field(&vec![col("x")], &schema).unwrap_err() {
        Error::SchemaMismatch(SchemaIssue::Arity { expected, got }) => {
            assert_eq!(expected, 2);
            assert_eq!(got, 1);
        }
        other => panic!("expected an arity error, got {:?}", other),
    }
    match Clip.to_field(&vec![col("x"), col("y")], &schema).unwrap_err() {
        Error::SchemaMismatch(SchemaIssue::Arity { expected, got }) => {
            assert_eq!(expected, 3);
            assert_eq!(got, 2);
        }
        other => panic!("expected an arity error, got {:?}", other),
    }
}

#[test]
fn to_field_rejects_non_numeric() {
    let schema = test_schema();
    match BinaryMin.to_field(&vec![col("x"), col("s")], &schema).unwrap_err() {
        Error::TypeError(dtypes) => assert_eq!(dtypes, vec![Dtype::Int32, Dtype::Utf8]),
        other => panic!("expected a type error, got {:?}", other),
    }
}

#[test]
fn to_field_missing_column() {
    let schema = test_schema();
    match BinaryMin.to_field(&vec![col("x"), col("nope")], &schema).unwrap_err() {
        Error::SchemaMismatch(SchemaIssue::MissingColumn { name }) => assert_eq!(name.as_str(), "nope"),
        other => panic!("expected a missing column, got {:?}", other),
    }
}

#[test]
fn evaluate_arity_is_value_error() {
    let arr = DataArray::new(Dtype::Int32, vec![Slot::I(1)], vec![true]).unwrap();
    let s = Series::new("a".to_string(), arr);
    match BinaryMin.evaluate(&vec![s]).unwrap_err() {
        Error::ValueError { expected, got } => {
            assert_eq!(expected, 2);
            assert_eq!(got, 1);
        }
        other => panic!("expected a value error, got {:?}", other),
    }
}

#[test]
fn evaluate_delegates_to_kernels() {
    let a = DataArray::new(
        Dtype::Int32,
        vec![Slot::I(4), Slot::I(9)],
        vec![true, true],
    )
    .unwrap();
    let b = DataArray::new(
        Dtype::Int32,
        vec![Slot::I(6), Slot::I(2)],
        vec![true, true],
    )
    .unwrap();
    let sa = Series::new("a".to_string(), a);
    let sb = Series::new("b".to_string(), b);
    let mn = BinaryMin.evaluate(&vec![sa, sb]).unwrap();
    assert_eq!(mn.array.get(0), Slot::I(4));
    assert_eq!(mn.array.get(1), Slot::I(2));
}

#[test]
fn builders_wrap_the_registered_functions() {
    let schema = test_schema();
    let e = binary_min(col("x"), col("y"));
    match &e {
        Expr::ScalarFn { op, inputs } => {
            assert_eq!(*op, ScalarFnOp::BinaryMin);
            assert_eq!(inputs.len(), 2);
        }
        other => panic!("expected a scalar function expression, got {:?}", other),
    }
    let f = e.to_field(&schema).unwrap();
    assert_eq!(f.name, "x");
    assert_eq!(f.dtype, Dtype::Float32);
    let f = binary_max(col("x"), col("x")).to_field(&schema).unwrap();
    assert_eq!(f.dtype, Dtype::Int32);
    let f = clip(col("x"), col("x"), col("y")).to_field(&schema).unwrap();
    assert_eq!(f.name, "x");
    assert_eq!(f.dtype, Dtype::Float32);
}

#[test]
fn semantic_ids_are_structural() {
    let schema = test_schema();
    assert_eq!(col("x").semantic_id(&schema).id, "col(x)");
    let aliased = Expr::Alias(Box::new(col("x")), "other".to_string());
    assert_eq!(aliased.semantic_id(&schema).id, "col(x)");
    let e = binary_min(col("x"), col("y"));
    assert_eq!(e.semantic_id(&schema).id, "binary_min(col(x),col(y))");
    let agg = AggExpr { op: AggOp::Sum, child: col("x") };
    assert_eq!(agg.semantic_id(&schema).id, "col(x).sum()");
    let again = AggExpr { op: AggOp::Sum, child: col("x") };
    assert_eq!(again.semantic_id(&schema).id, agg.semantic_id(&schema).id);
}

#[test]
fn agg_to_field_dtypes() {
    let schema = test_schema();
    let sum = AggExpr { op: AggOp::Sum, child: col("x") };
    let f = sum.to_field(&schema).unwrap();
    assert_eq!(f.name, "x");
    assert_eq!(f.dtype, Dtype::Int32);
    let count = AggExpr { op: AggOp::Count, child: col("x") };
    assert_eq!(count.to_field(&schema).unwrap().dtype, Dtype::UInt64);
    let mean = AggExpr { op: AggOp::Mean, child: col("x") };
    assert_eq!(mean.to_field(&schema).unwrap().dtype, Dtype::Float64);
}
