//! The registered scalar functions: `binary_min`, `binary_max` and `clip`,
//! each with a stable name, schema-time field inference and evaluation
//! over materialised columns, behind the interface the planner and the
//! expression layer share for any scalar function.

use vstd::prelude::*;

use crate::error::{Error, ErrorV};
use crate::expr::{
    exprs_view, lemma_exprs_view, scalar_fn_field, scalar_fn_to_field, Expr, ExprV, Field,
    FieldV, Schema, SchemaV, ScalarFnOp,
};
use crate::series::{spec_binary_select, spec_clip, Series, SeriesV};

verus! {

broadcast use vstd::std_specs::vec::group_vec_axioms, vstd::seq::group_seq_axioms;

/// Views of a sequence of series.
pub open spec fn series_views(ss: Seq<Series>) -> Seq<SeriesV> {
    ss.map(|i: int, s: Series| s@)
}

/// A registered scalar function: a stable name, schema-time field
/// inference, and evaluation over materialised columns. Each
/// implementation pins its exact behaviour down with the three spec
/// functions, which its executable methods are proved to follow.
pub trait ScalarUDF {
    /// The function's stable registry name.
    spec fn spec_name(&self) -> Seq<char>;

    /// Exact schema-time behaviour of `to_field`.
    spec fn spec_to_field(&self, inputs: Seq<ExprV>, schema: SchemaV) -> Result<FieldV, ErrorV>;

    /// Exact evaluation-time behaviour of `evaluate`.
    spec fn spec_evaluate(&self, inputs: Seq<SeriesV>) -> Result<SeriesV, ErrorV>;

    /// The stable name.
    fn name(&self) -> (r: &'static str)
        ensures
            r@ == self.spec_name(),
    ;

    /// Validates arity and dtypes against the schema and returns the
    /// output field.
    fn to_field(&self, inputs: &Vec<Expr>, schema: &Schema) -> (r: Result<Field, Error>)
        ensures
            match self.spec_to_field(exprs_view(inputs@), schema@) {
                Ok(fv) => r matches Ok(f) && f@ == fv,
                Err(ev) => r matches Err(e) && e@ == ev,
            },
    ;

    /// Validates arity at runtime and evaluates over the input columns.
    fn evaluate(&self, inputs: &Vec<Series>) -> (r: Result<Series, Error>)
        requires
            forall|i: int| 0 <= i < inputs@.len() ==> (#[trigger] inputs@[i]).wf(),
        ensures
            match self.spec_evaluate(series_views(inputs@)) {
                Ok(sv) => r matches Ok(s) && s.wf() && s@ == sv,
                Err(ev) => r matches Err(e) && e@ == ev,
            },
    ;
}

/// Element-wise minimum of two numeric columns.
#[derive(Debug, Clone, Copy, PartialEq, Eq, Hash, Structural)]
pub struct BinaryMin;

impl ScalarUDF for BinaryMin {
    open spec fn spec_name(&self) -> Seq<char> {
        "binary_min"@
    }

    open spec fn spec_to_field(&self, inputs: Seq<ExprV>, schema: SchemaV) -> Result<
        FieldV,
        ErrorV,
    > {
        scalar_fn_field(ScalarFnOp::BinaryMin, inputs, schema)
    }

    open spec fn spec_evaluate(&self, inputs: Seq<SeriesV>) -> Result<SeriesV, ErrorV> {
        if inputs.len() != 2 {
            Err(ErrorV::ValueError { expected: 2, got: inputs.len() as usize })
        } else {
            spec_binary_select(inputs[0], inputs[1], false)
        }
    }

    fn name(&self) -> (r: &'static str) {
        "binary_min"
    }

    fn to_field(&self, inputs: &Vec<Expr>, schema: &Schema) -> (r: Result<Field, Error>) {
        scalar_fn_to_field(ScalarFnOp::BinaryMin, inputs, schema)
    }

    fn evaluate(&self, inputs: &Vec<Series>) -> (r: Result<Series, Error>) {
        if inputs.len() != 2 {
            return Err(Error::ValueError { expected: 2, got: inputs.len() });
        }
        inputs[0].binary_min(&inputs[1])
    }
}

/// Element-wise maximum of two numeric columns.
#[derive(Debug, Clone, Copy, PartialEq, Eq, Hash, Structural)]
pub struct BinaryMax;

impl ScalarUDF for BinaryMax {
    open spec fn spec_name(&self) -> Seq<char> {
        "binary_max"@
    }

    open spec fn spec_to_field(&self, inputs: Seq<ExprV>, schema: SchemaV) -> Result<
        FieldV,
        ErrorV,
    > {
        scalar_fn_field(ScalarFnOp::BinaryMax, inputs, schema)
    }

    open spec fn spec_evaluate(&self, inputs: Seq<SeriesV>) -> Result<SeriesV, ErrorV> {
        if inputs.len() != 2 {
            Err(ErrorV::ValueError { expected: 2, got: inputs.len() as usize })
        } else {
            spec_binary_select(inputs[0], inputs[1], true)
        }
    }

    fn name(&self) -> (r: &'static str) {
        "binary_max"
    }

    fn to_field(&self, inputs: &Vec<Expr>, schema: &Schema) -> (r: Result<Field, Error>) {
        scalar_fn_to_field(ScalarFnOp::BinaryMax, inputs, schema)
    }

    fn evaluate(&self, inputs: &Vec<Series>) -> (r: Result<Series, Error>) {
        if inputs.len() != 2 {
            return Err(Error::ValueError { expected: 2, got: inputs.len() });
        }
        inputs[0].binary_max(&inputs[1])
    }
}

/// Element-wise clip of a column between a lower and an upper bound.
#[derive(Debug, Clone, Copy, PartialEq, Eq, Hash, Structural)]
pub struct Clip;

impl ScalarUDF for Clip {
    open spec fn spec_name(&self) -> Seq<char> {
        "clip"@
    }

    open spec fn spec_to_field(&self, inputs: Seq<ExprV>, schema: SchemaV) -> Result<
        FieldV,
        ErrorV,
    > {
        scalar_fn_field(ScalarFnOp::Clip, inputs, schema)
    }

    open spec fn spec_evaluate(&self, inputs: Seq<SeriesV>) -> Result<SeriesV, ErrorV> {
        if inputs.len() != 3 {
            Err(ErrorV::ValueError { expected: 3, got: inputs.len() as usize })
        } else {
            spec_clip(inputs[0], inputs[1], inputs[2])
        }
    }

    fn name(&self) -> (r: &'static str) {
        "clip"
    }

    fn to_field(&self, inputs: &Vec<Expr>, schema: &Schema) -> (r: Result<Field, Error>) {
        scalar_fn_to_field(ScalarFnOp::Clip, inputs, schema)
    }

    fn evaluate(&self, inputs: &Vec<Series>) -> (r: Result<Series, Error>) {
        if inputs.len() != 3 {
            return Err(Error::ValueError { expected: 3, got: inputs.len() });
        }
        inputs[0].clip(&inputs[1], &inputs[2])
    }
}

/// The expression `binary_min(lhs, rhs)`.
pub fn binary_min(lhs: Expr, rhs: Expr) -> (r: Expr)
    ensures
        r@ == (ExprV::ScalarFn { op: ScalarFnOp::BinaryMin, inputs: seq![lhs@, rhs@] }),
{
    scalar_fn_expr(ScalarFnOp::BinaryMin, lhs, rhs)
}

/// The expression `binary_max(lhs, rhs)`.
pub fn binary_max(lhs: Expr, rhs: Expr) -> (r: Expr)
    ensures
        r@ == (ExprV::ScalarFn { op: ScalarFnOp::BinaryMax, inputs: seq![lhs@, rhs@] }),
{
    scalar_fn_expr(ScalarFnOp::BinaryMax, lhs, rhs)
}

/// The expression `clip(array, lo, hi)`.
pub fn clip(array: Expr, lo: Expr, hi: Expr) -> (r: Expr)
    ensures
        r@ == (ExprV::ScalarFn { op: ScalarFnOp::Clip, inputs: seq![array@, lo@, hi@] }),
{
    let ghost views = seq![array@, lo@, hi@];
    let mut inputs: Vec<Expr> = Vec::new();
    inputs.push(array);
    inputs.push(lo);
    inputs.push(hi);
    let ghost iv = inputs@;
    let r = Expr::ScalarFn { op: ScalarFnOp::Clip, inputs };
    proof {
        lemma_exprs_view(iv);
        assert(exprs_view(iv) =~= views);
    }
    r
}

/// Shared body of the binary expression builders.
fn scalar_fn_expr(op: ScalarFnOp, lhs: Expr, rhs: Expr) -> (r: Expr)
    ensures
        r@ == (ExprV::ScalarFn { op, inputs: seq![lhs@, rhs@] }),
{
    let ghost views = seq![lhs@, rhs@];
    let mut inputs: Vec<Expr> = Vec::new();
    inputs.push(lhs);
    inputs.push(rhs);
    let ghost iv = inputs@;
    let r = Expr::ScalarFn { op, inputs };
    proof {
        lemma_exprs_view(iv);
        assert(exprs_view(iv) =~= views);
    }
    r
}

} // verus!
