//! Error taxonomy shared by the planner, the schema layer and the kernels.
//!
//! Errors are plain values; every fallible operation returns a `Result`.
//! Each variant carries the offending dtypes, arities or lengths so that a
//! caller can see exactly what went wrong.

use vstd::prelude::*;

use crate::dtype::Dtype;

verus! {

/// Why a schema-time check failed.
#[derive(Debug)]
pub enum SchemaIssue {
    /// A scalar function was handed the wrong number of input expressions.
    Arity { expected: usize, got: usize },
    /// A column reference named a field that the schema does not hold.
    MissingColumn { name: String },
}

/// Ghost mirror of `SchemaIssue`.
pub enum SchemaIssueV {
    Arity { expected: usize, got: usize },
    MissingColumn { name: Seq<char> },
}

impl View for SchemaIssue {
    type V = SchemaIssueV;

    open spec fn view(&self) -> SchemaIssueV {
        match self {
            SchemaIssue::Arity { expected, got } => SchemaIssueV::Arity {
                expected: *expected,
                got: *got,
            },
            SchemaIssue::MissingColumn { name } => SchemaIssueV::MissingColumn { name: name@ },
        }
    }
}

/// A lowering or dispatch path that this core deliberately refuses.
#[derive(Debug, Clone, Copy, PartialEq, Eq, Structural)]
pub enum Feature {
    /// Aggregation with a non-empty `group_by` list.
    GroupedAggregate,
    /// Repartitioning by range.
    RangeRepartition,
    /// `Count` over more than one input partition: folding per-partition
    /// counts with a second `Count` would count rows, not sum counts.
    MultiPartitionCount,
    /// `Mean` over more than one input partition: a mean of means is not a
    /// mean, and the correct `(Sum, Count)` decomposition is not expressible
    /// as a same-kind fold.
    MultiPartitionMean,
}

/// The error value returned by every fallible operation of this crate.
#[derive(Debug)]
pub enum Error {
    /// Arity or column-resolution failure at planning time.
    SchemaMismatch(SchemaIssue),
    /// An operand had a dtype the operation does not accept; carries the
    /// offending dtypes.
    TypeError(Vec<Dtype>),
    /// Arity failure at evaluation time.
    ValueError { expected: usize, got: usize },
    /// Two columns that must be equally long were not.
    ShapeMismatch { lhs_len: usize, rhs_len: usize },
    /// A requested lowering or dispatch path is deliberately unsupported.
    NotImplemented(Feature),
    /// Invariant violation; never produced by this crate's verified code,
    /// reserved so that the taxonomy is closed.
    Internal,
}

/// Ghost mirror of `Error`.
pub enum ErrorV {
    SchemaMismatch(SchemaIssueV),
    TypeError(Seq<Dtype>),
    ValueError { expected: usize, got: usize },
    ShapeMismatch { lhs_len: usize, rhs_len: usize },
    NotImplemented(Feature),
    Internal,
}

impl View for Error {
    type V = ErrorV;

    open spec fn view(&self) -> ErrorV {
        match self {
            Error::SchemaMismatch(issue) => ErrorV::SchemaMismatch(issue@),
            Error::TypeError(dtypes) => ErrorV::TypeError(dtypes@),
            Error::ValueError { expected, got } => ErrorV::ValueError {
                expected: *expected,
                got: *got,
            },
            Error::ShapeMismatch { lhs_len, rhs_len } => ErrorV::ShapeMismatch {
                lhs_len: *lhs_len,
                rhs_len: *rhs_len,
            },
            Error::NotImplemented(feature) => ErrorV::NotImplemented(*feature),
            Error::Internal => ErrorV::Internal,
        }
    }
}

} // verus!
