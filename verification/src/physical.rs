//! The physical plan tree the planner emits: executable operators that
//! realise data movement (fan-outs, merges, splits, coalesces) explicitly.

use vstd::prelude::*;

use crate::expr::{AggExpr, AggExprV, Expr, ExprV, Schema, SchemaV, aggs_view, exprs_view};
use crate::logical::{ExternalInfo, ExternalInfoV, InMemoryInfo, InMemoryInfoV, PartitionSpec, PartitionSpecV};

verus! {

/// Ghost mirror of a `PhysicalPlan`.
pub enum PhysicalPlanV {
    TabularScanParquet {
        schema: SchemaV,
        external_info: ExternalInfoV,
        partition_spec: PartitionSpecV,
        limit: Option<u64>,
        filters: Seq<ExprV>,
    },
    TabularScanCsv {
        schema: SchemaV,
        external_info: ExternalInfoV,
        partition_spec: PartitionSpecV,
        limit: Option<u64>,
        filters: Seq<ExprV>,
    },
    TabularScanJson {
        schema: SchemaV,
        external_info: ExternalInfoV,
        partition_spec: PartitionSpecV,
        limit: Option<u64>,
        filters: Seq<ExprV>,
    },
    InMemoryScan { schema: SchemaV, mem_info: InMemoryInfoV, partition_spec: PartitionSpecV },
    Filter { predicate: ExprV, input: Box<PhysicalPlanV> },
    Limit { limit: u64, num_partitions: u32, input: Box<PhysicalPlanV> },
    Sort {
        sort_by: Seq<ExprV>,
        descending: Seq<bool>,
        num_partitions: u32,
        input: Box<PhysicalPlanV>,
    },
    Split { input_num_partitions: u32, output_num_partitions: u32, input: Box<PhysicalPlanV> },
    FanoutRandom { num_partitions: u32, input: Box<PhysicalPlanV> },
    FanoutByHash { num_partitions: u32, partition_by: Seq<ExprV>, input: Box<PhysicalPlanV> },
    ReduceMerge { input: Box<PhysicalPlanV> },
    Aggregate { input: Box<PhysicalPlanV>, aggregations: Seq<AggExprV>, group_by: Seq<ExprV> },
    Coalesce { input: Box<PhysicalPlanV>, num_from: u32, num_to: u32 },
}

/// An executable tree of partition-aware operators; each node owns its
/// input sub-plan exclusively.
#[derive(Debug)]
pub enum PhysicalPlan {
    TabularScanParquet {
        schema: Schema,
        external_info: ExternalInfo,
        partition_spec: PartitionSpec,
        limit: Option<u64>,
        filters: Vec<Expr>,
    },
    TabularScanCsv {
        schema: Schema,
        external_info: ExternalInfo,
        partition_spec: PartitionSpec,
        limit: Option<u64>,
        filters: Vec<Expr>,
    },
    TabularScanJson {
        schema: Schema,
        external_info: ExternalInfo,
        partition_spec: PartitionSpec,
        limit: Option<u64>,
        filters: Vec<Expr>,
    },
    InMemoryScan { schema: Schema, mem_info: InMemoryInfo, partition_spec: PartitionSpec },
    Filter { predicate: Expr, input: Box<PhysicalPlan> },
    Limit { limit: u64, num_partitions: u32, input: Box<PhysicalPlan> },
    Sort { sort_by: Vec<Expr>, descending: Vec<bool>, num_partitions: u32, input: Box<PhysicalPlan> },
    Split { input_num_partitions: u32, output_num_partitions: u32, input: Box<PhysicalPlan> },
    FanoutRandom { num_partitions: u32, input: Box<PhysicalPlan> },
    FanoutByHash { num_partitions: u32, partition_by: Vec<Expr>, input: Box<PhysicalPlan> },
    ReduceMerge { input: Box<PhysicalPlan> },
    Aggregate { input: Box<PhysicalPlan>, aggregations: Vec<AggExpr>, group_by: Vec<Expr> },
    Coalesce { input: Box<PhysicalPlan>, num_from: u32, num_to: u32 },
}

/// Recursive view of a physical plan.
pub open spec fn pp_view(p: PhysicalPlan) -> PhysicalPlanV
    decreases p,
{
    match p {
        PhysicalPlan::TabularScanParquet { schema, external_info, partition_spec, limit, filters } => {
            PhysicalPlanV::TabularScanParquet {
                schema: schema@,
                external_info: external_info@,
                partition_spec: partition_spec@,
                limit,
                filters: exprs_view(filters@),
            }
        },
        PhysicalPlan::TabularScanCsv { schema, external_info, partition_spec, limit, filters } => {
            PhysicalPlanV::TabularScanCsv {
                schema: schema@,
                external_info: external_info@,
                partition_spec: partition_spec@,
                limit,
                filters: exprs_view(filters@),
            }
        },
        PhysicalPlan::TabularScanJson { schema, external_info, partition_spec, limit, filters } => {
            PhysicalPlanV::TabularScanJson {
                schema: schema@,
                external_info: external_info@,
                partition_spec: partition_spec@,
                limit,
                filters: exprs_view(filters@),
            }
        },
        PhysicalPlan::InMemoryScan { schema, mem_info, partition_spec } => {
            PhysicalPlanV::InMemoryScan {
                schema: schema@,
                mem_info: mem_info@,
                partition_spec: partition_spec@,
            }
        },
        PhysicalPlan::Filter { predicate, input } => PhysicalPlanV::Filter {
            predicate: predicate@,
            input: Box::new(pp_view(*input)),
        },
        PhysicalPlan::Limit { limit, num_partitions, input } => PhysicalPlanV::Limit {
            limit,
            num_partitions,
            input: Box::new(pp_view(*input)),
        },
        PhysicalPlan::Sort { sort_by, descending, num_partitions, input } => PhysicalPlanV::Sort {
            sort_by: exprs_view(sort_by@),
            descending: descending@,
            num_partitions,
            input: Box::new(pp_view(*input)),
        },
        PhysicalPlan::Split { input_num_partitions, output_num_partitions, input } => {
            PhysicalPlanV::Split {
                input_num_partitions,
                output_num_partitions,
                input: Box::new(pp_view(*input)),
            }
        },
        PhysicalPlan::FanoutRandom { num_partitions, input } => PhysicalPlanV::FanoutRandom {
            num_partitions,
            input: Box::new(pp_view(*input)),
        },
        PhysicalPlan::FanoutByHash { num_partitions, partition_by, input } => {
            PhysicalPlanV::FanoutByHash {
                num_partitions,
                partition_by: exprs_view(partition_by@),
                input: Box::new(pp_view(*input)),
            }
        },
        PhysicalPlan::ReduceMerge { input } => PhysicalPlanV::ReduceMerge {
            input: Box::new(pp_view(*input)),
        },
        PhysicalPlan::Aggregate { input, aggregations, group_by } => PhysicalPlanV::Aggregate {
            input: Box::new(pp_view(*input)),
            aggregations: aggs_view(aggregations@),
            group_by: exprs_view(group_by@),
        },
        PhysicalPlan::Coalesce { input, num_from, num_to } => PhysicalPlanV::Coalesce {
            input: Box::new(pp_view(*input)),
            num_from,
            num_to,
        },
    }
}

impl View for PhysicalPlan {
    type V = PhysicalPlanV;

    open spec fn view(&self) -> PhysicalPlanV {
        pp_view(*self)
    }
}

/// Repartition pairing: every `FanoutRandom` / `FanoutByHash` node stands
/// immediately under a `ReduceMerge` node, never alone.
pub open spec fn fanout_paired(p: PhysicalPlanV) -> bool
    decreases p,
{
    match p {
        PhysicalPlanV::TabularScanParquet { .. } => true,
        PhysicalPlanV::TabularScanCsv { .. } => true,
        PhysicalPlanV::TabularScanJson { .. } => true,
        PhysicalPlanV::InMemoryScan { .. } => true,
        PhysicalPlanV::Filter { input, .. } => fanout_paired(*input),
        PhysicalPlanV::Limit { input, .. } => fanout_paired(*input),
        PhysicalPlanV::Sort { input, .. } => fanout_paired(*input),
        PhysicalPlanV::Split { input, .. } => fanout_paired(*input),
        PhysicalPlanV::FanoutRandom { .. } => false,
        PhysicalPlanV::FanoutByHash { .. } => false,
        PhysicalPlanV::ReduceMerge { input } => match *input {
            PhysicalPlanV::FanoutRandom { input: fanned, .. } => fanout_paired(*fanned),
            PhysicalPlanV::FanoutByHash { input: fanned, .. } => fanout_paired(*fanned),
            _ => fanout_paired(*input),
        },
        PhysicalPlanV::Aggregate { input, .. } => fanout_paired(*input),
        PhysicalPlanV::Coalesce { input, .. } => fanout_paired(*input),
    }
}

} // verus!
