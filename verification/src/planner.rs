//! The logical-to-physical planner: a pure recursive lowering of a
//! `LogicalPlan` tree into a `PhysicalPlan` tree that realises data
//! movement explicitly.
//!
//! The planner rejects, as errors, range repartitioning, aggregation with a
//! non-empty `group_by`, and multi-partition `Count` / `Mean` aggregation:
//! folding per-partition counts with a second `Count` would count rows
//! instead of summing counts, and a mean of means is not a mean, so neither
//! lowering is expressible as the same-kind two-stage fold this planner
//! emits for the other aggregation kinds.

use vstd::prelude::*;

use crate::error::{Error, ErrorV, Feature};
use crate::expr::{
    agg_field, agg_sid, aggs_view, duplicate_aggs, duplicate_exprs, expr_view, exprs_view,
    lemma_exprs_view, AggExpr, AggExprV, Expr, ExprV, FieldV, Schema, SchemaV,
};
use crate::logical::{
    lp_partition_spec, lp_schema, FileFormatConfig, LogicalPlan, LogicalPlanV, PartitionScheme,
    SourceInfo, SourceInfoV,
};
use crate::physical::{fanout_paired, PhysicalPlan, PhysicalPlanV};

verus! {

broadcast use vstd::std_specs::vec::group_vec_axioms, vstd::seq::group_seq_axioms;

/// Column-reference expressions for a list of names.
pub open spec fn column_exprs_of(names: Seq<Seq<char>>) -> Seq<ExprV> {
    names.map(|i: int, n: Seq<char>| ExprV::Column(n))
}

/// The two-stage form of a list of aggregations: for each aggregation, a
/// first-stage copy aliased to its structural identifier, and a
/// second-stage aggregation of the same kind over a column reference to
/// that identifier, aliased back to the original output name. Rejects
/// `Count` and `Mean`, whose same-kind fold would be wrong, and propagates
/// field-resolution errors; the first failure, scanned left to right, wins.
pub open spec fn stage_aggs(aggs: Seq<AggExprV>, s: SchemaV) -> Result<
    (Seq<AggExprV>, Seq<AggExprV>),
    ErrorV,
>
    decreases aggs.len(),
{
    if aggs.len() == 0 {
        Ok((Seq::empty(), Seq::empty()))
    } else {
        let a = aggs[0];
        if a.op == crate::expr::AggOp::Count {
            Err(ErrorV::NotImplemented(Feature::MultiPartitionCount))
        } else if a.op == crate::expr::AggOp::Mean {
            Err(ErrorV::NotImplemented(Feature::MultiPartitionMean))
        } else {
            match agg_field(a, s) {
                Err(e) => Err(e),
                Ok(f) => {
                    let sid = agg_sid(a);
                    let first = AggExprV {
                        op: a.op,
                        child: ExprV::Alias(Box::new(a.child), sid),
                    };
                    let second = AggExprV {
                        op: a.op,
                        child: ExprV::Alias(Box::new(ExprV::Column(sid)), f.name),
                    };
                    match stage_aggs(aggs.drop_first(), s) {
                        Err(e) => Err(e),
                        Ok(rest) => Ok((seq![first] + rest.0, seq![second] + rest.1)),
                    }
                },
            }
        }
    }
}

/// What `plan` returns for every logical tree: the full lowering as a
/// function of the input tree alone.
pub open spec fn plan_s(l: LogicalPlanV) -> Result<PhysicalPlanV, ErrorV>
    decreases l,
{
    match l {
        LogicalPlanV::Source { schema, source_info, partition_spec, limit, filters } => {
            match source_info {
                SourceInfoV::External(ext) => match ext.file_format_config {
                    FileFormatConfig::Parquet => Ok(
                        PhysicalPlanV::TabularScanParquet {
                            schema,
                            external_info: ext,
                            partition_spec,
                            limit,
                            filters,
                        },
                    ),
                    FileFormatConfig::Csv => Ok(
                        PhysicalPlanV::TabularScanCsv {
                            schema,
                            external_info: ext,
                            partition_spec,
                            limit,
                            filters,
                        },
                    ),
                    FileFormatConfig::Json => Ok(
                        PhysicalPlanV::TabularScanJson {
                            schema,
                            external_info: ext,
                            partition_spec,
                            limit,
                            filters,
                        },
                    ),
                },
                SourceInfoV::InMemory(mem) => Ok(
                    PhysicalPlanV::InMemoryScan { schema, mem_info: mem, partition_spec },
                ),
            }
        },
        LogicalPlanV::Filter { input, predicate } => match plan_s(*input) {
            Ok(p) => Ok(PhysicalPlanV::Filter { predicate, input: Box::new(p) }),
            Err(e) => Err(e),
        },
        LogicalPlanV::Limit { input, limit } => match plan_s(*input) {
            Ok(p) => Ok(
                PhysicalPlanV::Limit {
                    limit,
                    num_partitions: lp_partition_spec(*input).num_partitions,
                    input: Box::new(p),
                },
            ),
            Err(e) => Err(e),
        },
        LogicalPlanV::Sort { input, sort_by, descending } => match plan_s(*input) {
            Ok(p) => Ok(
                PhysicalPlanV::Sort {
                    sort_by,
                    descending,
                    num_partitions: lp_partition_spec(*input).num_partitions,
                    input: Box::new(p),
                },
            ),
            Err(e) => Err(e),
        },
        LogicalPlanV::Repartition { input, num_partitions, partition_by, scheme } => {
            match plan_s(*input) {
                Err(e) => Err(e),
                Ok(p) => match scheme {
                    PartitionScheme::Unknown => Ok(
                        PhysicalPlanV::Split {
                            input_num_partitions: lp_partition_spec(*input).num_partitions,
                            output_num_partitions: num_partitions,
                            input: Box::new(p),
                        },
                    ),
                    PartitionScheme::Random => Ok(
                        PhysicalPlanV::ReduceMerge {
                            input: Box::new(
                                PhysicalPlanV::FanoutRandom {
                                    num_partitions,
                                    input: Box::new(p),
                                },
                            ),
                        },
                    ),
                    PartitionScheme::Hash => Ok(
                        PhysicalPlanV::ReduceMerge {
                            input: Box::new(
                                PhysicalPlanV::FanoutByHash {
                                    num_partitions,
                                    partition_by,
                                    input: Box::new(p),
                                },
                            ),
                        },
                    ),
                    PartitionScheme::Range => Err(
                        ErrorV::NotImplemented(Feature::RangeRepartition),
                    ),
                },
            }
        },
        LogicalPlanV::Distinct { input } => match plan_s(*input) {
            Err(e) => Err(e),
            Ok(p) => match lp_schema(*input) {
                Err(e) => Err(e),
                Ok(s) => {
                    let cols = column_exprs_of(s.names());
                    let partial = PhysicalPlanV::Aggregate {
                        input: Box::new(p),
                        aggregations: Seq::empty(),
                        group_by: cols,
                    };
                    let n = lp_partition_spec(*input).num_partitions;
                    if n > 1 {
                        Ok(
                            PhysicalPlanV::Aggregate {
                                input: Box::new(
                                    PhysicalPlanV::ReduceMerge {
                                        input: Box::new(
                                            PhysicalPlanV::FanoutByHash {
                                                num_partitions: n,
                                                partition_by: cols,
                                                input: Box::new(partial),
                                            },
                                        ),
                                    },
                                ),
                                aggregations: Seq::empty(),
                                group_by: cols,
                            },
                        )
                    } else {
                        Ok(partial)
                    }
                },
            },
        },
        LogicalPlanV::Aggregate { input, aggregations, group_by } => match plan_s(*input) {
            Err(e) => Err(e),
            Ok(p) => {
                if group_by.len() > 0 {
                    Err(ErrorV::NotImplemented(Feature::GroupedAggregate))
                } else {
                    let n = lp_partition_spec(*input).num_partitions;
                    if n <= 1 {
                        Ok(
                            PhysicalPlanV::Aggregate {
                                input: Box::new(p),
                                aggregations,
                                group_by: Seq::empty(),
                            },
                        )
                    } else {
                        match lp_schema(*input) {
                            Err(e) => Err(e),
                            Ok(s) => match stage_aggs(aggregations, s) {
                                Err(e) => Err(e),
                                Ok(stages) => Ok(
                                    PhysicalPlanV::Aggregate {
                                        input: Box::new(
                                            PhysicalPlanV::Coalesce {
                                                input: Box::new(
                                                    PhysicalPlanV::Aggregate {
                                                        input: Box::new(p),
                                                        aggregations: stages.0,
                                                        group_by: Seq::empty(),
                                                    },
                                                ),
                                                num_from: n,
                                                num_to: 1,
                                            },
                                        ),
                                        aggregations: stages.1,
                                        group_by: Seq::empty(),
                                    },
                                ),
                            },
                        }
                    }
                }
            },
        },
    }
}

/// The lowering of a list of aggregations into two stages visits each
/// aggregation once: stage one applies the original aggregation under an
/// alias to its structural identifier, stage two applies the same kind to
/// a column reference to exactly that identifier, aliased back to the
/// original output name.
pub proof fn lemma_stage_aggs(aggs: Seq<AggExprV>, s: SchemaV)
    ensures
        stage_aggs(aggs, s) matches Ok(st) ==> {
            &&& st.0.len() == aggs.len()
            &&& st.1.len() == aggs.len()
            &&& forall|i: int|
                0 <= i < aggs.len() ==> {
                    &&& (#[trigger] st.0[i]).op == aggs[i].op
                    &&& st.1[i].op == aggs[i].op
                    &&& st.0[i].child == ExprV::Alias(
                        Box::new(aggs[i].child),
                        agg_sid(aggs[i]),
                    )
                    &&& agg_field(aggs[i], s) is Ok
                    &&& st.1[i].child == ExprV::Alias(
                        Box::new(ExprV::Column(agg_sid(aggs[i]))),
                        agg_field(aggs[i], s)->Ok_0.name,
                    )
                    &&& aggs[i].op != crate::expr::AggOp::Count
                    &&& aggs[i].op != crate::expr::AggOp::Mean
                }
        },
    decreases aggs.len(),
{
    if aggs.len() > 0 {
        lemma_stage_aggs(aggs.drop_first(), s);
    }
}

/// Repartition pairing: every physical plan the planner produces has each
/// of its `FanoutRandom` / `FanoutByHash` nodes immediately under a
/// `ReduceMerge` node.
pub proof fn lemma_plan_fanout_paired(l: LogicalPlanV)
    ensures
        plan_s(l) matches Ok(p) ==> fanout_paired(p),
    decreases l,
{
    reveal_with_fuel(fanout_paired, 6);
    match l {
        LogicalPlanV::Source { .. } => {},
        LogicalPlanV::Filter { input, .. } => lemma_plan_fanout_paired(*input),
        LogicalPlanV::Limit { input, .. } => lemma_plan_fanout_paired(*input),
        LogicalPlanV::Sort { input, .. } => lemma_plan_fanout_paired(*input),
        LogicalPlanV::Repartition { input, .. } => lemma_plan_fanout_paired(*input),
        LogicalPlanV::Distinct { input } => lemma_plan_fanout_paired(*input),
        LogicalPlanV::Aggregate { input, .. } => lemma_plan_fanout_paired(*input),
    }
}

/// Two-stage aggregate correspondence: over more than one input partition,
/// the planner emits `Aggregate(Coalesce(Aggregate(input, first, []), n, 1),
/// second, [])`, where stage two folds, with the same aggregation kind,
/// exactly the intermediate column stage one wrote, under the original
/// output name. The same-kind fold is what makes the two stages compute a
/// single-stage result for the kinds that fold associatively over
/// partition boundaries (`Sum`, `Min`, `Max`); the kinds for which it
/// would not (`Count`, `Mean`) are rejected, so they never reach this
/// shape.
pub proof fn lemma_two_stage_aggregate(input: LogicalPlanV, aggs: Seq<AggExprV>)
    requires
        lp_partition_spec(input).num_partitions > 1,
        plan_s(
            LogicalPlanV::Aggregate {
                input: Box::new(input),
                aggregations: aggs,
                group_by: Seq::empty(),
            },
        ) is Ok,
    ensures
        ({
            let p = plan_s(
                LogicalPlanV::Aggregate {
                    input: Box::new(input),
                    aggregations: aggs,
                    group_by: Seq::empty(),
                },
            )->Ok_0;
            let n = lp_partition_spec(input).num_partitions;
            &&& lp_schema(input) is Ok
            &&& p matches PhysicalPlanV::Aggregate { input: coal, aggregations: second, group_by: g2 }
                && ((*coal) matches PhysicalPlanV::Coalesce { input: first_agg, num_from, num_to }
                && ((*first_agg) matches PhysicalPlanV::Aggregate {
                input: inner,
                aggregations: first,
                group_by: g1,
            } && {
                &&& g2.len() == 0
                &&& num_from == n
                &&& num_to == 1
                &&& g1.len() == 0
                &&& *inner == plan_s(input)->Ok_0
                &&& first.len() == aggs.len()
                &&& second.len() == aggs.len()
                &&& forall|i: int|
                    0 <= i < aggs.len() ==> {
                        &&& (#[trigger] first[i]).op == aggs[i].op
                        &&& second[i].op == aggs[i].op
                        &&& first[i].child == ExprV::Alias(
                            Box::new(aggs[i].child),
                            agg_sid(aggs[i]),
                        )
                        &&& second[i].child == ExprV::Alias(
                            Box::new(ExprV::Column(agg_sid(aggs[i]))),
                            agg_field(aggs[i], lp_schema(input)->Ok_0)->Ok_0.name,
                        )
                    }
            }))
        }),
{
    lemma_stage_aggs(aggs, lp_schema(input)->Ok_0);
}

/// Builds column-reference expressions for a list of names.
fn column_exprs(names: &Vec<String>) -> (r: Vec<Expr>)
    ensures
        exprs_view(r@) == column_exprs_of(names@.map(|i: int, s: String| s@)),
{
    let n = names.len();
    let mut out: Vec<Expr> = Vec::new();
    let mut i: usize = 0;
    while i < n
        invariant
            n == names@.len(),
            i <= n,
            out@.len() == i,
            forall|j: int|
                0 <= j < i ==> #[trigger] expr_view(out@[j]) == ExprV::Column(names@[j]@),
        decreases n - i,
    {
        out.push(Expr::Column(names[i].clone()));
        i = i + 1;
    }
    proof {
        lemma_exprs_view(out@);
        assert(exprs_view(out@) =~= column_exprs_of(names@.map(|i: int, s: String| s@)));
    }
    out
}

/// Builds the two stages for `aggs[from..]`.
fn stage_aggs_from(aggs: &Vec<AggExpr>, from: usize, schema: &Schema) -> (r: Result<
    (Vec<AggExpr>, Vec<AggExpr>),
    Error,
>)
    requires
        from <= aggs@.len(),
    ensures
        match stage_aggs(aggs_view(aggs@).skip(from as int), schema@) {
            Ok(stages) => r matches Ok(built) && aggs_view(built.0@) == stages.0 && aggs_view(
                built.1@,
            ) == stages.1,
            Err(ev) => r matches Err(e) && e@ == ev,
        },
    decreases aggs@.len() - from,
{
    let ghost tail = aggs_view(aggs@).skip(from as int);
    if from == aggs.len() {
        let out: (Vec<AggExpr>, Vec<AggExpr>) = (Vec::new(), Vec::new());
        proof {
            assert(tail =~= Seq::<AggExprV>::empty());
            assert(aggs_view(out.0@) =~= Seq::<AggExprV>::empty());
            assert(aggs_view(out.1@) =~= Seq::<AggExprV>::empty());
        }
        return Ok(out);
    }
    proof {
        assert(tail[0] == aggs_view(aggs@)[from as int]);
        assert(tail.drop_first() =~= aggs_view(aggs@).skip(from as int + 1));
    }
    let a = &aggs[from];
    if matches!(a.op, crate::expr::AggOp::Count) {
        return Err(Error::NotImplemented(Feature::MultiPartitionCount));
    }
    if matches!(a.op, crate::expr::AggOp::Mean) {
        return Err(Error::NotImplemented(Feature::MultiPartitionMean));
    }
    let f = match a.to_field(schema) {
        Ok(f) => f,
        Err(e) => {
            return Err(e);
        },
    };
    let sid = a.semantic_id(schema);
    let sid_again = sid.id.clone();
    let dup_child = a.child.duplicate();
    let first_child = Expr::Alias(Box::new(dup_child), sid.id);
    let first = AggExpr { op: a.op, child: first_child };
    let ghost fname = f.name@;
    let ghost sidv = sid_again@;
    let col_ref = Expr::Column(sid_again);
    let second_child = Expr::Alias(Box::new(col_ref), f.name);
    let second = AggExpr { op: a.op, child: second_child };
    let ghost firstv = first@;
    let ghost secondv = second@;
    proof {
        let a0 = tail[0];
        assert(a0 == aggs@[from as int]@);
        assert(expr_view(dup_child) == a0.child);
        assert(first.op == a0.op);
        assert(first.child == first_child);
        assert(firstv == AggExprV { op: first.op, child: expr_view(first.child) });
        assert(sid.id@ == agg_sid(a0));
        assert(first_child == Expr::Alias(Box::new(dup_child), sid.id));
        assert(expr_view(first_child) == ExprV::Alias(Box::new(expr_view(dup_child)), sid.id@));
        assert(firstv == AggExprV {
            op: a0.op,
            child: ExprV::Alias(Box::new(a0.child), agg_sid(a0)),
        });
        assert(agg_field(a0, schema@) is Ok);
        assert(fname == agg_field(a0, schema@)->Ok_0.name);
        assert(sidv == agg_sid(a0));
        assert(expr_view(col_ref) == ExprV::Column(sidv));
        assert(second_child == Expr::Alias(Box::new(col_ref), f.name));
        assert(expr_view(second_child) == ExprV::Alias(Box::new(expr_view(col_ref)), fname));
        assert(secondv == AggExprV { op: second.op, child: expr_view(second.child) });
        assert(secondv == AggExprV {
            op: a0.op,
            child: ExprV::Alias(
                Box::new(ExprV::Column(agg_sid(a0))),
                agg_field(a0, schema@)->Ok_0.name,
            ),
        });
    }
    let (mut rest0, mut rest1) = match stage_aggs_from(aggs, from + 1, schema) {
        Ok(built) => built,
        Err(e) => {
            return Err(e);
        },
    };
    let ghost rest0v = aggs_view(rest0@);
    let ghost rest1v = aggs_view(rest1@);
    let mut out0: Vec<AggExpr> = Vec::new();
    out0.push(first);
    out0.append(&mut rest0);
    let mut out1: Vec<AggExpr> = Vec::new();
    out1.push(second);
    out1.append(&mut rest1);
    proof {
        assert(aggs_view(out0@) =~= seq![firstv] + rest0v);
        assert(aggs_view(out1@) =~= seq![secondv] + rest1v);
    }
    Ok((out0, out1))
}

/// Lowers a logical plan into a physical plan. The result is a pure
/// function of the input tree (`plan_s`), which makes the planner
/// deterministic by construction; no partial plan is ever returned.
#[verifier::rlimit(100)]
pub fn plan(logical_plan: &LogicalPlan) -> (r: Result<PhysicalPlan, Error>)
    ensures
        match plan_s(logical_plan@) {
            Ok(pv) => r matches Ok(p) && p@ == pv,
            Err(ev) => r matches Err(e) && e@ == ev,
        },
    decreases *logical_plan,
{
    match logical_plan {
        LogicalPlan::Source { schema, source_info, partition_spec, limit, filters } => {
            let schema2 = schema.duplicate();
            let spec2 = partition_spec.duplicate();
            let filters2 = duplicate_exprs(filters);
            match source_info {
                SourceInfo::External(ext) => {
                    let ext2 = ext.duplicate();
                    match ext.file_format_config {
                        FileFormatConfig::Parquet => Ok(
                            PhysicalPlan::TabularScanParquet {
                                schema: schema2,
                                external_info: ext2,
                                partition_spec: spec2,
                                limit: *limit,
                                filters: filters2,
                            },
                        ),
                        FileFormatConfig::Csv => Ok(
                            PhysicalPlan::TabularScanCsv {
                                schema: schema2,
                                external_info: ext2,
                                partition_spec: spec2,
                                limit: *limit,
                                filters: filters2,
                            },
                        ),
                        FileFormatConfig::Json => Ok(
                            PhysicalPlan::TabularScanJson {
                                schema: schema2,
                                external_info: ext2,
                                partition_spec: spec2,
                                limit: *limit,
                                filters: filters2,
                            },
                        ),
                    }
                },
                SourceInfo::InMemory(mem) => Ok(
                    PhysicalPlan::InMemoryScan {
                        schema: schema2,
                        mem_info: crate::logical::InMemoryInfo {
                            cache_key: mem.cache_key.clone(),
                        },
                        partition_spec: spec2,
                    },
                ),
            }
        },
        LogicalPlan::Filter { input, predicate } => {
            proof {
                assert(logical_plan@ == LogicalPlanV::Filter {
                    input: Box::new((**input)@),
                    predicate: (*predicate)@,
                });
            }
            let input_physical = match plan(input) {
                Ok(p) => p,
                Err(e) => {
                    return Err(e);
                },
            };
            let built = PhysicalPlan::Filter {
                predicate: predicate.duplicate(),
                input: Box::new(input_physical),
            };
            proof {
                assert(built@ == plan_s(logical_plan@)->Ok_0);
            }
            Ok(built)
        },
        LogicalPlan::Limit { input, limit } => {
            let input_physical = match plan(input) {
                Ok(p) => p,
                Err(e) => {
                    return Err(e);
                },
            };
            let num_partitions = input.partition_spec().num_partitions;
            let built = PhysicalPlan::Limit {
                limit: *limit,
                num_partitions,
                input: Box::new(input_physical),
            };
            proof {
                assert(built@ == plan_s(logical_plan@)->Ok_0);
            }
            Ok(built)
        },
        LogicalPlan::Sort { input, sort_by, descending } => {
            let input_physical = match plan(input) {
                Ok(p) => p,
                Err(e) => {
                    return Err(e);
                },
            };
            let num_partitions = input.partition_spec().num_partitions;
            let mut desc2: Vec<bool> = Vec::new();
            let dn = descending.len();
            let mut i: usize = 0;
            while i < dn
                invariant
                    dn == descending@.len(),
                    i <= dn,
                    desc2@.len() == i,
                    forall|j: int| 0 <= j < i ==> #[trigger] desc2@[j] == descending@[j],
                decreases dn - i,
            {
                desc2.push(descending[i]);
                i = i + 1;
            }
            proof {
                assert(desc2@ =~= descending@);
            }
            let built = PhysicalPlan::Sort {
                sort_by: duplicate_exprs(sort_by),
                descending: desc2,
                num_partitions,
                input: Box::new(input_physical),
            };
            proof {
                assert(built@ == plan_s(logical_plan@)->Ok_0);
            }
            Ok(built)
        },
        LogicalPlan::Repartition { input, num_partitions, partition_by, scheme } => {
            let input_physical = match plan(input) {
                Ok(p) => p,
                Err(e) => {
                    return Err(e);
                },
            };
            match scheme {
                PartitionScheme::Unknown => {
                    let in_parts = input.partition_spec().num_partitions;
                    let built = PhysicalPlan::Split {
                        input_num_partitions: in_parts,
                        output_num_partitions: *num_partitions,
                        input: Box::new(input_physical),
                    };
                    proof {
                        reveal_with_fuel(crate::physical::pp_view, 4);
                        assert(built@ == plan_s(logical_plan@)->Ok_0);
                    }
                    Ok(built)
                },
                PartitionScheme::Random => {
                    let built = PhysicalPlan::ReduceMerge {
                        input: Box::new(
                            PhysicalPlan::FanoutRandom {
                                num_partitions: *num_partitions,
                                input: Box::new(input_physical),
                            },
                        ),
                    };
                    proof {
                        reveal_with_fuel(crate::physical::pp_view, 4);
                        assert(built@ == plan_s(logical_plan@)->Ok_0);
                    }
                    Ok(built)
                },
                PartitionScheme::Hash => {
                    let built = PhysicalPlan::ReduceMerge {
                        input: Box::new(
                            PhysicalPlan::FanoutByHash {
                                num_partitions: *num_partitions,
                                partition_by: duplicate_exprs(partition_by),
                                input: Box::new(input_physical),
                            },
                        ),
                    };
                    proof {
                        reveal_with_fuel(crate::physical::pp_view, 4);
                        assert(built@ == plan_s(logical_plan@)->Ok_0);
                    }
                    Ok(built)
                },
                PartitionScheme::Range => Err(Error::NotImplemented(Feature::RangeRepartition)),
            }
        },
        LogicalPlan::Distinct { input } => {
            let input_physical = match plan(input) {
                Ok(p) => p,
                Err(e) => {
                    return Err(e);
                },
            };
            let input_schema = match input.schema() {
                Ok(s) => s,
                Err(e) => {
                    return Err(e);
                },
            };
            let names = input_schema.names();
            let cols = column_exprs(&names);
            let num_partitions = input.partition_spec().num_partitions;
            if num_partitions > 1 {
                let cols_fanout = duplicate_exprs(&cols);
                let cols_final = duplicate_exprs(&cols);
                let partial = PhysicalPlan::Aggregate {
                    input: Box::new(input_physical),
                    aggregations: Vec::new(),
                    group_by: cols,
                };
                proof {
                    assert(aggs_view(Seq::<AggExpr>::empty()) =~= Seq::<AggExprV>::empty());
                }
                let built = PhysicalPlan::Aggregate {
                    input: Box::new(
                        PhysicalPlan::ReduceMerge {
                            input: Box::new(
                                PhysicalPlan::FanoutByHash {
                                    num_partitions,
                                    partition_by: cols_fanout,
                                    input: Box::new(partial),
                                },
                            ),
                        },
                    ),
                    aggregations: Vec::new(),
                    group_by: cols_final,
                };
                proof {
                    reveal_with_fuel(crate::physical::pp_view, 4);
                    assert(built@ == plan_s(logical_plan@)->Ok_0);
                }
                Ok(built)
            } else {
                proof {
                    assert(aggs_view(Seq::<AggExpr>::empty()) =~= Seq::<AggExprV>::empty());
                }
                let built = PhysicalPlan::Aggregate {
                    input: Box::new(input_physical),
                    aggregations: Vec::new(),
                    group_by: cols,
                };
                proof {
                    reveal_with_fuel(crate::physical::pp_view, 4);
                    assert(built@ == plan_s(logical_plan@)->Ok_0);
                }
                Ok(built)
            }
        },
        LogicalPlan::Aggregate { input, aggregations, group_by } => {
            proof {
                lemma_exprs_view(group_by@);
            }
            let input_physical = match plan(input) {
                Ok(p) => p,
                Err(e) => {
                    return Err(e);
                },
            };
            if group_by.len() > 0 {
                return Err(Error::NotImplemented(Feature::GroupedAggregate));
            }
            let num_partitions = input.partition_spec().num_partitions;
            if num_partitions <= 1 {
                proof {
                    assert(exprs_view(Seq::<Expr>::empty()) =~= Seq::<ExprV>::empty());
                }
                let built = PhysicalPlan::Aggregate {
                    input: Box::new(input_physical),
                    aggregations: duplicate_aggs(aggregations),
                    group_by: Vec::new(),
                };
                proof {
                    reveal_with_fuel(crate::physical::pp_view, 4);
                    assert(built@ == plan_s(logical_plan@)->Ok_0);
                }
                Ok(built)
            } else {
                let input_schema = match input.schema() {
                    Ok(s) => s,
                    Err(e) => {
                        return Err(e);
                    },
                };
                proof {
                    assert(aggs_view(aggregations@).skip(0) =~= aggs_view(aggregations@));
                }
                let (first_stage, second_stage) = match stage_aggs_from(
                    aggregations,
                    0,
                    &input_schema,
                ) {
                    Ok(stages) => stages,
                    Err(e) => {
                        return Err(e);
                    },
                };
                proof {
                    assert(exprs_view(Seq::<Expr>::empty()) =~= Seq::<ExprV>::empty());
                }
                let built = PhysicalPlan::Aggregate {
                    input: Box::new(
                        PhysicalPlan::Coalesce {
                            input: Box::new(
                                PhysicalPlan::Aggregate {
                                    input: Box::new(input_physical),
                                    aggregations: first_stage,
                                    group_by: Vec::new(),
                                },
                            ),
                            num_from: num_partitions,
                            num_to: 1,
                        },
                    ),
                    aggregations: second_stage,
                    group_by: Vec::new(),
                };
                proof {
                    reveal_with_fuel(crate::physical::pp_view, 4);
                    assert(built@ == plan_s(logical_plan@)->Ok_0);
                }
                Ok(built)
            }
        },
    }
}

} // verus!
