//! The logical plan tree the planner consumes: relational operations with a
//! partition specification on every node.

use vstd::prelude::*;

use crate::error::{Error, ErrorV};
use crate::expr::{
    agg_field, aggs_view, duplicate_aggs, duplicate_exprs, expr_field, expr_view, exprs_view,
    lemma_exprs_view, AggExpr, AggExprV, Expr, ExprV, Field, FieldV, Schema, SchemaV,
};

verus! {

broadcast use vstd::std_specs::vec::group_vec_axioms, vstd::seq::group_seq_axioms;

/// How a node's output rows are spread over its partitions.
#[derive(Debug, Clone, Copy, PartialEq, Eq, Structural)]
pub enum PartitionScheme {
    Unknown,
    Random,
    Hash,
    Range,
}

/// Ghost mirror of a `PartitionSpec`.
#[verifier::ext_equal]
pub struct PartitionSpecV {
    pub num_partitions: u32,
    pub scheme: PartitionScheme,
    pub partition_by: Seq<ExprV>,
}

/// Partition count, scheme and partition-by expressions of a node's
/// output; the count is at least 1 on well-formed plans.
#[derive(Debug)]
pub struct PartitionSpec {
    pub num_partitions: u32,
    pub scheme: PartitionScheme,
    pub partition_by: Vec<Expr>,
}

impl View for PartitionSpec {
    type V = PartitionSpecV;

    open spec fn view(&self) -> PartitionSpecV {
        PartitionSpecV {
            num_partitions: self.num_partitions,
            scheme: self.scheme,
            partition_by: exprs_view(self.partition_by@),
        }
    }
}

impl PartitionSpec {
    /// Builds a partition specification.
    pub fn new(num_partitions: u32, scheme: PartitionScheme, partition_by: Vec<Expr>) -> (r:
        PartitionSpec)
        ensures
            r@ == (PartitionSpecV {
                num_partitions,
                scheme,
                partition_by: exprs_view(partition_by@),
            }),
    {
        PartitionSpec { num_partitions, scheme, partition_by }
    }

    /// A structurally equal copy.
    pub fn duplicate(&self) -> (r: PartitionSpec)
        ensures
            r@ == self@,
    {
        PartitionSpec {
            num_partitions: self.num_partitions,
            scheme: self.scheme,
            partition_by: duplicate_exprs(&self.partition_by),
        }
    }
}

/// On-disk source format of an external scan.
#[derive(Debug, Clone, Copy, PartialEq, Eq, Structural)]
pub enum FileFormatConfig {
    Parquet,
    Csv,
    Json,
}

/// Ghost mirror of an `ExternalInfo`.
#[verifier::ext_equal]
pub struct ExternalInfoV {
    pub file_paths: Seq<Seq<char>>,
    pub file_format_config: FileFormatConfig,
}

/// Description of an external (on-disk) data source.
#[derive(Debug)]
pub struct ExternalInfo {
    pub file_paths: Vec<String>,
    pub file_format_config: FileFormatConfig,
}

impl View for ExternalInfo {
    type V = ExternalInfoV;

    open spec fn view(&self) -> ExternalInfoV {
        ExternalInfoV {
            file_paths: self.file_paths@.map(|i: int, s: String| s@),
            file_format_config: self.file_format_config,
        }
    }
}

impl ExternalInfo {
    /// A structurally equal copy.
    pub fn duplicate(&self) -> (r: ExternalInfo)
        ensures
            r@ == self@,
    {
        let n = self.file_paths.len();
        let mut paths: Vec<String> = Vec::new();
        let mut i: usize = 0;
        while i < n
            invariant
                n == self.file_paths@.len(),
                i <= n,
                paths@.len() == i,
                forall|j: int| 0 <= j < i ==> #[trigger] paths@[j]@ == self.file_paths@[j]@,
            decreases n - i,
        {
            paths.push(self.file_paths[i].clone());
            i = i + 1;
        }
        let r = ExternalInfo { file_paths: paths, file_format_config: self.file_format_config };
        proof {
            assert(r@.file_paths =~= self@.file_paths);
            assert(r@ =~= self@);
        }
        r
    }
}

/// Ghost mirror of an `InMemoryInfo`.
#[verifier::ext_equal]
pub struct InMemoryInfoV {
    pub cache_key: Seq<char>,
}

/// Handle to an in-memory data source.
#[derive(Debug)]
pub struct InMemoryInfo {
    pub cache_key: String,
}

impl View for InMemoryInfo {
    type V = InMemoryInfoV;

    open spec fn view(&self) -> InMemoryInfoV {
        InMemoryInfoV { cache_key: self.cache_key@ }
    }
}

/// Ghost mirror of a `SourceInfo`.
pub enum SourceInfoV {
    External(ExternalInfoV),
    InMemory(InMemoryInfoV),
}

/// Where a scan's rows come from.
#[derive(Debug)]
pub enum SourceInfo {
    External(ExternalInfo),
    InMemory(InMemoryInfo),
}

impl View for SourceInfo {
    type V = SourceInfoV;

    open spec fn view(&self) -> SourceInfoV {
        match self {
            SourceInfo::External(info) => SourceInfoV::External(info@),
            SourceInfo::InMemory(info) => SourceInfoV::InMemory(info@),
        }
    }
}

impl SourceInfo {
    /// A structurally equal copy.
    pub fn duplicate(&self) -> (r: SourceInfo)
        ensures
            r@ == self@,
    {
        match self {
            SourceInfo::External(info) => SourceInfo::External(info.duplicate()),
            SourceInfo::InMemory(info) => SourceInfo::InMemory(
                InMemoryInfo { cache_key: info.cache_key.clone() },
            ),
        }
    }
}

/// Ghost mirror of a `LogicalPlan`.
pub enum LogicalPlanV {
    Source {
        schema: SchemaV,
        source_info: SourceInfoV,
        partition_spec: PartitionSpecV,
        limit: Option<u64>,
        filters: Seq<ExprV>,
    },
    Filter { input: Box<LogicalPlanV>, predicate: ExprV },
    Limit { input: Box<LogicalPlanV>, limit: u64 },
    Sort { input: Box<LogicalPlanV>, sort_by: Seq<ExprV>, descending: Seq<bool> },
    Repartition {
        input: Box<LogicalPlanV>,
        num_partitions: u32,
        partition_by: Seq<ExprV>,
        scheme: PartitionScheme,
    },
    Distinct { input: Box<LogicalPlanV> },
    Aggregate { input: Box<LogicalPlanV>, aggregations: Seq<AggExprV>, group_by: Seq<ExprV> },
}

/// A declarative tree of relational operations; leaves are scans.
#[derive(Debug)]
pub enum LogicalPlan {
    Source {
        schema: Schema,
        source_info: SourceInfo,
        partition_spec: PartitionSpec,
        limit: Option<u64>,
        filters: Vec<Expr>,
    },
    Filter { input: Box<LogicalPlan>, predicate: Expr },
    Limit { input: Box<LogicalPlan>, limit: u64 },
    Sort { input: Box<LogicalPlan>, sort_by: Vec<Expr>, descending: Vec<bool> },
    Repartition {
        input: Box<LogicalPlan>,
        num_partitions: u32,
        partition_by: Vec<Expr>,
        scheme: PartitionScheme,
    },
    Distinct { input: Box<LogicalPlan> },
    Aggregate { input: Box<LogicalPlan>, aggregations: Vec<AggExpr>, group_by: Vec<Expr> },
}

/// Recursive view of a logical plan.
pub open spec fn lp_view(l: LogicalPlan) -> LogicalPlanV
    decreases l,
{
    match l {
        LogicalPlan::Source { schema, source_info, partition_spec, limit, filters } => {
            LogicalPlanV::Source {
                schema: schema@,
                source_info: source_info@,
                partition_spec: partition_spec@,
                limit,
                filters: exprs_view(filters@),
            }
        },
        LogicalPlan::Filter { input, predicate } => LogicalPlanV::Filter {
            input: Box::new(lp_view(*input)),
            predicate: predicate@,
        },
        LogicalPlan::Limit { input, limit } => LogicalPlanV::Limit {
            input: Box::new(lp_view(*input)),
            limit,
        },
        LogicalPlan::Sort { input, sort_by, descending } => LogicalPlanV::Sort {
            input: Box::new(lp_view(*input)),
            sort_by: exprs_view(sort_by@),
            descending: descending@,
        },
        LogicalPlan::Repartition { input, num_partitions, partition_by, scheme } => {
            LogicalPlanV::Repartition {
                input: Box::new(lp_view(*input)),
                num_partitions,
                partition_by: exprs_view(partition_by@),
                scheme,
            }
        },
        LogicalPlan::Distinct { input } => LogicalPlanV::Distinct {
            input: Box::new(lp_view(*input)),
        },
        LogicalPlan::Aggregate { input, aggregations, group_by } => LogicalPlanV::Aggregate {
            input: Box::new(lp_view(*input)),
            aggregations: aggs_view(aggregations@),
            group_by: exprs_view(group_by@),
        },
    }
}

impl View for LogicalPlan {
    type V = LogicalPlanV;

    open spec fn view(&self) -> LogicalPlanV {
        lp_view(*self)
    }
}

/// The partition specification that holds of a node's output. Filters,
/// limits, distincts and aggregates keep their input's specification (for
/// an aggregate this means the planner reads the count of its input's
/// partitions off the aggregate node itself); a sort emits its input's
/// count range-partitioned by the sort keys; a repartition emits what it
/// was asked for.
pub open spec fn lp_partition_spec(l: LogicalPlanV) -> PartitionSpecV
    decreases l,
{
    match l {
        LogicalPlanV::Source { partition_spec, .. } => partition_spec,
        LogicalPlanV::Filter { input, .. } => lp_partition_spec(*input),
        LogicalPlanV::Limit { input, .. } => lp_partition_spec(*input),
        LogicalPlanV::Sort { input, sort_by, .. } => PartitionSpecV {
            num_partitions: lp_partition_spec(*input).num_partitions,
            scheme: PartitionScheme::Range,
            partition_by: sort_by,
        },
        LogicalPlanV::Repartition { num_partitions, partition_by, scheme, .. } => {
            PartitionSpecV { num_partitions, scheme, partition_by }
        },
        LogicalPlanV::Distinct { input } => lp_partition_spec(*input),
        LogicalPlanV::Aggregate { input, .. } => lp_partition_spec(*input),
    }
}

/// Output fields of a list of aggregations, first failure first.
pub open spec fn agg_fields(aggs: Seq<AggExprV>, s: SchemaV) -> Result<Seq<FieldV>, ErrorV>
    decreases aggs.len(),
{
    if aggs.len() == 0 {
        Ok(Seq::empty())
    } else {
        match agg_field(aggs[0], s) {
            Err(e) => Err(e),
            Ok(f) => match agg_fields(aggs.drop_first(), s) {
                Err(e) => Err(e),
                Ok(rest) => Ok(seq![f] + rest),
            },
        }
    }
}

/// Output fields of a list of expressions, first failure first.
pub open spec fn expr_fields(es: Seq<ExprV>, s: SchemaV) -> Result<Seq<FieldV>, ErrorV>
    decreases es.len(),
{
    if es.len() == 0 {
        Ok(Seq::empty())
    } else {
        match expr_field(es[0], s) {
            Err(e) => Err(e),
            Ok(f) => match expr_fields(es.drop_first(), s) {
                Err(e) => Err(e),
                Ok(rest) => Ok(seq![f] + rest),
            },
        }
    }
}

/// The schema of a node's output. Every variant but `Aggregate` keeps its
/// input's schema; an aggregate's output holds the group-by fields
/// followed by the aggregations' output fields, and resolution errors
/// surface here.
pub open spec fn lp_schema(l: LogicalPlanV) -> Result<SchemaV, ErrorV>
    decreases l,
{
    match l {
        LogicalPlanV::Source { schema, .. } => Ok(schema),
        LogicalPlanV::Filter { input, .. } => lp_schema(*input),
        LogicalPlanV::Limit { input, .. } => lp_schema(*input),
        LogicalPlanV::Sort { input, .. } => lp_schema(*input),
        LogicalPlanV::Repartition { input, .. } => lp_schema(*input),
        LogicalPlanV::Distinct { input } => lp_schema(*input),
        LogicalPlanV::Aggregate { input, aggregations, group_by } => match lp_schema(*input) {
            Err(e) => Err(e),
            Ok(s) => match expr_fields(group_by, s) {
                Err(e) => Err(e),
                Ok(gfields) => match agg_fields(aggregations, s) {
                    Err(e) => Err(e),
                    Ok(afields) => Ok(SchemaV { fields: gfields + afields }),
                },
            },
        },
    }
}

/// Resolves the fields of `es[from..]`, first failure first.
fn expr_fields_from(es: &Vec<Expr>, from: usize, schema: &Schema) -> (r: Result<Vec<Field>, Error>)
    requires
        from <= es@.len(),
    ensures
        match expr_fields(exprs_view(es@).skip(from as int), schema@) {
            Ok(fvs) => r matches Ok(fs) && fs@.map(|k: int, f: Field| f@) == fvs,
            Err(ev) => r matches Err(e) && e@ == ev,
        },
    decreases es@.len() - from,
{
    proof {
        lemma_exprs_view(es@);
    }
    let ghost tail = exprs_view(es@).skip(from as int);
    if from == es.len() {
        let out: Vec<Field> = Vec::new();
        proof {
            assert(tail =~= Seq::<ExprV>::empty());
            assert(out@.map(|k: int, f: Field| f@) =~= Seq::<FieldV>::empty());
        }
        return Ok(out);
    }
    proof {
        assert(tail[0] == exprs_view(es@)[from as int]);
        assert(tail.drop_first() =~= exprs_view(es@).skip(from as int + 1));
    }
    let f = match es[from].to_field(schema) {
        Ok(f) => f,
        Err(e) => {
            return Err(e);
        },
    };
    let mut rest = match expr_fields_from(es, from + 1, schema) {
        Ok(fs) => fs,
        Err(e) => {
            return Err(e);
        },
    };
    let ghost fv = f@;
    let ghost restseq = rest@.map(|k: int, g: Field| g@);
    let mut out: Vec<Field> = Vec::new();
    out.push(f);
    out.append(&mut rest);
    proof {
        assert(out@.map(|k: int, g: Field| g@) =~= seq![fv] + restseq);
    }
    Ok(out)
}

/// Resolves the output fields of `aggs[from..]`, first failure first.
fn agg_fields_from(aggs: &Vec<AggExpr>, from: usize, schema: &Schema) -> (r: Result<
    Vec<Field>,
    Error,
>)
    requires
        from <= aggs@.len(),
    ensures
        match agg_fields(aggs_view(aggs@).skip(from as int), schema@) {
            Ok(fvs) => r matches Ok(fs) && fs@.map(|k: int, f: Field| f@) == fvs,
            Err(ev) => r matches Err(e) && e@ == ev,
        },
    decreases aggs@.len() - from,
{
    let ghost tail = aggs_view(aggs@).skip(from as int);
    if from == aggs.len() {
        let out: Vec<Field> = Vec::new();
        proof {
            assert(tail =~= Seq::<AggExprV>::empty());
            assert(out@.map(|k: int, f: Field| f@) =~= Seq::<FieldV>::empty());
        }
        return Ok(out);
    }
    proof {
        assert(tail[0] == aggs_view(aggs@)[from as int]);
        assert(tail.drop_first() =~= aggs_view(aggs@).skip(from as int + 1));
    }
    let f = match aggs[from].to_field(schema) {
        Ok(f) => f,
        Err(e) => {
            return Err(e);
        },
    };
    let mut rest = match agg_fields_from(aggs, from + 1, schema) {
        Ok(fs) => fs,
        Err(e) => {
            return Err(e);
        },
    };
    let ghost fv = f@;
    let ghost restseq = rest@.map(|k: int, g: Field| g@);
    let mut out: Vec<Field> = Vec::new();
    out.push(f);
    out.append(&mut rest);
    proof {
        assert(out@.map(|k: int, g: Field| g@) =~= seq![fv] + restseq);
    }
    Ok(out)
}

impl LogicalPlan {
    /// The partition specification of this node's output.
    pub fn partition_spec(&self) -> (r: PartitionSpec)
        ensures
            r@ == lp_partition_spec(self@),
        decreases *self,
    {
        match self {
            LogicalPlan::Source { partition_spec, .. } => partition_spec.duplicate(),
            LogicalPlan::Filter { input, .. } => input.partition_spec(),
            LogicalPlan::Limit { input, .. } => input.partition_spec(),
            LogicalPlan::Sort { input, sort_by, .. } => {
                let inner = input.partition_spec();
                PartitionSpec {
                    num_partitions: inner.num_partitions,
                    scheme: PartitionScheme::Range,
                    partition_by: duplicate_exprs(sort_by),
                }
            },
            LogicalPlan::Repartition { num_partitions, partition_by, scheme, .. } => {
                PartitionSpec {
                    num_partitions: *num_partitions,
                    scheme: *scheme,
                    partition_by: duplicate_exprs(partition_by),
                }
            },
            LogicalPlan::Distinct { input } => input.partition_spec(),
            LogicalPlan::Aggregate { input, .. } => input.partition_spec(),
        }
    }

    /// The schema of this node's output.
    pub fn schema(&self) -> (r: Result<Schema, Error>)
        ensures
            match lp_schema(self@) {
                Ok(sv) => r matches Ok(s) && s@ == sv,
                Err(ev) => r matches Err(e) && e@ == ev,
            },
        decreases *self,
    {
        match self {
            LogicalPlan::Source { schema, .. } => Ok(schema.duplicate()),
            LogicalPlan::Filter { input, .. } => input.schema(),
            LogicalPlan::Limit { input, .. } => input.schema(),
            LogicalPlan::Sort { input, .. } => input.schema(),
            LogicalPlan::Repartition { input, .. } => input.schema(),
            LogicalPlan::Distinct { input } => input.schema(),
            LogicalPlan::Aggregate { input, aggregations, group_by } => {
                let s = match input.schema() {
                    Ok(s) => s,
                    Err(e) => {
                        return Err(e);
                    },
                };
                proof {
                    assert(exprs_view(group_by@).skip(0) =~= exprs_view(group_by@));
                    assert(aggs_view(aggregations@).skip(0) =~= aggs_view(aggregations@));
                }
                let mut gfields = match expr_fields_from(group_by, 0, &s) {
                    Ok(fs) => fs,
                    Err(e) => {
                        return Err(e);
                    },
                };
                let mut afields = match agg_fields_from(aggregations, 0, &s) {
                    Ok(fs) => fs,
                    Err(e) => {
                        return Err(e);
                    },
                };
                let ghost gseq = gfields@.map(|k: int, f: Field| f@);
                let ghost aseq = afields@.map(|k: int, f: Field| f@);
                gfields.append(&mut afields);
                let r = Schema { fields: gfields };
                proof {
                    assert(r@.fields =~= gseq + aseq);
                }
                Ok(r)
            },
        }
    }
}

} // verus!
