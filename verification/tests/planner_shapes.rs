use daft_core::dtype::Dtype;
use daft_core::error::{Error, Feature};
use daft_core::expr::{AggExpr, AggOp, Expr, Field, Schema};
use daft_core::logical::{
    ExternalInfo, FileFormatConfig, LogicalPlan, PartitionScheme, PartitionSpec, SourceInfo,
};
use daft_core::physical::PhysicalPlan;
use daft_core::planner::plan;

fn col(name: &str) -> Expr {
    Expr::Column(name.to_string())
}

fn parquet_source(fields: Vec<Field>, num_partitions: u32) -> LogicalPlan {
    LogicalPlan::Source {
        schema: Schema::new(fields),
        source_info: SourceInfo::External(ExternalInfo {
            file_paths: vec!["part-0.parquet".to_string()],
            file_format_config: FileFormatConfig::Parquet,
        }),
        partition_spec: PartitionSpec {
            num_partitions,
            scheme: PartitionScheme::Unknown,
            partition_by: Vec::new(),
        },
        limit: None,
        filters: Vec::new(),
    }
}

#[test]
fn source_becomes_parquet_scan() {
    let logical = parquet_source(vec![Field::new("k".to_string(), Dtype::Int64)], 1);
    let physical = plan(&logical).unwrap();
    match physical {
        PhysicalPlan::TabularScanParquet { schema, partition_spec, .. } => {
            assert_eq!(schema.len(), 1);
            assert_eq!(partition_spec.num_partitions, 1);
        }
        other => panic!("expected a parquet scan, got {:?}", other),
    }
}

#[test]
fn repartition_by_hash_pairs_fanout_with_reduce_merge() {
    let logical = LogicalPlan::Repartition {
        input: Box::new(parquet_source(
            vec![Field::new("k".to_string(), Dtype::Int64)],
            1,
        )),
        num_partitions: 4,
        partition_by: vec![col("k")],
        scheme: PartitionScheme::Hash,
    };
    let physical = plan(&logical).unwrap();
    match physical {
        PhysicalPlan::ReduceMerge { input } => match *input {
            PhysicalPlan::FanoutByHash { num_partitions, partition_by, input } => {
                assert_eq!(num_partitions, 4);
                assert_eq!(partition_by.len(), 1);
                assert!(matches!(partition_by[0], Expr::Column(ref n) if n.as_str() == "k"));
                assert!(matches!(*input, PhysicalPlan::TabularScanParquet { .. }));
            }
            other => panic!("expected a hash fanout, got {:?}", other),
        },
        other => panic!("expected a reduce-merge, got {:?}", other),
    }
}

#[test]
fn repartition_random_and_split() {
    let random = LogicalPlan::Repartition {
        input: Box::new(parquet_source(
            vec![Field::new("k".to_string(), Dtype::Int64)],
            2,
        )),
        num_partitions: 3,
        partition_by: Vec::new(),
        scheme: PartitionScheme::Random,
    };
    match plan(&random).unwrap() {
        PhysicalPlan::ReduceMerge { input } => {
            assert!(matches!(*input, PhysicalPlan::FanoutRandom { num_partitions: 3, .. }));
        }
        other => panic!("expected a reduce-merge, got {:?}", other),
    }
    let split = LogicalPlan::Repartition {
        input: Box::new(parquet_source(
            vec![Field::new("k".to_string(), Dtype::Int64)],
            2,
        )),
        num_partitions: 5,
        partition_by: Vec::new(),
        scheme: PartitionScheme::Unknown,
    };
    assert!(matches!(
        plan(&split).unwrap(),
        PhysicalPlan::Split { input_num_partitions: 2, output_num_partitions: 5, .. }
    ));
}

#[test]
fn repartition_by_range_is_rejected() {
    let logical = LogicalPlan::Repartition {
        input: Box::new(parquet_source(
            vec![Field::new("k".to_string(), Dtype::Int64)],
            1,
        )),
        num_partitions: 4,
        partition_by: vec![col("k")],
        scheme: PartitionScheme::Range,
    };
    match plan(&logical).unwrap_err() {
        Error::NotImplemented(Feature::RangeRepartition) => {}
        other => panic!("expected range repartition to be rejected, got {:?}", other),
    }
}

#[test]
fn distinct_on_four_partitions_is_two_stage() {
    let fields = vec![
        Field::new("a".to_string(), Dtype::Int64),
        Field::new("b".to_string(), Dtype::Utf8),
    ];
    let logical = LogicalPlan::Distinct {
        input: Box::new(parquet_source(fields, 4)),
    };
    let physical = plan(&logical).unwrap();
    match physical {
        PhysicalPlan::Aggregate { input, aggregations, group_by } => {
            assert!(aggregations.is_empty());
            assert_eq!(group_by.len(), 2);
            assert!(matches!(group_by[0], Expr::Column(ref n) if n.as_str() == "a"));
            assert!(matches!(group_by[1], Expr::Column(ref n) if n.as_str() == "b"));
            match *input {
                PhysicalPlan::ReduceMerge { input } => match *input {
                    PhysicalPlan::FanoutByHash { num_partitions, partition_by, input } => {
                        assert_eq!(num_partitions, 4);
                        assert_eq!(partition_by.len(), 2);
                        match *input {
                            PhysicalPlan::Aggregate { aggregations, group_by, input } => {
                                assert!(aggregations.is_empty());
                                assert_eq!(group_by.len(), 2);
                                assert!(matches!(*input, PhysicalPlan::TabularScanParquet { .. }));
                            }
                            other => panic!("expected a partial aggregate, got {:?}", other),
                        }
                    }
                    other => panic!("expected a hash fanout, got {:?}", other),
                },
                other => panic!("expected a reduce-merge, got {:?}", other),
            }
        }
        other => panic!("expected a final aggregate, got {:?}", other),
    }
}

#[test]
fn distinct_on_one_partition_is_single_stage() {
    let logical = LogicalPlan::Distinct {
        input: Box::new(parquet_source(
            vec![Field::new("a".to_string(), Dtype::Int64)],
            1,
        )),
    };
    match plan(&logical).unwrap() {
        PhysicalPlan::Aggregate { input, aggregations, group_by } => {
            assert!(aggregations.is_empty());
            assert_eq!(group_by.len(), 1);
            assert!(matches!(*input, PhysicalPlan::TabularScanParquet { .. }));
        }
        other => panic!("expected a single aggregate, got {:?}", other),
    }
}

#[test]
fn global_sum_over_three_partitions_is_two_stage() {
    let logical = LogicalPlan::Aggregate {
        input: Box::new(parquet_source(
            vec![Field::new("x".to_string(), Dtype::Int64)],
            3,
        )),
        aggregations: vec![AggExpr { op: AggOp::Sum, child: col("x") }],
        group_by: Vec::new(),
    };
    let physical = plan(&logical).unwrap();
    match physical {
        PhysicalPlan::Aggregate { input, aggregations, group_by } => {
            assert!(group_by.is_empty());
            assert_eq!(aggregations.len(), 1);
            // Second stage: Sum over the intermediate column, aliased back
            // to the original output name.
            assert_eq!(aggregations[0].op, AggOp::Sum);
            match &aggregations[0].child {
                Expr::Alias(inner, name) => {
                    assert_eq!(name.as_str(), "x");
                    assert!(
                        matches!(**inner, Expr::Column(ref id) if id.as_str() == "col(x).sum()")
                    );
                }
                other => panic!("expected an aliased column reference, got {:?}", other),
            }
            match *input {
                PhysicalPlan::Coalesce { input, num_from, num_to } => {
                    assert_eq!(num_from, 3);
                    assert_eq!(num_to, 1);
                    match *input {
                        PhysicalPlan::Aggregate { input, aggregations, group_by } => {
                            assert!(group_by.is_empty());
                            assert_eq!(aggregations.len(), 1);
                            // First stage: the original Sum aliased to the
                            // stable intermediate identifier.
                            assert_eq!(aggregations[0].op, AggOp::Sum);
                            match &aggregations[0].child {
                                Expr::Alias(inner, name) => {
                                    assert_eq!(name.as_str(), "col(x).sum()");
                                    assert!(
                                        matches!(**inner, Expr::Column(ref n) if n.as_str() == "x")
                                    );
                                }
                                other => panic!(
                                    "expected an aliased inner expression, got {:?}",
                                    other
                                ),
                            }
                            assert!(matches!(*input, PhysicalPlan::TabularScanParquet { .. }));
                        }
                        other => panic!("expected the first-stage aggregate, got {:?}", other),
                    }
                }
                other => panic!("expected a coalesce to one partition, got {:?}", other),
            }
        }
        other => panic!("expected the second-stage aggregate, got {:?}", other),
    }
}

#[test]
fn single_partition_aggregate_is_single_stage() {
    let logical = LogicalPlan::Aggregate {
        input: Box::new(parquet_source(
            vec![Field::new("x".to_string(), Dtype::Int64)],
            1,
        )),
        aggregations: vec![AggExpr { op: AggOp::Sum, child: col("x") }],
        group_by: Vec::new(),
    };
    match plan(&logical).unwrap() {
        PhysicalPlan::Aggregate { input, aggregations, group_by } => {
            assert!(group_by.is_empty());
            assert_eq!(aggregations.len(), 1);
            assert!(matches!(aggregations[0].child, Expr::Column(ref n) if n.as_str() == "x"));
            assert!(matches!(*input, PhysicalPlan::TabularScanParquet { .. }));
        }
        other => panic!("expected a single aggregate, got {:?}", other),
    }
}

#[test]
fn grouped_aggregate_is_rejected() {
    let logical = LogicalPlan::Aggregate {
        input: Box::new(parquet_source(
            vec![Field::new("x".to_string(), Dtype::Int64)],
            1,
        )),
        aggregations: vec![AggExpr { op: AggOp::Sum, child: col("x") }],
        group_by: vec![col("x")],
    };
    match plan(&logical).unwrap_err() {
        Error::NotImplemented(Feature::GroupedAggregate) => {}
        other => panic!("expected grouped aggregation to be rejected, got {:?}", other),
    }
}

#[test]
fn multi_partition_count_and_mean_are_rejected() {
    for (op, feature) in [
        (AggOp::Count, Feature::MultiPartitionCount),
        (AggOp::Mean, Feature::MultiPartitionMean),
    ] {
        let logical = LogicalPlan::Aggregate {
            input: Box::new(parquet_source(
                vec![Field::new("x".to_string(), Dtype::Int64)],
                2,
            )),
            aggregations: vec![AggExpr { op, child: col("x") }],
            group_by: Vec::new(),
        };
        match plan(&logical).unwrap_err() {
            Error::NotImplemented(got) => assert_eq!(got, feature),
            other => panic!("expected a rejection, got {:?}", other),
        }
    }
}

#[test]
fn filter_limit_sort_wrap_their_input() {
    let base = parquet_source(vec![Field::new("x".to_string(), Dtype::Int64)], 2);
    let logical = LogicalPlan::Sort {
        input: Box::new(LogicalPlan::Limit {
            input: Box::new(LogicalPlan::Filter {
                input: Box::new(base),
                predicate: col("x"),
            }),
            limit: 10,
        }),
        sort_by: vec![col("x")],
        descending: vec![false],
    };
    match plan(&logical).unwrap() {
        PhysicalPlan::Sort { num_partitions, descending, input, .. } => {
            assert_eq!(num_partitions, 2);
            assert_eq!(descending, vec![false]);
            match *input {
                PhysicalPlan::Limit { limit, num_partitions, input } => {
                    assert_eq!(limit, 10);
                    assert_eq!(num_partitions, 2);
                    assert!(matches!(*input, PhysicalPlan::Filter { .. }));
                }
                other => panic!("expected a limit, got {:?}", other),
            }
        }
        other => panic!("expected a sort, got {:?}", other),
    }
}

#[test]
fn csv_json_and_in_memory_scans() {
    let mk = |fmt: FileFormatConfig| LogicalPlan::Source {
        schema: Schema::new(vec![Field::new("x".to_string(), Dtype::Int64)]),
        source_info: SourceInfo::External(ExternalInfo {
            file_paths: vec!["data".to_string()],
            file_format_config: fmt,
        }),
        partition_spec: PartitionSpec {
            num_partitions: 1,
            scheme: PartitionScheme::Unknown,
            partition_by: Vec::new(),
        },
        limit: None,
        filters: Vec::new(),
    };
    assert!(matches!(
        plan(&mk(FileFormatConfig::Csv)).unwrap(),
        PhysicalPlan::TabularScanCsv { .. }
    ));
    assert!(matches!(
        plan(&mk(FileFormatConfig::Json)).unwrap(),
        PhysicalPlan::TabularScanJson { .. }
    ));
    let mem = LogicalPlan::Source {
        schema: Schema::new(vec![Field::new("x".to_string(), Dtype::Int64)]),
        source_info: SourceInfo::InMemory(daft_core::logical::InMemoryInfo {
            cache_key: "cached".to_string(),
        }),
        partition_spec: PartitionSpec {
            num_partitions: 1,
            scheme: PartitionScheme::Unknown,
            partition_by: Vec::new(),
        },
        limit: None,
        filters: Vec::new(),
    };
    assert!(matches!(plan(&mem).unwrap(), PhysicalPlan::InMemoryScan { .. }));
}
