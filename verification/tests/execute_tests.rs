use plan_bridge::bridge::Bridge;
use plan_bridge::codec::encode_plan;
use plan_bridge::executor::{df_from_ipc, df_to_ipc, execute_plan_df};
use plan_bridge::plan::{ExprIr, LitValue, Node, Plan};
use plan_bridge::table::{
    table_column_bool, table_column_i64, table_column_names, table_column_str, table_equals,
    table_equals_missing, table_from_columns, table_height, ColumnData, ColumnDef,
};

fn col(name: &str) -> ExprIr {
    ExprIr::Col { name: name.to_string() }
}

fn some(e: ExprIr) -> Option<Box<ExprIr>> {
    Some(Box::new(e))
}

fn lit_i(v: i64) -> ExprIr {
    ExprIr::Lit { value: Some(LitValue::IntVal(v)) }
}

fn scan() -> Option<Box<Node>> {
    Some(Box::new(Node::MemoryScan { column_names: vec![] }))
}

fn plan(root: Node) -> Plan {
    Plan { plan_version: 1, root: Some(root) }
}

fn int_col(name: &str, vals: &[i64]) -> ColumnDef {
    ColumnDef {
        name: name.to_string(),
        data: ColumnData::Int64(vals.iter().map(|v| Some(*v)).collect()),
    }
}

fn str_col(name: &str, vals: &[&str]) -> ColumnDef {
    ColumnDef {
        name: name.to_string(),
        data: ColumnData::Str(vals.iter().map(|v| Some(v.to_string())).collect()),
    }
}

fn seed_ab() -> polars::prelude::DataFrame {
    table_from_columns(&vec![int_col("a", &[1, 2, 3]), int_col("b", &[4, 5, 6])]).expect("seed")
}

/// Runs a plan over a seed through the handle registry and returns the
/// status plus (on success) the result table.
fn run(
    p: &Plan,
    seed: Option<polars::prelude::DataFrame>,
) -> (i32, Option<polars::prelude::DataFrame>, Option<String>) {
    let mut b = Bridge::new();
    let (st, ph) = b.compile(&encode_plan(p));
    assert_eq!(st, 0, "compile must succeed");
    let seed_handle = match seed {
        Some(df) => b.register_table(df),
        None => 0,
    };
    let (st, th) = b.execute_to_table(ph, seed_handle);
    if st == 0 {
        let df = b.get_table(th).expect("result table").clone();
        (st, Some(df), None)
    } else {
        (st, None, b.last_error().cloned())
    }
}

#[test]
fn project_keeps_exactly_the_selected_column() {
    let p = plan(Node::Project { input: scan(), expressions: vec![col("a")] });
    let (st, df, _) = run(&p, Some(seed_ab()));
    assert_eq!(st, 0);
    let df = df.unwrap();
    assert_eq!(table_column_names(&df), vec!["a"]);
    assert_eq!(table_height(&df), 3);
    assert_eq!(table_column_i64(&df, "a").unwrap(), vec![Some(1), Some(2), Some(3)]);
}

#[test]
fn filter_keeps_rows_where_predicate_is_true_in_order() {
    let seed = table_from_columns(&vec![int_col("a", &[-1, 0, 1, 2])]).unwrap();
    let p = plan(Node::Filter {
        input: scan(),
        predicate: some(ExprIr::Binary { op: 11, left: some(col("a")), right: some(lit_i(0)) }),
    });
    let (st, df, _) = run(&p, Some(seed));
    assert_eq!(st, 0);
    assert_eq!(table_column_i64(&df.unwrap(), "a").unwrap(), vec![Some(1), Some(2)]);
}

#[test]
fn limit_truncates_to_the_first_rows() {
    let seed = table_from_columns(&vec![int_col("a", &[10, 20, 30, 40, 50])]).unwrap();
    let p = plan(Node::Limit { input: scan(), n: 2 });
    let (st, df, _) = run(&p, Some(seed));
    assert_eq!(st, 0);
    assert_eq!(table_column_i64(&df.unwrap(), "a").unwrap(), vec![Some(10), Some(20)]);
}

#[test]
fn limit_beyond_row_count_keeps_all_rows() {
    let seed = table_from_columns(&vec![int_col("a", &[10, 20, 30, 40, 50])]).unwrap();
    let p = plan(Node::Limit { input: scan(), n: 99 });
    let (st, df, _) = run(&p, Some(seed));
    assert_eq!(st, 0);
    assert_eq!(table_height(&df.unwrap()), 5);
}

#[test]
fn strict_cast_of_non_numeric_string_fails_with_execution() {
    let seed = table_from_columns(&vec![str_col("s", &["1", "x", "3"])]).unwrap();
    let p = plan(Node::Project {
        input: scan(),
        expressions: vec![ExprIr::Cast { expr: some(col("s")), data_type: 1, strict: true }],
    });
    let (st, _, err) = run(&p, Some(seed));
    assert_eq!(st, 9);
    assert!(err.unwrap().starts_with("[ERR_EXECUTION]"));
}

#[test]
fn non_strict_cast_of_non_numeric_string_yields_null() {
    let seed = table_from_columns(&vec![str_col("s", &["1", "x", "3"])]).unwrap();
    let p = plan(Node::Project {
        input: scan(),
        expressions: vec![ExprIr::Cast { expr: some(col("s")), data_type: 1, strict: false }],
    });
    let (st, df, _) = run(&p, Some(seed));
    assert_eq!(st, 0);
    assert_eq!(table_column_i64(&df.unwrap(), "s").unwrap(), vec![Some(1), None, Some(3)]);
}

#[test]
fn ipc_round_trip_preserves_a_table_exactly() {
    let df = seed_ab();
    let bytes = df_to_ipc(&df).expect("serialize");
    let back = df_from_ipc(&bytes).expect("deserialize");
    assert!(table_equals(&df, &back));
}

#[test]
fn execute_to_serialized_round_trips() {
    let p = plan(Node::Limit {
        input: Some(Box::new(Node::Project { input: scan(), expressions: vec![col("b")] })),
        n: 2,
    });
    let mut b = Bridge::new();
    let (st, ph) = b.compile(&encode_plan(&p));
    assert_eq!(st, 0);
    let _seed = b.register_table(seed_ab());
    // the serialized path takes no seed, so use a flawless seedless plan:
    // executing the memory-scan plan without a seed must fail cleanly
    let (st2, bytes) = b.execute_to_serialized(ph);
    assert_eq!(st2, 10, "memory scan without a seed is unsupported");
    assert!(bytes.is_empty());
    assert_eq!(
        b.last_error().unwrap(),
        "[ERR_UNSUPPORTED] MemoryScan requires input DataFrame"
    );
}

#[test]
fn pad_start_with_empty_fill_char_is_invalid_argument() {
    let seed = table_from_columns(&vec![str_col("s", &["a", "bb"])]).unwrap();
    let p = plan(Node::Project {
        input: scan(),
        expressions: vec![ExprIr::StrPadStart {
            expr: some(col("s")),
            length: 4,
            fill_char: "".to_string(),
        }],
    });
    let (st, _, err) = run(&p, Some(seed));
    assert_eq!(st, 2);
    assert_eq!(err.unwrap(), "[ERR_INVALID_ARGUMENT] StrPadStart fill_char cannot be empty");
}

#[test]
fn pad_start_with_two_fill_chars_is_invalid_argument() {
    let seed = table_from_columns(&vec![str_col("s", &["a", "bb"])]).unwrap();
    let p = plan(Node::Project {
        input: scan(),
        expressions: vec![ExprIr::StrPadStart {
            expr: some(col("s")),
            length: 4,
            fill_char: "ab".to_string(),
        }],
    });
    let (st, _, err) = run(&p, Some(seed));
    assert_eq!(st, 2);
    assert_eq!(
        err.unwrap(),
        "[ERR_INVALID_ARGUMENT] StrPadStart fill_char must be a single character"
    );
}

#[test]
fn pad_start_with_single_fill_char_succeeds() {
    let seed = table_from_columns(&vec![str_col("s", &["a", "bb"])]).unwrap();
    let p = plan(Node::Project {
        input: scan(),
        expressions: vec![ExprIr::StrPadStart {
            expr: some(col("s")),
            length: 4,
            fill_char: "*".to_string(),
        }],
    });
    let (st, df, _) = run(&p, Some(seed));
    assert_eq!(st, 0);
    assert_eq!(
        table_column_str(&df.unwrap(), "s").unwrap(),
        vec![Some("***a".to_string()), Some("**bb".to_string())]
    );
}

#[test]
fn parquet_scan_always_fails_unsupported() {
    let p = plan(Node::ParquetScan { path: "x.parquet".to_string() });
    let (st, _, err) = run(&p, None);
    assert_eq!(st, 10);
    assert_eq!(err.unwrap(), "[ERR_UNSUPPORTED] ParquetScan not yet implemented");
}

#[test]
fn nested_parquet_scan_also_fails_unsupported() {
    let p = plan(Node::Limit {
        input: Some(Box::new(Node::ParquetScan { path: "x.parquet".to_string() })),
        n: 1,
    });
    let (st, _, err) = run(&p, None);
    assert_eq!(st, 10);
    assert_eq!(err.unwrap(), "[ERR_UNSUPPORTED] ParquetScan not yet implemented");
}

#[test]
fn memory_scan_without_seed_is_unsupported() {
    let p = plan(Node::MemoryScan { column_names: vec![] });
    let (st, _, err) = run(&p, None);
    assert_eq!(st, 10);
    assert_eq!(err.unwrap(), "[ERR_UNSUPPORTED] MemoryScan requires input DataFrame");
}

#[test]
fn memory_scan_projects_named_columns_in_order() {
    let p = plan(Node::MemoryScan { column_names: vec!["b".to_string(), "a".to_string()] });
    let (st, df, _) = run(&p, Some(seed_ab()));
    assert_eq!(st, 0);
    assert_eq!(table_column_names(&df.unwrap()), vec!["b", "a"]);
}

#[test]
fn with_columns_adds_a_computed_column_and_keeps_the_rest() {
    let p = plan(Node::WithColumns {
        input: scan(),
        expressions: vec![ExprIr::Alias {
            expr: some(ExprIr::Binary { op: 1, left: some(col("a")), right: some(lit_i(10)) }),
            name: "c".to_string(),
        }],
    });
    let (st, df, _) = run(&p, Some(seed_ab()));
    assert_eq!(st, 0);
    let df = df.unwrap();
    assert_eq!(table_column_names(&df), vec!["a", "b", "c"]);
    assert_eq!(table_column_i64(&df, "c").unwrap(), vec![Some(11), Some(12), Some(13)]);
}

#[test]
fn string_replace_runs_through_the_engine() {
    let seed = table_from_columns(&vec![str_col("s", &["aba", "zzz"])]).unwrap();
    let p = plan(Node::Project {
        input: scan(),
        expressions: vec![ExprIr::StrReplaceAll {
            expr: some(col("s")),
            pattern: "a".to_string(),
            value: "o".to_string(),
            literal: true,
        }],
    });
    let (st, df, _) = run(&p, Some(seed));
    assert_eq!(st, 0);
    assert_eq!(
        table_column_str(&df.unwrap(), "s").unwrap(),
        vec![Some("obo".to_string()), Some("zzz".to_string())]
    );
}

#[test]
fn string_uppercase_runs_through_the_engine() {
    let seed = table_from_columns(&vec![str_col("s", &["ab", "Cd"])]).unwrap();
    let p = plan(Node::Project {
        input: scan(),
        expressions: vec![ExprIr::StrToUppercase { expr: some(col("s")) }],
    });
    let (st, df, _) = run(&p, Some(seed));
    assert_eq!(st, 0);
    assert_eq!(
        table_column_str(&df.unwrap(), "s").unwrap(),
        vec![Some("AB".to_string()), Some("CD".to_string())]
    );
}

#[test]
fn unknown_binary_operator_reports_its_code() {
    let p = plan(Node::Filter {
        input: scan(),
        predicate: some(ExprIr::Binary { op: 99, left: some(col("a")), right: some(lit_i(0)) }),
    });
    let (st, _, err) = run(&p, Some(seed_ab()));
    assert_eq!(st, 10);
    assert_eq!(err.unwrap(), "[ERR_UNSUPPORTED] Unknown binary operator: 99");
}

#[test]
fn unknown_data_type_reports_its_code() {
    let p = plan(Node::Project {
        input: scan(),
        expressions: vec![ExprIr::Cast { expr: some(col("a")), data_type: 77, strict: false }],
    });
    let (st, _, err) = run(&p, Some(seed_ab()));
    assert_eq!(st, 10);
    assert_eq!(err.unwrap(), "[ERR_UNSUPPORTED] Unknown data type: 77");
}

#[test]
fn filter_without_predicate_is_a_semantic_error() {
    let p = plan(Node::Filter { input: scan(), predicate: None });
    let (st, _, err) = run(&p, Some(seed_ab()));
    assert_eq!(st, 6);
    assert_eq!(err.unwrap(), "[ERR_PLAN_SEMANTIC] Filter has no predicate");
}

#[test]
fn project_without_input_is_a_semantic_error() {
    let p = plan(Node::Project { input: None, expressions: vec![] });
    let (st, _, err) = run(&p, Some(seed_ab()));
    assert_eq!(st, 6);
    assert_eq!(err.unwrap(), "[ERR_PLAN_SEMANTIC] Project has no input");
}

#[test]
fn plan_without_root_is_a_semantic_error() {
    let p = Plan { plan_version: 1, root: None };
    let mut b = Bridge::new();
    let (st, ph) = b.compile(&encode_plan(&p));
    assert_eq!(st, 0);
    let (st2, _) = b.execute_to_table(ph, 0);
    assert_eq!(st2, 6);
    assert_eq!(b.last_error().unwrap(), "[ERR_PLAN_SEMANTIC] Plan has no root node");
}

#[test]
fn exclude_expression_is_unsupported() {
    let p = plan(Node::Project {
        input: scan(),
        expressions: vec![ExprIr::Exclude { columns: vec!["a".to_string()] }],
    });
    let (st, _, err) = run(&p, Some(seed_ab()));
    assert_eq!(st, 10);
    assert_eq!(err.unwrap(), "[ERR_UNSUPPORTED] Exclude operation is not yet supported");
}

#[test]
fn float_literal_is_unsupported() {
    let p = plan(Node::Project {
        input: scan(),
        expressions: vec![ExprIr::Lit { value: Some(LitValue::FloatBits(0)) }],
    });
    let (st, _, err) = run(&p, Some(seed_ab()));
    assert_eq!(st, 10);
    assert_eq!(err.unwrap(), "[ERR_UNSUPPORTED] Float literals are not supported");
}

#[test]
fn wildcard_selects_all_columns() {
    let p = plan(Node::Project { input: scan(), expressions: vec![ExprIr::Wildcard] });
    let (st, df, _) = run(&p, Some(seed_ab()));
    assert_eq!(st, 0);
    assert_eq!(table_column_names(&df.unwrap()), vec!["a", "b"]);
}

#[test]
fn is_null_and_not_compose() {
    let seed = table_from_columns(&vec![ColumnDef {
        name: "a".to_string(),
        data: ColumnData::Int64(vec![Some(1), None, Some(3)]),
    }])
    .unwrap();
    // keep rows where a is not null
    let p = plan(Node::Filter {
        input: scan(),
        predicate: some(ExprIr::Not { expr: some(ExprIr::IsNull { expr: some(col("a")) }) }),
    });
    let (st, df, _) = run(&p, Some(seed));
    assert_eq!(st, 0);
    assert_eq!(table_column_i64(&df.unwrap(), "a").unwrap(), vec![Some(1), Some(3)]);
}

#[test]
fn execute_plan_df_runs_without_the_registry() {
    let seed = seed_ab();
    let p = plan(Node::Project { input: scan(), expressions: vec![col("a")] });
    let df = execute_plan_df(&p, Some(&seed)).expect("execute");
    assert_eq!(table_height(&df), 3);
}

#[test]
fn csv_scan_of_missing_file_is_an_execution_error() {
    let p = plan(Node::CsvScan { path: "definitely-not-here-1a2b3c.csv".to_string() });
    let (st, _, err) = run(&p, None);
    assert_eq!(st, 9);
    // the engine may notice the missing file while building the scan or
    // while collecting; either way the status is Execution and the message
    // names the path
    let msg = err.unwrap();
    assert!(msg.starts_with("[ERR_EXECUTION]"), "{msg}");
    assert!(msg.contains("definitely-not-here-1a2b3c.csv"), "{msg}");
}

#[test]
fn arithmetic_operators_compute_expected_values() {
    // (a + b) * a - b, a / b, a % b, a pow b over a=[6], b=[3]
    let seed = table_from_columns(&vec![int_col("a", &[6]), int_col("b", &[3])]).unwrap();
    let bin = |op: u32, l: ExprIr, r: ExprIr| ExprIr::Binary {
        op,
        left: Some(Box::new(l)),
        right: Some(Box::new(r)),
    };
    let alias = |e: ExprIr, n: &str| ExprIr::Alias { expr: Some(Box::new(e)), name: n.to_string() };
    let p = plan(Node::Project {
        input: scan(),
        expressions: vec![
            alias(bin(2, bin(3, bin(1, col("a"), col("b")), col("a")), col("b")), "w"),
            alias(bin(4, col("a"), col("b")), "x"),
            alias(bin(5, col("a"), col("b")), "y"),
            alias(
                ExprIr::Cast {
                    expr: Some(Box::new(bin(6, col("a"), col("b")))),
                    data_type: 1,
                    strict: false,
                },
                "z",
            ),
        ],
    });
    let (st, df, _) = run(&p, Some(seed));
    assert_eq!(st, 0);
    let df = df.unwrap();
    // (6+3)*6-3 = 51; 6/3 = 2; 6%3 = 0; 6^3 = 216
    assert_eq!(table_column_i64(&df, "w").unwrap(), vec![Some(51)]);
    assert_eq!(table_column_i64(&df, "x").unwrap(), vec![Some(2)]);
    assert_eq!(table_column_i64(&df, "y").unwrap(), vec![Some(0)]);
    assert_eq!(table_column_i64(&df, "z").unwrap(), vec![Some(216)]);
}

#[test]
fn comparison_and_logic_operators_filter_rows() {
    let seed = table_from_columns(&vec![int_col("a", &[1, 2, 3, 4, 5])]).unwrap();
    // keep rows where a >= 2 and a != 4
    let bin = |op: u32, l: ExprIr, r: ExprIr| ExprIr::Binary {
        op,
        left: Some(Box::new(l)),
        right: Some(Box::new(r)),
    };
    let p = plan(Node::Filter {
        input: scan(),
        predicate: Some(Box::new(bin(
            13,
            bin(12, col("a"), lit_i(2)),
            bin(8, col("a"), lit_i(4)),
        ))),
    });
    let (st, df, _) = run(&p, Some(seed));
    assert_eq!(st, 0);
    assert_eq!(table_column_i64(&df.unwrap(), "a").unwrap(), vec![Some(2), Some(3), Some(5)]);
}

#[test]
fn string_contains_and_affix_checks_yield_booleans() {
    let seed = table_from_columns(&vec![str_col("s", &["apple", "banana", "pear"])]).unwrap();
    let alias = |e: ExprIr, n: &str| ExprIr::Alias { expr: Some(Box::new(e)), name: n.to_string() };
    let p = plan(Node::Project {
        input: scan(),
        expressions: vec![
            alias(
                ExprIr::StrContains {
                    expr: some(col("s")),
                    pattern: "an".to_string(),
                    literal: true,
                },
                "c",
            ),
            alias(
                ExprIr::StrStartsWith { expr: some(col("s")), prefix: "pe".to_string() },
                "st",
            ),
            alias(ExprIr::StrEndsWith { expr: some(col("s")), suffix: "e".to_string() }, "en"),
        ],
    });
    let (st, df, _) = run(&p, Some(seed));
    assert_eq!(st, 0);
    let df = df.unwrap();
    assert_eq!(
        table_column_bool(&df, "c").unwrap(),
        vec![Some(false), Some(true), Some(false)]
    );
    assert_eq!(
        table_column_bool(&df, "st").unwrap(),
        vec![Some(false), Some(false), Some(true)]
    );
    assert_eq!(
        table_column_bool(&df, "en").unwrap(),
        vec![Some(true), Some(false), Some(false)]
    );
}

#[test]
fn string_slice_and_strip_and_case_transform_values() {
    let seed = table_from_columns(&vec![str_col("s", &["  Hello  ", "abcdef   "])]).unwrap();
    let alias = |e: ExprIr, n: &str| ExprIr::Alias { expr: Some(Box::new(e)), name: n.to_string() };
    let p = plan(Node::Project {
        input: scan(),
        expressions: vec![
            alias(
                ExprIr::StrStripChars { expr: some(col("s")), chars: "".to_string() },
                "t",
            ),
            alias(
                ExprIr::StrSlice { expr: some(col("s")), offset: 2, length: Some(3) },
                "sl",
            ),
            alias(ExprIr::StrToLowercase { expr: some(col("s")) }, "lo"),
        ],
    });
    let (st, df, _) = run(&p, Some(seed));
    assert_eq!(st, 0);
    let df = df.unwrap();
    assert_eq!(
        table_column_str(&df, "t").unwrap(),
        vec![Some("Hello".to_string()), Some("abcdef".to_string())]
    );
    assert_eq!(
        table_column_str(&df, "sl").unwrap(),
        vec![Some("Hel".to_string()), Some("cde".to_string())]
    );
    assert_eq!(
        table_column_str(&df, "lo").unwrap(),
        vec![Some("  hello  ".to_string()), Some("abcdef   ".to_string())]
    );
}

#[test]
fn string_length_counts_bytes_and_chars() {
    let seed = table_from_columns(&vec![str_col("s", &["abc", "héllo"])]).unwrap();
    let alias = |e: ExprIr, n: &str| ExprIr::Alias { expr: Some(Box::new(e)), name: n.to_string() };
    let cast_i64 =
        |e: ExprIr| ExprIr::Cast { expr: Some(Box::new(e)), data_type: 1, strict: false };
    let p = plan(Node::Project {
        input: scan(),
        expressions: vec![
            alias(cast_i64(ExprIr::StrLenBytes { expr: some(col("s")) }), "b"),
            alias(cast_i64(ExprIr::StrLenChars { expr: some(col("s")) }), "c"),
        ],
    });
    let (st, df, _) = run(&p, Some(seed));
    assert_eq!(st, 0);
    let df = df.unwrap();
    assert_eq!(table_column_i64(&df, "b").unwrap(), vec![Some(3), Some(6)]);
    assert_eq!(table_column_i64(&df, "c").unwrap(), vec![Some(3), Some(5)]);
}

#[test]
fn string_extract_pulls_a_capture_group() {
    let seed = table_from_columns(&vec![str_col("s", &["id=42", "id=7", "none"])]).unwrap();
    let p = plan(Node::Project {
        input: scan(),
        expressions: vec![ExprIr::StrExtract {
            expr: some(col("s")),
            pattern: "id=([0-9]+)".to_string(),
            group_index: 1,
        }],
    });
    let (st, df, _) = run(&p, Some(seed));
    assert_eq!(st, 0);
    assert_eq!(
        table_column_str(&df.unwrap(), "s").unwrap(),
        vec![Some("42".to_string()), Some("7".to_string()), None]
    );
}

#[test]
fn ipc_round_trip_with_nulls_via_equals_missing() {
    let df = table_from_columns(&vec![ColumnDef {
        name: "a".to_string(),
        data: ColumnData::Int64(vec![Some(1), None]),
    }])
    .unwrap();
    let bytes = df_to_ipc(&df).expect("serialize");
    let back = df_from_ipc(&bytes).expect("deserialize");
    assert!(table_equals_missing(&df, &back));
}

#[test]
fn limit_beyond_index_maximum_keeps_all_rows() {
    let seed = table_from_columns(&vec![int_col("a", &[10, 20, 30, 40, 50])]).unwrap();
    let p = plan(Node::Limit { input: scan(), n: u64::MAX });
    let (st, df, _) = run(&p, Some(seed));
    assert_eq!(st, 0);
    assert_eq!(table_height(&df.unwrap()), 5);
}
