use plan_bridge::codec::{decode_plan, encode_plan};
use plan_bridge::plan::{ExprIr, LitValue, Node, Plan};

fn col(name: &str) -> ExprIr {
    ExprIr::Col { name: name.to_string() }
}

fn some(e: ExprIr) -> Option<Box<ExprIr>> {
    Some(Box::new(e))
}

#[test]
fn round_trip_minimal_plan() {
    let plan = Plan { plan_version: 1, root: None };
    let bytes = encode_plan(&plan);
    let back = decode_plan(&bytes).expect("decode");
    assert_eq!(back, plan);
}

#[test]
fn round_trip_memory_scan_project() {
    let plan = Plan {
        plan_version: 1,
        root: Some(Node::Project {
            input: Some(Box::new(Node::MemoryScan {
                column_names: vec!["a".to_string(), "b".to_string()],
            })),
            expressions: vec![col("a"), ExprIr::Wildcard],
        }),
    };
    let bytes = encode_plan(&plan);
    let back = decode_plan(&bytes).expect("decode");
    assert_eq!(back, plan);
}

#[test]
fn round_trip_every_expression_kind() {
    let exprs = vec![
        col("a"),
        ExprIr::Lit { value: Some(LitValue::IntVal(-7)) },
        ExprIr::Lit { value: Some(LitValue::FloatBits(0x400921FB54442D18)) },
        ExprIr::Lit { value: Some(LitValue::BoolVal(true)) },
        ExprIr::Lit { value: Some(LitValue::StringVal("héllo".to_string())) },
        ExprIr::Lit { value: Some(LitValue::NullVal) },
        ExprIr::Lit { value: None },
        ExprIr::Binary { op: 1, left: some(col("a")), right: some(col("b")) },
        ExprIr::Binary { op: 99, left: None, right: some(col("b")) },
        ExprIr::Alias { expr: some(col("a")), name: "x".to_string() },
        ExprIr::IsNull { expr: some(col("a")) },
        ExprIr::Not { expr: some(col("a")) },
        ExprIr::Wildcard,
        ExprIr::Exclude { columns: vec!["a".to_string()] },
        ExprIr::Cast { expr: some(col("a")), data_type: 9, strict: true },
        ExprIr::StrLenBytes { expr: some(col("s")) },
        ExprIr::StrLenChars { expr: some(col("s")) },
        ExprIr::StrContains { expr: some(col("s")), pattern: "p.*t".to_string(), literal: false },
        ExprIr::StrStartsWith { expr: some(col("s")), prefix: "ab".to_string() },
        ExprIr::StrEndsWith { expr: some(col("s")), suffix: "yz".to_string() },
        ExprIr::StrExtract { expr: some(col("s")), pattern: "(d+)".to_string(), group_index: 1 },
        ExprIr::StrReplace {
            expr: some(col("s")),
            pattern: "a".to_string(),
            value: "b".to_string(),
            literal: true,
        },
        ExprIr::StrReplaceAll {
            expr: some(col("s")),
            pattern: "a".to_string(),
            value: "b".to_string(),
            literal: false,
        },
        ExprIr::StrToLowercase { expr: some(col("s")) },
        ExprIr::StrToUppercase { expr: some(col("s")) },
        ExprIr::StrStripChars { expr: some(col("s")), chars: "".to_string() },
        ExprIr::StrSlice { expr: some(col("s")), offset: -2, length: Some(3) },
        ExprIr::StrSlice { expr: some(col("s")), offset: 1, length: None },
        ExprIr::StrSplit { expr: some(col("s")), by: ",".to_string() },
        ExprIr::StrPadStart { expr: some(col("s")), length: 8, fill_char: "*".to_string() },
        ExprIr::StrPadEnd { expr: some(col("s")), length: 8, fill_char: "".to_string() },
    ];
    let plan = Plan {
        plan_version: 1,
        root: Some(Node::WithColumns {
            input: Some(Box::new(Node::Filter {
                input: Some(Box::new(Node::Limit {
                    input: Some(Box::new(Node::CsvScan { path: "/tmp/data.csv".to_string() })),
                    n: 42,
                })),
                predicate: some(ExprIr::Binary {
                    op: 11,
                    left: some(col("a")),
                    right: some(ExprIr::Lit { value: Some(LitValue::IntVal(0)) }),
                }),
            })),
            expressions: exprs,
        }),
    };
    let bytes = encode_plan(&plan);
    let back = decode_plan(&bytes).expect("decode");
    assert_eq!(back, plan);
}

#[test]
fn round_trip_parquet_and_missing_children() {
    let plan = Plan {
        plan_version: 3,
        root: Some(Node::Project {
            input: Some(Box::new(Node::ParquetScan { path: "x.parquet".to_string() })),
            expressions: vec![],
        }),
    };
    let bytes = encode_plan(&plan);
    assert_eq!(decode_plan(&bytes).expect("decode"), plan);

    let plan2 = Plan {
        plan_version: 1,
        root: Some(Node::Filter { input: None, predicate: None }),
    };
    let bytes2 = encode_plan(&plan2);
    assert_eq!(decode_plan(&bytes2).expect("decode"), plan2);
}

#[test]
fn decode_rejects_malformed_bytes() {
    assert!(decode_plan(&vec![]).is_none());
    assert!(decode_plan(&vec![1, 0, 0, 0]).is_none());
    // bad root flag
    assert!(decode_plan(&vec![1, 0, 0, 0, 9]).is_none());
    // unknown node tag
    assert!(decode_plan(&vec![1, 0, 0, 0, 1, 200]).is_none());
}

#[test]
fn decode_rejects_trailing_bytes() {
    let plan = Plan { plan_version: 1, root: None };
    let mut bytes = encode_plan(&plan);
    assert!(decode_plan(&bytes).is_some());
    bytes.push(0);
    assert!(decode_plan(&bytes).is_none());
}

#[test]
fn decode_rejects_invalid_scalar_value() {
    // a CSV path whose single character is a lone surrogate code point
    let mut bytes = vec![1, 0, 0, 0, 1, 1];
    bytes.extend_from_slice(&1u64.to_le_bytes());
    bytes.extend_from_slice(&0xD800u32.to_le_bytes());
    assert!(decode_plan(&bytes).is_none());
}
