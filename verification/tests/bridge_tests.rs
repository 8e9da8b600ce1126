use plan_bridge::bridge::{bridge_capabilities, bridge_engine_version, Bridge};
use plan_bridge::codec::encode_plan;
use plan_bridge::error::{bridge_error_to_code, BridgeError, ErrorCode};
use plan_bridge::plan::{ExprIr, Node, Plan};
use plan_bridge::bridge_abi_version;

fn plan_with_version(v: u32) -> Vec<u8> {
    let plan = Plan {
        plan_version: v,
        root: Some(Node::MemoryScan { column_names: vec![] }),
    };
    encode_plan(&plan)
}

#[test]
fn abi_version_is_one() {
    assert_eq!(bridge_abi_version(), 1);
}

#[test]
fn engine_version_reported() {
    assert_eq!(bridge_engine_version(), "0.1.0");
}

#[test]
fn capabilities_lists_supported_features() {
    let caps = bridge_capabilities();
    let parsed: serde_json::Value = serde_json::from_str(&caps).expect("valid JSON");
    assert_eq!(parsed["abi_version"], 1);
    assert_eq!(parsed["min_plan_version_supported"], 1);
    assert_eq!(parsed["max_plan_version_supported"], 1);
    let nodes: Vec<&str> =
        parsed["supported_nodes"].as_array().unwrap().iter().map(|v| v.as_str().unwrap()).collect();
    assert!(nodes.contains(&"MemoryScan"));
    assert!(nodes.contains(&"Limit"));
    let exprs: Vec<&str> =
        parsed["supported_exprs"].as_array().unwrap().iter().map(|v| v.as_str().unwrap()).collect();
    assert!(exprs.contains(&"StrPadStart"));
    assert!(exprs.contains(&"Cast"));
    let lits: Vec<&str> = parsed["supported_literals"]
        .as_array()
        .unwrap()
        .iter()
        .map(|v| v.as_str().unwrap())
        .collect();
    assert!(lits.contains(&"Int") && !lits.contains(&"Float"));
}

#[test]
fn compile_accepts_supported_version() {
    let mut b = Bridge::new();
    let (st, h) = b.compile(&plan_with_version(1));
    assert_eq!(st, 0);
    assert!(h != 0);
    assert!(b.last_error().is_none());
}

#[test]
fn compile_rejects_version_below_range() {
    let mut b = Bridge::new();
    let (st, h) = b.compile(&plan_with_version(0));
    assert_eq!(st, 4);
    assert_eq!(h, 0);
    assert_eq!(
        b.last_error().unwrap(),
        "[ERR_PLAN_VERSION_UNSUPPORTED] Plan version 0 unsupported"
    );
}

#[test]
fn compile_rejects_version_above_range() {
    let mut b = Bridge::new();
    let (st, h) = b.compile(&plan_with_version(2));
    assert_eq!(st, 4);
    assert_eq!(h, 0);
    assert_eq!(
        b.last_error().unwrap(),
        "[ERR_PLAN_VERSION_UNSUPPORTED] Plan version 2 unsupported"
    );
}

#[test]
fn compile_rejects_malformed_bytes() {
    let mut b = Bridge::new();
    let (st, h) = b.compile(&vec![0xFF, 0x01]);
    assert_eq!(st, 5);
    assert_eq!(h, 0);
    assert_eq!(b.last_error().unwrap(), "[ERR_PLAN_DECODE] Invalid plan encoding");
}

#[test]
fn success_clears_previous_error() {
    let mut b = Bridge::new();
    let (st, _) = b.compile(&vec![]);
    assert!(st != 0);
    assert!(b.last_error().is_some());
    let (st2, _) = b.compile(&plan_with_version(1));
    assert_eq!(st2, 0);
    assert!(b.last_error().is_none());
}

#[test]
fn free_plan_zero_handle_is_noop() {
    let mut b = Bridge::new();
    assert_eq!(b.free_plan(0), 0);
    assert!(b.last_error().is_none());
}

#[test]
fn free_plan_double_free_is_detected() {
    let mut b = Bridge::new();
    let (st, h) = b.compile(&plan_with_version(1));
    assert_eq!(st, 0);
    assert_eq!(b.free_plan(h), 0);
    let st2 = b.free_plan(h);
    assert_eq!(st2, 2);
    assert_eq!(b.last_error().unwrap(), "[ERR_INVALID_ARGUMENT] Unknown plan handle");
}

#[test]
fn free_table_unknown_handle_is_detected() {
    let mut b = Bridge::new();
    assert_eq!(b.free_table(0), 0);
    let st = b.free_table(7);
    assert_eq!(st, 2);
    assert_eq!(b.last_error().unwrap(), "[ERR_INVALID_ARGUMENT] Unknown table handle");
}

#[test]
fn execute_unknown_plan_handle_is_invalid_argument() {
    let mut b = Bridge::new();
    let (st, h) = b.execute_to_table(42, 0);
    assert_eq!(st, 2);
    assert_eq!(h, 0);
    assert_eq!(b.last_error().unwrap(), "[ERR_INVALID_ARGUMENT] Unknown plan handle");
}

#[test]
fn record_panic_formats_unknown_status() {
    let mut b = Bridge::new();
    let st = b.record_panic("index out of bounds");
    assert_eq!(st, 1);
    assert_eq!(b.last_error().unwrap(), "[ERR_UNKNOWN] Panic: index out of bounds");
}

#[test]
fn error_codes_are_stable() {
    assert_eq!(ErrorCode::Okay.number(), 0);
    assert_eq!(ErrorCode::Unknown.number(), 1);
    assert_eq!(ErrorCode::InvalidArgument.number(), 2);
    assert_eq!(ErrorCode::AbiMismatch.number(), 3);
    assert_eq!(ErrorCode::PlanVersionUnsupported.number(), 4);
    assert_eq!(ErrorCode::PlanDecode.number(), 5);
    assert_eq!(ErrorCode::PlanSemantic.number(), 6);
    assert_eq!(ErrorCode::ArrowImport.number(), 7);
    assert_eq!(ErrorCode::ArrowExport.number(), 8);
    assert_eq!(ErrorCode::Execution.number(), 9);
    assert_eq!(ErrorCode::Unsupported.number(), 10);
    assert_eq!(ErrorCode::Oom.number(), 11);
}

#[test]
fn error_code_names_are_stable() {
    assert_eq!(ErrorCode::Okay.name(), "OK");
    assert_eq!(ErrorCode::Unknown.name(), "ERR_UNKNOWN");
    assert_eq!(ErrorCode::Execution.name(), "ERR_EXECUTION");
    assert_eq!(ErrorCode::Oom.name(), "ERR_OOM");
}

#[test]
fn bridge_error_to_code_classifies_and_formats() {
    let (c, m) = bridge_error_to_code(&BridgeError::InvalidArgument("bad".to_string()));
    assert_eq!(c, ErrorCode::InvalidArgument);
    assert_eq!(m, "bad");
    let (c2, m2) = bridge_error_to_code(&BridgeError::AbiMismatch(1, 3));
    assert_eq!(c2, ErrorCode::AbiMismatch);
    assert_eq!(m2, "ABI mismatch: expected 1, got 3");
    let (c3, m3) = bridge_error_to_code(&BridgeError::PlanVersionUnsupported(17));
    assert_eq!(c3, ErrorCode::PlanVersionUnsupported);
    assert_eq!(m3, "Plan version 17 unsupported");
}

#[test]
fn decimal_rendering_is_exact() {
    assert_eq!(plan_bridge::error::u32_to_decimal(0), "0");
    assert_eq!(plan_bridge::error::u32_to_decimal(9), "9");
    assert_eq!(plan_bridge::error::u32_to_decimal(10), "10");
    assert_eq!(plan_bridge::error::u32_to_decimal(4294967295), "4294967295");
}

#[test]
fn compile_keeps_expression_plans() {
    // a structurally rich plan compiles as long as the version is right;
    // flaws surface only at execution
    let plan = Plan {
        plan_version: 1,
        root: Some(Node::Filter {
            input: Some(Box::new(Node::MemoryScan { column_names: vec![] })),
            predicate: Some(Box::new(ExprIr::Binary { op: 99, left: None, right: None })),
        }),
    };
    let mut b = Bridge::new();
    let (st, h) = b.compile(&encode_plan(&plan));
    assert_eq!(st, 0);
    assert!(h != 0);
}
