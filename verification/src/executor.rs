//! The translators: a recursive builder from expression trees to native
//! engine expressions, a recursive interpreter from relational nodes to a
//! lazy engine query, and the top-level execution that materializes a plan
//! once. The contracts classify exactly which trees translate, which error
//! every flawed tree reports, and which native expression or query a clean
//! tree builds.

use vstd::prelude::*;
use crate::engine;
use crate::error::{BridgeError, ErrView, u32_to_decimal};
use crate::expr_str::build_string_expr;
use crate::native::{
    NativeExpr, NativeQuery, NexprV, nexprs_view, expr_interp, exprs_interp, node_interp,
    columns_interp,
};
use crate::plan::{
    ExprIr, Node, NodeV, Plan, ExprV, expr_view, exprs_view, strings_view, expr_flaw,
    exprs_flaw, node_flaw, plan_flaw, node_has_csv, plan_has_csv, is_string_kind,
    lemma_exprs_view_len, lemma_exprs_view_index,
};
use vstd::string::{StrSliceExecFns, StringExecFns};

verus! {

/// Translates one expression tree into a native engine expression. The
/// translation succeeds exactly when the tree is free of structural flaws;
/// a clean tree builds exactly its intended translation, and a flawed tree
/// reports its first flaw.
#[verifier::rlimit(100)]
pub fn build_expr(e: &ExprIr) -> (r: Result<NativeExpr, BridgeError>)
    ensures
        r is Ok <==> expr_flaw(e@) is None,
        r matches Ok(v) ==> v@ == expr_interp(e@),
        r matches Err(er) ==> expr_flaw(e@) == Option::Some(er@),
    decreases *e, 2int,
{
    if let Option::Some(result) = build_string_expr(e) {
        return result;
    }
    match e {
        ExprIr::Col { name } => Ok(engine::pl_col(name.as_str())),
        ExprIr::Lit { value } => match value {
            Option::None => Err(BridgeError::PlanSemantic("Literal has no value".to_owned())),
            Option::Some(crate::plan::LitValue::IntVal(v)) => Ok(engine::pl_lit_i64(*v)),
            Option::Some(crate::plan::LitValue::FloatBits(_)) => Err(
                BridgeError::Unsupported("Float literals are not supported".to_owned()),
            ),
            Option::Some(crate::plan::LitValue::BoolVal(v)) => Ok(engine::pl_lit_bool(*v)),
            Option::Some(crate::plan::LitValue::StringVal(s)) => Ok(
                engine::pl_lit_str(s.as_str()),
            ),
            Option::Some(crate::plan::LitValue::NullVal) => Ok(engine::pl_lit_null()),
        },
        ExprIr::Binary { op, left, right } => match left {
            Option::None => Err(BridgeError::PlanSemantic("Binary has no left".to_owned())),
            Option::Some(lb) => match right {
                Option::None => Err(BridgeError::PlanSemantic("Binary has no right".to_owned())),
                Option::Some(rb) => {
                    let le = match build_expr(&**lb) {
                        Result::Ok(x) => x,
                        Result::Err(er) => {
                            return Err(er);
                        },
                    };
                    let re = match build_expr(&**rb) {
                        Result::Ok(x) => x,
                        Result::Err(er) => {
                            return Err(er);
                        },
                    };
                    if *op == 1 {
                        Ok(engine::pl_add(le, re))
                    } else if *op == 2 {
                        Ok(engine::pl_sub(le, re))
                    } else if *op == 3 {
                        Ok(engine::pl_mul(le, re))
                    } else if *op == 4 {
                        Ok(engine::pl_div(le, re))
                    } else if *op == 5 {
                        Ok(engine::pl_rem(le, re))
                    } else if *op == 6 {
                        Ok(engine::pl_pow(le, re))
                    } else if *op == 7 {
                        Ok(engine::pl_eq(le, re))
                    } else if *op == 8 {
                        Ok(engine::pl_neq(le, re))
                    } else if *op == 9 {
                        Ok(engine::pl_lt(le, re))
                    } else if *op == 10 {
                        Ok(engine::pl_lt_eq(le, re))
                    } else if *op == 11 {
                        Ok(engine::pl_gt(le, re))
                    } else if *op == 12 {
                        Ok(engine::pl_gt_eq(le, re))
                    } else if *op == 13 {
                        Ok(engine::pl_and(le, re))
                    } else if *op == 14 {
                        Ok(engine::pl_or(le, re))
                    } else if *op == 15 {
                        Ok(engine::pl_xor(le, re))
                    } else {
                        Err(
                            BridgeError::Unsupported(
                                "Unknown binary operator: ".to_owned().concat(
                                    u32_to_decimal(*op).as_str(),
                                ),
                            ),
                        )
                    }
                },
            },
        },
        ExprIr::Alias { expr, name } => match expr {
            Option::None => Err(BridgeError::PlanSemantic("Alias has no expr".to_owned())),
            Option::Some(b) => match build_expr(&**b) {
                Result::Ok(inner) => Ok(engine::pl_alias(inner, name.as_str())),
                Result::Err(er) => Err(er),
            },
        },
        ExprIr::IsNull { expr } => match expr {
            Option::None => Err(BridgeError::PlanSemantic("IsNull has no expr".to_owned())),
            Option::Some(b) => match build_expr(&**b) {
                Result::Ok(inner) => Ok(engine::pl_is_null(inner)),
                Result::Err(er) => Err(er),
            },
        },
        ExprIr::Not { expr } => match expr {
            Option::None => Err(BridgeError::PlanSemantic("Not has no expr".to_owned())),
            Option::Some(b) => match build_expr(&**b) {
                Result::Ok(inner) => Ok(engine::pl_not(inner)),
                Result::Err(er) => Err(er),
            },
        },
        ExprIr::Wildcard => Ok(engine::pl_wildcard()),
        ExprIr::Exclude { .. } => Err(
            BridgeError::Unsupported("Exclude operation is not yet supported".to_owned()),
        ),
        ExprIr::Cast { expr, data_type, strict } => match expr {
            Option::None => Err(BridgeError::PlanSemantic("Cast has no expr".to_owned())),
            Option::Some(b) => {
                let inner = match build_expr(&**b) {
                    Result::Ok(x) => x,
                    Result::Err(er) => {
                        return Err(er);
                    },
                };
                let target = if *data_type == 1 {
                    engine::pl_dtype_int64()
                } else if *data_type == 2 {
                    engine::pl_dtype_int32()
                } else if *data_type == 3 {
                    engine::pl_dtype_int16()
                } else if *data_type == 4 {
                    engine::pl_dtype_int8()
                } else if *data_type == 5 {
                    engine::pl_dtype_uint64()
                } else if *data_type == 6 {
                    engine::pl_dtype_uint32()
                } else if *data_type == 7 {
                    engine::pl_dtype_uint16()
                } else if *data_type == 8 {
                    engine::pl_dtype_uint8()
                } else if *data_type == 9 {
                    engine::pl_dtype_float64()
                } else if *data_type == 10 {
                    engine::pl_dtype_float32()
                } else if *data_type == 11 {
                    engine::pl_dtype_bool()
                } else if *data_type == 12 {
                    engine::pl_dtype_string()
                } else if *data_type == 13 {
                    engine::pl_dtype_date()
                } else if *data_type == 14 {
                    engine::pl_dtype_datetime_us()
                } else if *data_type == 15 {
                    engine::pl_dtype_time()
                } else {
                    return Err(
                        BridgeError::Unsupported(
                            "Unknown data type: ".to_owned().concat(
                                u32_to_decimal(*data_type).as_str(),
                            ),
                        ),
                    );
                };
                if *strict {
                    Ok(engine::pl_strict_cast(inner, target))
                } else {
                    Ok(engine::pl_cast(inner, target))
                }
            },
        },
        _ => {
            proof {
                assert(is_string_kind(e@));
                assert(false);
            }
            Err(BridgeError::Unsupported("Expression type is not yet supported".to_owned()))
        },
    }
}

/// Translates a list of expressions left to right, stopping at the first
/// flawed one; a clean list builds the translation of each entry, in order.
pub fn build_exprs(v: &Vec<ExprIr>) -> (r: Result<Vec<NativeExpr>, BridgeError>)
    ensures
        r is Ok <==> exprs_flaw(exprs_view(v@)) is None,
        r matches Ok(out) ==> out@.len() == v@.len() && nexprs_view(out@) == exprs_interp(
            exprs_view(v@),
        ),
        r matches Err(er) ==> exprs_flaw(exprs_view(v@)) == Option::Some(er@),
{
    let mut out: Vec<NativeExpr> = Vec::new();
    proof {
        assert(exprs_view(v@).skip(0) =~= exprs_view(v@));
        assert(nexprs_view(out@) =~= exprs_interp(exprs_view(v@).take(0)));
    }
    let mut k: usize = 0;
    while k < v.len()
        invariant
            0 <= k <= v.len(),
            out@.len() == k,
            exprs_flaw(exprs_view(v@)) == exprs_flaw(exprs_view(v@).skip(k as int)),
            nexprs_view(out@) == exprs_interp(exprs_view(v@).take(k as int)),
        decreases v.len() - k,
    {
        proof {
            lemma_exprs_view_index(v@, k as int);
            assert(exprs_view(v@).skip(k as int)[0] == expr_view(v@[k as int]));
        }
        match build_expr(&v[k]) {
            Result::Ok(e) => {
                proof {
                    assert(exprs_view(v@).skip(k as int).drop_first() =~= exprs_view(v@).skip(
                        k as int + 1,
                    ));
                    let t1 = exprs_view(v@).take(k as int + 1);
                    assert(t1.drop_last() =~= exprs_view(v@).take(k as int));
                    assert(t1.last() == expr_view(v@[k as int]));
                    assert(exprs_interp(t1) == exprs_interp(exprs_view(v@).take(k as int)).push(
                        expr_interp(expr_view(v@[k as int])),
                    ));
                    assert(nexprs_view(out@.push(e)) =~= nexprs_view(out@).push(e@));
                }
                out.push(e);
                k = k + 1;
            },
            Result::Err(er) => {
                return Err(er);
            },
        }
    }
    proof {
        lemma_exprs_view_len(v@);
        assert(exprs_view(v@).skip(v.len() as int) =~= Seq::<ExprV>::empty());
        assert(exprs_view(v@).take(v.len() as int) =~= exprs_view(v@));
    }
    Ok(out)
}

/// The text of a CSV scan failure: the fixed prefix, the failing path, and
/// whatever detail the engine gave.
pub open spec fn csv_fail_text(path: Seq<char>, detail: Seq<char>) -> Seq<char> {
    "CsvScan failed for '"@ + path + "': "@ + detail
}

/// Interprets one relational node into a lazy engine query, given the seed
/// table supplied out of band for memory scans. A flawed tree reports its
/// first flaw; a clean tree builds exactly its intended translation, and
/// fails only where the engine itself can fail, which is the file scan.
#[verifier::rlimit(60)]
pub fn build_lazy_frame(n: &Node, input_df: Option<&polars::prelude::DataFrame>) -> (r: Result<
    NativeQuery,
    BridgeError,
>)
    ensures
        r is Ok ==> node_flaw(n@, input_df is Some) is None,
        r matches Ok(q) ==> q@ == node_interp(n@, input_df is Some),
        r matches Err(er) ==> er@ is Execution || node_flaw(n@, input_df is Some)
            == Option::Some(er@),
        !node_has_csv(n@) ==> (r matches Err(er) ==> node_flaw(n@, input_df is Some)
            == Option::Some(er@)),
        node_flaw(n@, input_df is Some) is None && !node_has_csv(n@) ==> r is Ok,
        n@ matches NodeV::CsvScan { path } ==> (r matches Err(er) ==> (er@ matches
        ErrView::Execution(m) && exists|d: Seq<char>| m == #[trigger] csv_fail_text(path, d))),
    decreases *n,
{
    match n {
        Node::CsvScan { path } => match engine::lf_csv_scan(path.as_str()) {
            Result::Ok(q) => Ok(q),
            Result::Err(msg) => {
                let text = "CsvScan failed for '".to_owned().concat(path.as_str()).concat(
                    "': ",
                ).concat(msg.as_str());
                proof {
                    assert(text@ =~= csv_fail_text(path@, msg@));
                }
                Err(BridgeError::Execution(text))
            },
        },
        Node::ParquetScan { .. } => Err(
            BridgeError::Unsupported("ParquetScan not yet implemented".to_owned()),
        ),
        Node::MemoryScan { column_names } => match input_df {
            Option::None => Err(
                BridgeError::Unsupported("MemoryScan requires input DataFrame".to_owned()),
            ),
            Option::Some(df) => {
                let lf = engine::lf_from_df(df);
                if column_names.len() > 0 {
                    let mut exprs: Vec<NativeExpr> = Vec::new();
                    proof {
                        assert(nexprs_view(exprs@) =~= columns_interp(
                            strings_view(column_names@),
                        ).take(0));
                    }
                    let mut k: usize = 0;
                    while k < column_names.len()
                        invariant
                            0 <= k <= column_names@.len(),
                            nexprs_view(exprs@) == columns_interp(
                                strings_view(column_names@),
                            ).take(k as int),
                        decreases column_names.len() - k,
                    {
                        let c = engine::pl_col(column_names[k].as_str());
                        proof {
                            assert(strings_view(column_names@)[k as int] == column_names@[k
                                as int]@);
                            assert(nexprs_view(exprs@.push(c)) =~= nexprs_view(exprs@).push(c@));
                            assert(columns_interp(strings_view(column_names@)).take(k as int + 1)
                                =~= columns_interp(strings_view(column_names@)).take(
                                k as int,
                            ).push(NexprV::Column(column_names@[k as int]@)));
                        }
                        exprs.push(c);
                        k = k + 1;
                    }
                    proof {
                        assert(columns_interp(strings_view(column_names@)).take(
                            column_names@.len() as int,
                        ) =~= columns_interp(strings_view(column_names@)));
                    }
                    Ok(engine::lf_select(lf, exprs))
                } else {
                    Ok(lf)
                }
            },
        },
        Node::Project { input, expressions } => match input {
            Option::None => Err(
                BridgeError::PlanSemantic("Project".to_owned().concat(" has no input")),
            ),
            Option::Some(b) => {
                let lf = match build_lazy_frame(&**b, input_df) {
                    Result::Ok(x) => x,
                    Result::Err(er) => {
                        return Err(er);
                    },
                };
                match build_exprs(expressions) {
                    Result::Ok(exprs) => Ok(engine::lf_select(lf, exprs)),
                    Result::Err(er) => Err(er),
                }
            },
        },
        Node::Filter { input, predicate } => match input {
            Option::None => Err(
                BridgeError::PlanSemantic("Filter".to_owned().concat(" has no input")),
            ),
            Option::Some(b) => {
                let lf = match build_lazy_frame(&**b, input_df) {
                    Result::Ok(x) => x,
                    Result::Err(er) => {
                        return Err(er);
                    },
                };
                match predicate {
                    Option::None => Err(
                        BridgeError::PlanSemantic("Filter has no predicate".to_owned()),
                    ),
                    Option::Some(p) => match build_expr(&**p) {
                        Result::Ok(pe) => Ok(engine::lf_filter(lf, pe)),
                        Result::Err(er) => Err(er),
                    },
                }
            },
        },
        Node::WithColumns { input, expressions } => match input {
            Option::None => Err(
                BridgeError::PlanSemantic("WithColumns".to_owned().concat(" has no input")),
            ),
            Option::Some(b) => {
                let lf = match build_lazy_frame(&**b, input_df) {
                    Result::Ok(x) => x,
                    Result::Err(er) => {
                        return Err(er);
                    },
                };
                match build_exprs(expressions) {
                    Result::Ok(exprs) => Ok(engine::lf_with_columns(lf, exprs)),
                    Result::Err(er) => Err(er),
                }
            },
        },
        Node::Limit { input, n: count } => match input {
            Option::None => Err(
                BridgeError::PlanSemantic("Limit".to_owned().concat(" has no input")),
            ),
            Option::Some(b) => {
                let lf = match build_lazy_frame(&**b, input_df) {
                    Result::Ok(x) => x,
                    Result::Err(er) => {
                        return Err(er);
                    },
                };
                // clamp to the engine's row-index maximum: a count beyond
                // it cannot drop any row
                let capped: u32 = if *count > 0xFFFFFFFFu64 {
                    0xFFFFFFFFu32
                } else {
                    *count as u32
                };
                Ok(engine::lf_limit(lf, capped))
            },
        },
    }
}

/// Executes a plan against the engine, optionally seeded with a table for
/// memory scans, and materializes the result once. A flawed plan reports
/// its first flaw before any execution; a clean plan has exactly its
/// intended translation built and collected — `build_lazy_frame`'s
/// contract pins the query handed to the engine — and fails only inside
/// the engine, with the execution error kind.
pub fn execute_plan_df(plan: &Plan, input_df: Option<&polars::prelude::DataFrame>) -> (r: Result<
    polars::prelude::DataFrame,
    BridgeError,
>)
    ensures
        r is Ok ==> plan_flaw(plan@, input_df is Some) is None,
        r matches Err(er) ==> er@ is Execution || plan_flaw(plan@, input_df is Some)
            == Option::Some(er@),
        !plan_has_csv(plan@) && plan_flaw(plan@, input_df is Some) is Some ==> (r matches Err(er)
            && plan_flaw(plan@, input_df is Some) == Option::Some(er@)),
{
    match &plan.root {
        Option::None => Err(BridgeError::PlanSemantic("Plan has no root node".to_owned())),
        Option::Some(root) => {
            let lf = match build_lazy_frame(root, input_df) {
                Result::Ok(x) => x,
                Result::Err(er) => {
                    return Err(er);
                },
            };
            match engine::lf_collect(lf) {
                Result::Ok(df) => Ok(df),
                Result::Err(msg) => Err(
                    BridgeError::Execution(
                        "Failed to collect LazyFrame: ".to_owned().concat(msg.as_str()),
                    ),
                ),
            }
        },
    }
}

/// Serializes a table into the self-describing binary columnar container.
pub fn df_to_ipc(df: &polars::prelude::DataFrame) -> (r: Result<Vec<u8>, BridgeError>)
    ensures
        r matches Err(er) ==> er@ is Execution,
{
    match engine::df_write_ipc(df) {
        Result::Ok(b) => Ok(b),
        Result::Err(msg) => Err(
            BridgeError::Execution(
                "Failed to serialize to IPC: ".to_owned().concat(msg.as_str()),
            ),
        ),
    }
}

/// Reads a table back from the binary columnar container.
pub fn df_from_ipc(bytes: &Vec<u8>) -> (r: Result<polars::prelude::DataFrame, BridgeError>)
    ensures
        r matches Err(er) ==> er@ is Execution,
{
    match engine::df_read_ipc(bytes) {
        Result::Ok(df) => Ok(df),
        Result::Err(msg) => Err(
            BridgeError::Execution("Failed to read IPC: ".to_owned().concat(msg.as_str())),
        ),
    }
}

/// Executes a plan without a seed table and returns the result serialized
/// in the binary columnar container.
pub fn execute_plan(plan: &Plan) -> (r: Result<Vec<u8>, BridgeError>)
    ensures
        r is Ok ==> plan_flaw(plan@, false) is None,
        r matches Err(er) ==> er@ is Execution || plan_flaw(plan@, false) == Option::Some(er@),
        !plan_has_csv(plan@) && plan_flaw(plan@, false) is Some ==> (r matches Err(er)
            && plan_flaw(plan@, false) == Option::Some(er@)),
{
    let df = match execute_plan_df(plan, Option::None) {
        Result::Ok(df) => df,
        Result::Err(er) => {
            return Err(er);
        },
    };
    df_to_ipc(&df)
}

} // verus!
