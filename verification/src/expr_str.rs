//! Translation of the string operation family: each operation builds its
//! subject expression recursively, then applies the named engine operation
//! with parameters taken from the plan tree. A clean expression builds
//! exactly its intended translation.

use vstd::prelude::*;
use crate::engine;
use crate::error::{BridgeError, ErrView};
use crate::executor::build_expr;
use crate::native::{NativeExpr, expr_interp, opt_expr_interp};
use crate::plan::{ExprIr, opt_expr_view, opt_expr_flaw, expr_flaw, pad_flaw, is_string_kind};
use vstd::string::{StrSliceExecFns, StringExecFns};

verus! {

/// Builds the subject of a string operation, reporting the operation's name
/// when the subject is missing.
pub(crate) fn build_inner_expr(e: &Option<Box<ExprIr>>, name: &str) -> (r: Result<
    NativeExpr,
    BridgeError,
>)
    ensures
        r is Ok <==> opt_expr_flaw(opt_expr_view(*e), name@) is None,
        r matches Ok(v) ==> v@ == opt_expr_interp(opt_expr_view(*e)),
        r matches Err(er) ==> opt_expr_flaw(opt_expr_view(*e), name@) == Option::Some(er@),
    decreases *e, 0int,
{
    match e {
        Option::None => Err(
            BridgeError::PlanSemantic(name.to_owned().concat(" has no expr")),
        ),
        Option::Some(b) => build_expr(&**b),
    }
}

/// Checks that a fill string holds exactly one character and yields it;
/// anything else is an invalid argument naming the operation.
fn parse_fill_char(value: &str, name: &str) -> (r: Result<char, BridgeError>)
    ensures
        match r {
            Result::Ok(c) => value@.len() == 1 && c == value@[0],
            Result::Err(er) => value@.len() != 1 && (if value@.len() == 0 {
                er@ == ErrView::InvalidArgument(name@ + " fill_char cannot be empty"@)
            } else {
                er@ == ErrView::InvalidArgument(name@ + " fill_char must be a single character"@)
            }),
        },
{
    let n = value.unicode_len();
    if n == 0 {
        Err(BridgeError::InvalidArgument(name.to_owned().concat(" fill_char cannot be empty")))
    } else if n > 1 {
        Err(
            BridgeError::InvalidArgument(
                name.to_owned().concat(" fill_char must be a single character"),
            ),
        )
    } else {
        Ok(value.get_char(0))
    }
}

/// Translates one string-family expression, or reports that the expression
/// is not a string operation at all.
#[verifier::rlimit(100)]
pub fn build_string_expr(e: &ExprIr) -> (r: Option<Result<NativeExpr, BridgeError>>)
    ensures
        match r {
            Option::None => !is_string_kind(e@),
            Option::Some(inner) => is_string_kind(e@) && (match inner {
                Result::Ok(v) => expr_flaw(e@) is None && v@ == expr_interp(e@),
                Result::Err(er) => expr_flaw(e@) == Option::Some(er@),
            }),
        },
    decreases *e, 1int,
{
    match e {
        ExprIr::StrLenBytes { expr } => {
            let res = match build_inner_expr(expr, "StrLenBytes") {
                Result::Ok(inner) => Result::Ok(engine::pl_str_len_bytes(inner)),
                Result::Err(er) => Result::Err(er),
            };
            proof {
                assert(is_string_kind(e@));
                assert(match res {
                    Result::Ok(v) => expr_flaw(e@) is None && v@ == expr_interp(e@),
                    Result::Err(er) => expr_flaw(e@) == Option::Some(er@),
                });
            }
            Option::Some(res)
        },
        ExprIr::StrLenChars { expr } => {
            let res = match build_inner_expr(expr, "StrLenChars") {
                Result::Ok(inner) => Result::Ok(engine::pl_str_len_chars(inner)),
                Result::Err(er) => Result::Err(er),
            };
            proof {
                assert(is_string_kind(e@));
                assert(match res {
                    Result::Ok(v) => expr_flaw(e@) is None && v@ == expr_interp(e@),
                    Result::Err(er) => expr_flaw(e@) == Option::Some(er@),
                });
            }
            Option::Some(res)
        },
        ExprIr::StrContains { expr, pattern, literal } => {
            let res = match build_inner_expr(expr, "StrContains") {
                Result::Ok(inner) => Result::Ok(
                    if *literal {
                        engine::pl_str_contains_literal(inner, pattern.as_str())
                    } else {
                        engine::pl_str_contains(inner, pattern.as_str())
                    },
                ),
                Result::Err(er) => Result::Err(er),
            };
            proof {
                assert(is_string_kind(e@));
                assert(match res {
                    Result::Ok(v) => expr_flaw(e@) is None && v@ == expr_interp(e@),
                    Result::Err(er) => expr_flaw(e@) == Option::Some(er@),
                });
            }
            Option::Some(res)
        },
        ExprIr::StrStartsWith { expr, prefix } => {
            let res = match build_inner_expr(expr, "StrStartsWith") {
                Result::Ok(inner) => Result::Ok(
                    engine::pl_str_starts_with(inner, prefix.as_str()),
                ),
                Result::Err(er) => Result::Err(er),
            };
            proof {
                assert(is_string_kind(e@));
                assert(match res {
                    Result::Ok(v) => expr_flaw(e@) is None && v@ == expr_interp(e@),
                    Result::Err(er) => expr_flaw(e@) == Option::Some(er@),
                });
            }
            Option::Some(res)
        },
        ExprIr::StrEndsWith { expr, suffix } => {
            let res = match build_inner_expr(expr, "StrEndsWith") {
                Result::Ok(inner) => Result::Ok(engine::pl_str_ends_with(inner, suffix.as_str())),
                Result::Err(er) => Result::Err(er),
            };
            proof {
                assert(is_string_kind(e@));
                assert(match res {
                    Result::Ok(v) => expr_flaw(e@) is None && v@ == expr_interp(e@),
                    Result::Err(er) => expr_flaw(e@) == Option::Some(er@),
                });
            }
            Option::Some(res)
        },
        ExprIr::StrExtract { expr, pattern, group_index } => {
            let res = match build_inner_expr(expr, "StrExtract") {
                Result::Ok(inner) => Result::Ok(
                    engine::pl_str_extract(inner, pattern.as_str(), *group_index),
                ),
                Result::Err(er) => Result::Err(er),
            };
            proof {
                assert(is_string_kind(e@));
                assert(match res {
                    Result::Ok(v) => expr_flaw(e@) is None && v@ == expr_interp(e@),
                    Result::Err(er) => expr_flaw(e@) == Option::Some(er@),
                });
            }
            Option::Some(res)
        },
        ExprIr::StrReplace { expr, pattern, value, literal } => {
            let res = match build_inner_expr(expr, "StrReplace") {
                Result::Ok(inner) => Result::Ok(
                    engine::pl_str_replace(inner, pattern.as_str(), value.as_str(), *literal),
                ),
                Result::Err(er) => Result::Err(er),
            };
            proof {
                assert(is_string_kind(e@));
                assert(match res {
                    Result::Ok(v) => expr_flaw(e@) is None && v@ == expr_interp(e@),
                    Result::Err(er) => expr_flaw(e@) == Option::Some(er@),
                });
            }
            Option::Some(res)
        },
        ExprIr::StrReplaceAll { expr, pattern, value, literal } => {
            let res = match build_inner_expr(expr, "StrReplaceAll") {
                Result::Ok(inner) => Result::Ok(
                    engine::pl_str_replace_all(inner, pattern.as_str(), value.as_str(), *literal),
                ),
                Result::Err(er) => Result::Err(er),
            };
            proof {
                assert(is_string_kind(e@));
                assert(match res {
                    Result::Ok(v) => expr_flaw(e@) is None && v@ == expr_interp(e@),
                    Result::Err(er) => expr_flaw(e@) == Option::Some(er@),
                });
            }
            Option::Some(res)
        },
        ExprIr::StrToLowercase { expr } => {
            let res = match build_inner_expr(expr, "StrToLowercase") {
                Result::Ok(inner) => Result::Ok(engine::pl_str_to_lowercase(inner)),
                Result::Err(er) => Result::Err(er),
            };
            proof {
                assert(is_string_kind(e@));
                assert(match res {
                    Result::Ok(v) => expr_flaw(e@) is None && v@ == expr_interp(e@),
                    Result::Err(er) => expr_flaw(e@) == Option::Some(er@),
                });
            }
            Option::Some(res)
        },
        ExprIr::StrToUppercase { expr } => {
            let res = match build_inner_expr(expr, "StrToUppercase") {
                Result::Ok(inner) => Result::Ok(engine::pl_str_to_uppercase(inner)),
                Result::Err(er) => Result::Err(er),
            };
            proof {
                assert(is_string_kind(e@));
                assert(match res {
                    Result::Ok(v) => expr_flaw(e@) is None && v@ == expr_interp(e@),
                    Result::Err(er) => expr_flaw(e@) == Option::Some(er@),
                });
            }
            Option::Some(res)
        },
        ExprIr::StrStripChars { expr, chars } => {
            let res = match build_inner_expr(expr, "StrStripChars") {
                Result::Ok(inner) => Result::Ok(
                    if chars.as_str().is_empty() {
                        engine::pl_str_strip_whitespace(inner)
                    } else {
                        engine::pl_str_strip_chars(inner, chars.as_str())
                    },
                ),
                Result::Err(er) => Result::Err(er),
            };
            proof {
                assert(is_string_kind(e@));
                assert(match res {
                    Result::Ok(v) => expr_flaw(e@) is None && v@ == expr_interp(e@),
                    Result::Err(er) => expr_flaw(e@) == Option::Some(er@),
                });
            }
            Option::Some(res)
        },
        ExprIr::StrSlice { expr, offset, length } => {
            let res = match build_inner_expr(expr, "StrSlice") {
                Result::Ok(inner) => Result::Ok(
                    match length {
                        Option::Some(l) => engine::pl_str_slice_len(inner, *offset, *l),
                        Option::None => engine::pl_str_slice_nolen(inner, *offset),
                    },
                ),
                Result::Err(er) => Result::Err(er),
            };
            proof {
                assert(is_string_kind(e@));
                assert(match res {
                    Result::Ok(v) => expr_flaw(e@) is None && v@ == expr_interp(e@),
                    Result::Err(er) => expr_flaw(e@) == Option::Some(er@),
                });
            }
            Option::Some(res)
        },
        ExprIr::StrSplit { expr, by } => {
            let res = match build_inner_expr(expr, "StrSplit") {
                Result::Ok(inner) => Result::Ok(engine::pl_str_split(inner, by.as_str())),
                Result::Err(er) => Result::Err(er),
            };
            proof {
                assert(is_string_kind(e@));
                assert(match res {
                    Result::Ok(v) => expr_flaw(e@) is None && v@ == expr_interp(e@),
                    Result::Err(er) => expr_flaw(e@) == Option::Some(er@),
                });
            }
            Option::Some(res)
        },
        ExprIr::StrPadStart { expr, length, fill_char } => {
            let res = match build_inner_expr(expr, "StrPadStart") {
                Result::Ok(inner) => match parse_fill_char(fill_char.as_str(), "StrPadStart") {
                    Result::Ok(c) => Result::Ok(engine::pl_str_pad_start(inner, *length, c)),
                    Result::Err(er) => Result::Err(er),
                },
                Result::Err(er) => Result::Err(er),
            };
            proof {
                assert(expr_flaw(e@) == pad_flaw(opt_expr_view(*expr), fill_char@, "StrPadStart"@));
                assert(is_string_kind(e@));
                assert(match res {
                    Result::Ok(v) => expr_flaw(e@) is None && v@ == expr_interp(e@),
                    Result::Err(er) => expr_flaw(e@) == Option::Some(er@),
                });
            }
            Option::Some(res)
        },
        ExprIr::StrPadEnd { expr, length, fill_char } => {
            let res = match build_inner_expr(expr, "StrPadEnd") {
                Result::Ok(inner) => match parse_fill_char(fill_char.as_str(), "StrPadEnd") {
                    Result::Ok(c) => Result::Ok(engine::pl_str_pad_end(inner, *length, c)),
                    Result::Err(er) => Result::Err(er),
                },
                Result::Err(er) => Result::Err(er),
            };
            proof {
                assert(expr_flaw(e@) == pad_flaw(opt_expr_view(*expr), fill_char@, "StrPadEnd"@));
                assert(is_string_kind(e@));
                assert(match res {
                    Result::Ok(v) => expr_flaw(e@) is None && v@ == expr_interp(e@),
                    Result::Err(er) => expr_flaw(e@) == Option::Some(er@),
                });
            }
            Option::Some(res)
        },
        _ => {
            proof {
                match e {
                    ExprIr::Col { .. } => assert(!is_string_kind(e@)),
                    ExprIr::Lit { .. } => assert(!is_string_kind(e@)),
                    ExprIr::Binary { .. } => assert(!is_string_kind(e@)),
                    ExprIr::Alias { .. } => assert(!is_string_kind(e@)),
                    ExprIr::IsNull { .. } => assert(!is_string_kind(e@)),
                    ExprIr::Not { .. } => assert(!is_string_kind(e@)),
                    ExprIr::Wildcard => assert(!is_string_kind(e@)),
                    ExprIr::Exclude { .. } => assert(!is_string_kind(e@)),
                    ExprIr::Cast { .. } => assert(!is_string_kind(e@)),
                    _ => {},
                }
            }
            Option::None
        },
    }
}


} // verus!
