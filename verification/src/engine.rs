//! The columnar engine boundary: declarations of the engine's opaque types
//! and one small trusted wrapper per engine call the translator relies on.
//! What the engine computes is opaque to the proofs; what the translator
//! *built* is not: every constructor returns its result paired with a ghost
//! model naming the constructor applied and the plain parameters given, and
//! its contract fixes that model.

use vstd::prelude::*;
use polars::prelude::{SerReader, SerWriter, LazyFileListReader, IntoLazy, NamedFrom};
use crate::native::{NativeDtype, NativeExpr, NativeOp, NativeQuery, NativeType, NexprV, QueryV,
    nexprs_view};

verus! {

#[verifier::external_type_specification]
#[verifier::external_body]
pub struct ExPlExpr(polars::prelude::Expr);

#[verifier::external_type_specification]
#[verifier::external_body]
pub struct ExLazyFrame(polars::prelude::LazyFrame);

#[verifier::external_type_specification]
#[verifier::external_body]
pub struct ExDataFrame(polars::prelude::DataFrame);

#[verifier::external_type_specification]
#[verifier::external_body]
pub struct ExColumn(polars::prelude::Column);

#[verifier::external_type_specification]
#[verifier::external_body]
pub struct ExPolarsError(polars::prelude::PolarsError);

#[verifier::external_type_specification]
#[verifier::external_body]
pub struct ExDataType(polars::prelude::DataType);

// ---------------------------------------------------------------------------
// Scalar expression constructors.
// ---------------------------------------------------------------------------

/// Relies on polars' col: a reference to a column by name ("*" being the
/// wildcard).
#[verifier::external_body]
pub(crate) fn pl_col(name: &str) -> (r: NativeExpr)
    ensures
        r@ == NexprV::Column(name@),
{
    NativeExpr { expr: polars::prelude::col(name), model: Ghost(NexprV::Column(name@)) }
}

/// Relies on polars' lit over i64.
#[verifier::external_body]
pub(crate) fn pl_lit_i64(v: i64) -> (r: NativeExpr)
    ensures
        r@ == NexprV::LitI64(v),
{
    NativeExpr { expr: polars::prelude::lit(v), model: Ghost(NexprV::LitI64(v)) }
}

/// Relies on polars' lit over bool.
#[verifier::external_body]
pub(crate) fn pl_lit_bool(v: bool) -> (r: NativeExpr)
    ensures
        r@ == NexprV::LitBool(v),
{
    NativeExpr { expr: polars::prelude::lit(v), model: Ghost(NexprV::LitBool(v)) }
}

/// Relies on polars' lit over string slices.
#[verifier::external_body]
pub(crate) fn pl_lit_str(v: &str) -> (r: NativeExpr)
    ensures
        r@ == NexprV::LitStr(v@),
{
    NativeExpr { expr: polars::prelude::lit(v), model: Ghost(NexprV::LitStr(v@)) }
}

/// Relies on polars' lit over NULL: the untyped null literal.
#[verifier::external_body]
pub(crate) fn pl_lit_null() -> (r: NativeExpr)
    ensures
        r@ == NexprV::LitNull,
{
    NativeExpr { expr: polars::prelude::lit(polars::prelude::NULL), model: Ghost(NexprV::LitNull) }
}

/// Relies on polars' col("*"): the wildcard selecting all columns.
#[verifier::external_body]
pub(crate) fn pl_wildcard() -> (r: NativeExpr)
    ensures
        r@ == NexprV::Column("*"@),
{
    NativeExpr { expr: polars::prelude::col("*"), model: Ghost(NexprV::Column("*"@)) }
}

// ---------------------------------------------------------------------------
// Binary operators.
// ---------------------------------------------------------------------------

/// Relies on polars' Add for Expr.
#[verifier::external_body]
pub(crate) fn pl_add(l: NativeExpr, r: NativeExpr) -> (res: NativeExpr)
    ensures
        res@ == NexprV::Binary(NativeOp::Add, Box::new(l@), Box::new(r@)),
{
    let m = Ghost(NexprV::Binary(NativeOp::Add, Box::new(l@), Box::new(r@)));
    NativeExpr { expr: l.expr + r.expr, model: m }
}

/// Relies on polars' Sub for Expr.
#[verifier::external_body]
pub(crate) fn pl_sub(l: NativeExpr, r: NativeExpr) -> (res: NativeExpr)
    ensures
        res@ == NexprV::Binary(NativeOp::Sub, Box::new(l@), Box::new(r@)),
{
    let m = Ghost(NexprV::Binary(NativeOp::Sub, Box::new(l@), Box::new(r@)));
    NativeExpr { expr: l.expr - r.expr, model: m }
}

/// Relies on polars' Mul for Expr.
#[verifier::external_body]
pub(crate) fn pl_mul(l: NativeExpr, r: NativeExpr) -> (res: NativeExpr)
    ensures
        res@ == NexprV::Binary(NativeOp::Mul, Box::new(l@), Box::new(r@)),
{
    let m = Ghost(NexprV::Binary(NativeOp::Mul, Box::new(l@), Box::new(r@)));
    NativeExpr { expr: l.expr * r.expr, model: m }
}

/// Relies on polars' Div for Expr.
#[verifier::external_body]
pub(crate) fn pl_div(l: NativeExpr, r: NativeExpr) -> (res: NativeExpr)
    ensures
        res@ == NexprV::Binary(NativeOp::Div, Box::new(l@), Box::new(r@)),
{
    let m = Ghost(NexprV::Binary(NativeOp::Div, Box::new(l@), Box::new(r@)));
    NativeExpr { expr: l.expr / r.expr, model: m }
}

/// Relies on polars' Rem for Expr.
#[verifier::external_body]
pub(crate) fn pl_rem(l: NativeExpr, r: NativeExpr) -> (res: NativeExpr)
    ensures
        res@ == NexprV::Binary(NativeOp::Rem, Box::new(l@), Box::new(r@)),
{
    let m = Ghost(NexprV::Binary(NativeOp::Rem, Box::new(l@), Box::new(r@)));
    NativeExpr { expr: l.expr % r.expr, model: m }
}

/// Relies on polars' Expr::pow.
#[verifier::external_body]
pub(crate) fn pl_pow(l: NativeExpr, r: NativeExpr) -> (res: NativeExpr)
    ensures
        res@ == NexprV::Binary(NativeOp::Pow, Box::new(l@), Box::new(r@)),
{
    let m = Ghost(NexprV::Binary(NativeOp::Pow, Box::new(l@), Box::new(r@)));
    NativeExpr { expr: l.expr.pow(r.expr), model: m }
}

/// Relies on polars' Expr::eq.
#[verifier::external_body]
pub(crate) fn pl_eq(l: NativeExpr, r: NativeExpr) -> (res: NativeExpr)
    ensures
        res@ == NexprV::Binary(NativeOp::Eq, Box::new(l@), Box::new(r@)),
{
    let m = Ghost(NexprV::Binary(NativeOp::Eq, Box::new(l@), Box::new(r@)));
    NativeExpr { expr: l.expr.eq(r.expr), model: m }
}

/// Relies on polars' Expr::neq.
#[verifier::external_body]
pub(crate) fn pl_neq(l: NativeExpr, r: NativeExpr) -> (res: NativeExpr)
    ensures
        res@ == NexprV::Binary(NativeOp::Ne, Box::new(l@), Box::new(r@)),
{
    let m = Ghost(NexprV::Binary(NativeOp::Ne, Box::new(l@), Box::new(r@)));
    NativeExpr { expr: l.expr.neq(r.expr), model: m }
}

/// Relies on polars' Expr::lt.
#[verifier::external_body]
pub(crate) fn pl_lt(l: NativeExpr, r: NativeExpr) -> (res: NativeExpr)
    ensures
        res@ == NexprV::Binary(NativeOp::Lt, Box::new(l@), Box::new(r@)),
{
    let m = Ghost(NexprV::Binary(NativeOp::Lt, Box::new(l@), Box::new(r@)));
    NativeExpr { expr: l.expr.lt(r.expr), model: m }
}

/// Relies on polars' Expr::lt_eq.
#[verifier::external_body]
pub(crate) fn pl_lt_eq(l: NativeExpr, r: NativeExpr) -> (res: NativeExpr)
    ensures
        res@ == NexprV::Binary(NativeOp::Le, Box::new(l@), Box::new(r@)),
{
    let m = Ghost(NexprV::Binary(NativeOp::Le, Box::new(l@), Box::new(r@)));
    NativeExpr { expr: l.expr.lt_eq(r.expr), model: m }
}

/// Relies on polars' Expr::gt.
#[verifier::external_body]
pub(crate) fn pl_gt(l: NativeExpr, r: NativeExpr) -> (res: NativeExpr)
    ensures
        res@ == NexprV::Binary(NativeOp::Gt, Box::new(l@), Box::new(r@)),
{
    let m = Ghost(NexprV::Binary(NativeOp::Gt, Box::new(l@), Box::new(r@)));
    NativeExpr { expr: l.expr.gt(r.expr), model: m }
}

/// Relies on polars' Expr::gt_eq.
#[verifier::external_body]
pub(crate) fn pl_gt_eq(l: NativeExpr, r: NativeExpr) -> (res: NativeExpr)
    ensures
        res@ == NexprV::Binary(NativeOp::Ge, Box::new(l@), Box::new(r@)),
{
    let m = Ghost(NexprV::Binary(NativeOp::Ge, Box::new(l@), Box::new(r@)));
    NativeExpr { expr: l.expr.gt_eq(r.expr), model: m }
}

/// Relies on polars' Expr::and.
#[verifier::external_body]
pub(crate) fn pl_and(l: NativeExpr, r: NativeExpr) -> (res: NativeExpr)
    ensures
        res@ == NexprV::Binary(NativeOp::And, Box::new(l@), Box::new(r@)),
{
    let m = Ghost(NexprV::Binary(NativeOp::And, Box::new(l@), Box::new(r@)));
    NativeExpr { expr: l.expr.and(r.expr), model: m }
}

/// Relies on polars' Expr::or.
#[verifier::external_body]
pub(crate) fn pl_or(l: NativeExpr, r: NativeExpr) -> (res: NativeExpr)
    ensures
        res@ == NexprV::Binary(NativeOp::Or, Box::new(l@), Box::new(r@)),
{
    let m = Ghost(NexprV::Binary(NativeOp::Or, Box::new(l@), Box::new(r@)));
    NativeExpr { expr: l.expr.or(r.expr), model: m }
}

/// Relies on polars' Expr::xor.
#[verifier::external_body]
pub(crate) fn pl_xor(l: NativeExpr, r: NativeExpr) -> (res: NativeExpr)
    ensures
        res@ == NexprV::Binary(NativeOp::Xor, Box::new(l@), Box::new(r@)),
{
    let m = Ghost(NexprV::Binary(NativeOp::Xor, Box::new(l@), Box::new(r@)));
    NativeExpr { expr: l.expr.xor(r.expr), model: m }
}

// ---------------------------------------------------------------------------
// Unary wrappers and casts.
// ---------------------------------------------------------------------------

/// Relies on polars' Expr::alias.
#[verifier::external_body]
pub(crate) fn pl_alias(e: NativeExpr, name: &str) -> (r: NativeExpr)
    ensures
        r@ == NexprV::Alias(Box::new(e@), name@),
{
    let m = Ghost(NexprV::Alias(Box::new(e@), name@));
    NativeExpr { expr: e.expr.alias(name), model: m }
}

/// Relies on polars' Expr::is_null.
#[verifier::external_body]
pub(crate) fn pl_is_null(e: NativeExpr) -> (r: NativeExpr)
    ensures
        r@ == NexprV::IsNull(Box::new(e@)),
{
    let m = Ghost(NexprV::IsNull(Box::new(e@)));
    NativeExpr { expr: e.expr.is_null(), model: m }
}

/// Relies on polars' Expr::not.
#[verifier::external_body]
pub(crate) fn pl_not(e: NativeExpr) -> (r: NativeExpr)
    ensures
        r@ == NexprV::Not(Box::new(e@)),
{
    let m = Ghost(NexprV::Not(Box::new(e@)));
    NativeExpr { expr: e.expr.not(), model: m }
}

/// Relies on polars' Expr::cast: the best-effort cast, null on failure.
#[verifier::external_body]
pub(crate) fn pl_cast(e: NativeExpr, t: NativeDtype) -> (r: NativeExpr)
    ensures
        r@ == NexprV::Cast(Box::new(e@), t@, false),
{
    let m = Ghost(NexprV::Cast(Box::new(e@), t@, false));
    NativeExpr { expr: e.expr.cast(t.dtype), model: m }
}

/// Relies on polars' Expr::strict_cast: the failing cast.
#[verifier::external_body]
pub(crate) fn pl_strict_cast(e: NativeExpr, t: NativeDtype) -> (r: NativeExpr)
    ensures
        r@ == NexprV::Cast(Box::new(e@), t@, true),
{
    let m = Ghost(NexprV::Cast(Box::new(e@), t@, true));
    NativeExpr { expr: e.expr.strict_cast(t.dtype), model: m }
}

/// Relies on polars' DataType::Int64.
#[verifier::external_body]
pub(crate) fn pl_dtype_int64() -> (r: NativeDtype)
    ensures
        r@ == NativeType::Int64,
{
    NativeDtype { dtype: polars::prelude::DataType::Int64, model: Ghost(NativeType::Int64) }
}

/// Relies on polars' DataType::Int32.
#[verifier::external_body]
pub(crate) fn pl_dtype_int32() -> (r: NativeDtype)
    ensures
        r@ == NativeType::Int32,
{
    NativeDtype { dtype: polars::prelude::DataType::Int32, model: Ghost(NativeType::Int32) }
}

/// Relies on polars' DataType::Int16.
#[verifier::external_body]
pub(crate) fn pl_dtype_int16() -> (r: NativeDtype)
    ensures
        r@ == NativeType::Int16,
{
    NativeDtype { dtype: polars::prelude::DataType::Int16, model: Ghost(NativeType::Int16) }
}

/// Relies on polars' DataType::Int8.
#[verifier::external_body]
pub(crate) fn pl_dtype_int8() -> (r: NativeDtype)
    ensures
        r@ == NativeType::Int8,
{
    NativeDtype { dtype: polars::prelude::DataType::Int8, model: Ghost(NativeType::Int8) }
}

/// Relies on polars' DataType::UInt64.
#[verifier::external_body]
pub(crate) fn pl_dtype_uint64() -> (r: NativeDtype)
    ensures
        r@ == NativeType::UInt64,
{
    NativeDtype { dtype: polars::prelude::DataType::UInt64, model: Ghost(NativeType::UInt64) }
}

/// Relies on polars' DataType::UInt32.
#[verifier::external_body]
pub(crate) fn pl_dtype_uint32() -> (r: NativeDtype)
    ensures
        r@ == NativeType::UInt32,
{
    NativeDtype { dtype: polars::prelude::DataType::UInt32, model: Ghost(NativeType::UInt32) }
}

/// Relies on polars' DataType::UInt16.
#[verifier::external_body]
pub(crate) fn pl_dtype_uint16() -> (r: NativeDtype)
    ensures
        r@ == NativeType::UInt16,
{
    NativeDtype { dtype: polars::prelude::DataType::UInt16, model: Ghost(NativeType::UInt16) }
}

/// Relies on polars' DataType::UInt8.
#[verifier::external_body]
pub(crate) fn pl_dtype_uint8() -> (r: NativeDtype)
    ensures
        r@ == NativeType::UInt8,
{
    NativeDtype { dtype: polars::prelude::DataType::UInt8, model: Ghost(NativeType::UInt8) }
}

/// Relies on polars' DataType::Float64.
#[verifier::external_body]
pub(crate) fn pl_dtype_float64() -> (r: NativeDtype)
    ensures
        r@ == NativeType::Float64,
{
    NativeDtype { dtype: polars::prelude::DataType::Float64, model: Ghost(NativeType::Float64) }
}

/// Relies on polars' DataType::Float32.
#[verifier::external_body]
pub(crate) fn pl_dtype_float32() -> (r: NativeDtype)
    ensures
        r@ == NativeType::Float32,
{
    NativeDtype { dtype: polars::prelude::DataType::Float32, model: Ghost(NativeType::Float32) }
}

/// Relies on polars' DataType::Boolean.
#[verifier::external_body]
pub(crate) fn pl_dtype_bool() -> (r: NativeDtype)
    ensures
        r@ == NativeType::Bool,
{
    NativeDtype { dtype: polars::prelude::DataType::Boolean, model: Ghost(NativeType::Bool) }
}

/// Relies on polars' DataType::String.
#[verifier::external_body]
pub(crate) fn pl_dtype_string() -> (r: NativeDtype)
    ensures
        r@ == NativeType::Str,
{
    NativeDtype { dtype: polars::prelude::DataType::String, model: Ghost(NativeType::Str) }
}

/// Relies on polars' DataType::Date.
#[verifier::external_body]
pub(crate) fn pl_dtype_date() -> (r: NativeDtype)
    ensures
        r@ == NativeType::Date,
{
    NativeDtype { dtype: polars::prelude::DataType::Date, model: Ghost(NativeType::Date) }
}

/// Relies on polars' DataType::Datetime at microsecond precision, no time
/// zone.
#[verifier::external_body]
pub(crate) fn pl_dtype_datetime_us() -> (r: NativeDtype)
    ensures
        r@ == NativeType::DatetimeMicros,
{
    NativeDtype {
        dtype: polars::prelude::DataType::Datetime(polars::prelude::TimeUnit::Microseconds, None),
        model: Ghost(NativeType::DatetimeMicros),
    }
}

/// Relies on polars' DataType::Time.
#[verifier::external_body]
pub(crate) fn pl_dtype_time() -> (r: NativeDtype)
    ensures
        r@ == NativeType::Time,
{
    NativeDtype { dtype: polars::prelude::DataType::Time, model: Ghost(NativeType::Time) }
}

// ---------------------------------------------------------------------------
// The string operation family.
// ---------------------------------------------------------------------------

/// Relies on polars' str().len_bytes.
#[verifier::external_body]
pub(crate) fn pl_str_len_bytes(e: NativeExpr) -> (r: NativeExpr)
    ensures
        r@ == NexprV::StrLenBytes(Box::new(e@)),
{
    let m = Ghost(NexprV::StrLenBytes(Box::new(e@)));
    NativeExpr { expr: e.expr.str().len_bytes(), model: m }
}

/// Relies on polars' str().len_chars.
#[verifier::external_body]
pub(crate) fn pl_str_len_chars(e: NativeExpr) -> (r: NativeExpr)
    ensures
        r@ == NexprV::StrLenChars(Box::new(e@)),
{
    let m = Ghost(NexprV::StrLenChars(Box::new(e@)));
    NativeExpr { expr: e.expr.str().len_chars(), model: m }
}

/// Relies on polars' str().contains_literal.
#[verifier::external_body]
pub(crate) fn pl_str_contains_literal(e: NativeExpr, pattern: &str) -> (r: NativeExpr)
    ensures
        r@ == NexprV::StrContainsLiteral(Box::new(e@), pattern@),
{
    let m = Ghost(NexprV::StrContainsLiteral(Box::new(e@), pattern@));
    NativeExpr { expr: e.expr.str().contains_literal(polars::prelude::lit(pattern)), model: m }
}

/// Relies on polars' str().contains with a strict regular expression.
#[verifier::external_body]
pub(crate) fn pl_str_contains(e: NativeExpr, pattern: &str) -> (r: NativeExpr)
    ensures
        r@ == NexprV::StrContainsRegex(Box::new(e@), pattern@),
{
    let m = Ghost(NexprV::StrContainsRegex(Box::new(e@), pattern@));
    NativeExpr { expr: e.expr.str().contains(polars::prelude::lit(pattern), true), model: m }
}

/// Relies on polars' str().starts_with.
#[verifier::external_body]
pub(crate) fn pl_str_starts_with(e: NativeExpr, prefix: &str) -> (r: NativeExpr)
    ensures
        r@ == NexprV::StrStartsWith(Box::new(e@), prefix@),
{
    let m = Ghost(NexprV::StrStartsWith(Box::new(e@), prefix@));
    NativeExpr { expr: e.expr.str().starts_with(polars::prelude::lit(prefix)), model: m }
}

/// Relies on polars' str().ends_with.
#[verifier::external_body]
pub(crate) fn pl_str_ends_with(e: NativeExpr, suffix: &str) -> (r: NativeExpr)
    ensures
        r@ == NexprV::StrEndsWith(Box::new(e@), suffix@),
{
    let m = Ghost(NexprV::StrEndsWith(Box::new(e@), suffix@));
    NativeExpr { expr: e.expr.str().ends_with(polars::prelude::lit(suffix)), model: m }
}

/// Relies on polars' str().extract.
#[verifier::external_body]
pub(crate) fn pl_str_extract(e: NativeExpr, pattern: &str, group_index: u32) -> (r: NativeExpr)
    ensures
        r@ == NexprV::StrExtract(Box::new(e@), pattern@, group_index),
{
    let m = Ghost(NexprV::StrExtract(Box::new(e@), pattern@, group_index));
    NativeExpr {
        expr: e.expr.str().extract(polars::prelude::lit(pattern), group_index as usize),
        model: m,
    }
}

/// Relies on polars' str().replace.
#[verifier::external_body]
pub(crate) fn pl_str_replace(
    e: NativeExpr,
    pattern: &str,
    value: &str,
    literal: bool,
) -> (r: NativeExpr)
    ensures
        r@ == NexprV::StrReplace(Box::new(e@), pattern@, value@, literal),
{
    let m = Ghost(NexprV::StrReplace(Box::new(e@), pattern@, value@, literal));
    NativeExpr {
        expr: e.expr.str().replace(
            polars::prelude::lit(pattern),
            polars::prelude::lit(value),
            literal,
        ),
        model: m,
    }
}

/// Relies on polars' str().replace_all.
#[verifier::external_body]
pub(crate) fn pl_str_replace_all(
    e: NativeExpr,
    pattern: &str,
    value: &str,
    literal: bool,
) -> (r: NativeExpr)
    ensures
        r@ == NexprV::StrReplaceAll(Box::new(e@), pattern@, value@, literal),
{
    let m = Ghost(NexprV::StrReplaceAll(Box::new(e@), pattern@, value@, literal));
    NativeExpr {
        expr: e.expr.str().replace_all(
            polars::prelude::lit(pattern),
            polars::prelude::lit(value),
            literal,
        ),
        model: m,
    }
}

/// Relies on polars' str().to_lowercase.
#[verifier::external_body]
pub(crate) fn pl_str_to_lowercase(e: NativeExpr) -> (r: NativeExpr)
    ensures
        r@ == NexprV::StrToLowercase(Box::new(e@)),
{
    let m = Ghost(NexprV::StrToLowercase(Box::new(e@)));
    NativeExpr { expr: e.expr.str().to_lowercase(), model: m }
}

/// Relies on polars' str().to_uppercase.
#[verifier::external_body]
pub(crate) fn pl_str_to_uppercase(e: NativeExpr) -> (r: NativeExpr)
    ensures
        r@ == NexprV::StrToUppercase(Box::new(e@)),
{
    let m = Ghost(NexprV::StrToUppercase(Box::new(e@)));
    NativeExpr { expr: e.expr.str().to_uppercase(), model: m }
}

/// Relies on polars' str().strip_chars with an explicit character set.
#[verifier::external_body]
pub(crate) fn pl_str_strip_chars(e: NativeExpr, chars: &str) -> (r: NativeExpr)
    ensures
        r@ == NexprV::StrStripChars(Box::new(e@), chars@),
{
    let m = Ghost(NexprV::StrStripChars(Box::new(e@), chars@));
    NativeExpr { expr: e.expr.str().strip_chars(polars::prelude::lit(chars)), model: m }
}

/// Relies on polars' str().strip_chars with a typed null matcher, which
/// strips whitespace.
#[verifier::external_body]
pub(crate) fn pl_str_strip_whitespace(e: NativeExpr) -> (r: NativeExpr)
    ensures
        r@ == NexprV::StrStripWhitespace(Box::new(e@)),
{
    let m = Ghost(NexprV::StrStripWhitespace(Box::new(e@)));
    NativeExpr {
        expr: e.expr.str().strip_chars(
            polars::prelude::lit(polars::prelude::NULL).cast(polars::prelude::DataType::String),
        ),
        model: m,
    }
}

/// Relies on polars' str().slice with an explicit length.
#[verifier::external_body]
pub(crate) fn pl_str_slice_len(e: NativeExpr, offset: i64, length: u64) -> (r: NativeExpr)
    ensures
        r@ == NexprV::StrSliceLen(Box::new(e@), offset, length),
{
    let m = Ghost(NexprV::StrSliceLen(Box::new(e@), offset, length));
    NativeExpr {
        expr: e.expr.str().slice(polars::prelude::lit(offset), polars::prelude::lit(length)),
        model: m,
    }
}

/// Relies on polars' str().slice with a null length, which runs to the end.
#[verifier::external_body]
pub(crate) fn pl_str_slice_nolen(e: NativeExpr, offset: i64) -> (r: NativeExpr)
    ensures
        r@ == NexprV::StrSliceFrom(Box::new(e@), offset),
{
    let m = Ghost(NexprV::StrSliceFrom(Box::new(e@), offset));
    NativeExpr {
        expr: e.expr.str().slice(
            polars::prelude::lit(offset),
            polars::prelude::lit(polars::prelude::NULL).cast(polars::prelude::DataType::UInt64),
        ),
        model: m,
    }
}

/// Relies on polars' str().split.
#[verifier::external_body]
pub(crate) fn pl_str_split(e: NativeExpr, by: &str) -> (r: NativeExpr)
    ensures
        r@ == NexprV::StrSplit(Box::new(e@), by@),
{
    let m = Ghost(NexprV::StrSplit(Box::new(e@), by@));
    NativeExpr { expr: e.expr.str().split(polars::prelude::lit(by)), model: m }
}

/// Relies on polars' str().pad_start.
#[verifier::external_body]
pub(crate) fn pl_str_pad_start(e: NativeExpr, length: u64, fill_char: char) -> (r: NativeExpr)
    ensures
        r@ == NexprV::StrPadStart(Box::new(e@), length, fill_char),
{
    let m = Ghost(NexprV::StrPadStart(Box::new(e@), length, fill_char));
    NativeExpr { expr: e.expr.str().pad_start(length as usize, fill_char), model: m }
}

/// Relies on polars' str().pad_end.
#[verifier::external_body]
pub(crate) fn pl_str_pad_end(e: NativeExpr, length: u64, fill_char: char) -> (r: NativeExpr)
    ensures
        r@ == NexprV::StrPadEnd(Box::new(e@), length, fill_char),
{
    let m = Ghost(NexprV::StrPadEnd(Box::new(e@), length, fill_char));
    NativeExpr { expr: e.expr.str().pad_end(length as usize, fill_char), model: m }
}

// ---------------------------------------------------------------------------
// Lazy query construction and execution.
// ---------------------------------------------------------------------------

/// Relies on polars' IntoLazy for DataFrame: a lazy query seeded with a
/// copy of this table.
#[verifier::external_body]
pub(crate) fn lf_from_df(df: &polars::prelude::DataFrame) -> (r: NativeQuery)
    ensures
        r@ == QueryV::SeedScan,
{
    NativeQuery { lf: df.clone().lazy(), model: Ghost(QueryV::SeedScan) }
}

/// Relies on polars' LazyCsvReader: a lazily read delimited file source.
#[verifier::external_body]
pub(crate) fn lf_csv_scan(path: &str) -> (r: Result<NativeQuery, String>)
    ensures
        r matches Ok(q) ==> q@ == QueryV::CsvScan(path@),
{
    let lf = polars::prelude::LazyCsvReader::new(path).finish().map_err(|e| format!("{}", e))?;
    Ok(NativeQuery { lf, model: Ghost(QueryV::CsvScan(path@)) })
}

/// Relies on polars' LazyFrame::select: keep exactly these expressions.
#[verifier::external_body]
pub(crate) fn lf_select(q: NativeQuery, exprs: Vec<NativeExpr>) -> (r: NativeQuery)
    ensures
        r@ == QueryV::Select(Box::new(q@), nexprs_view(exprs@)),
{
    let m = Ghost(QueryV::Select(Box::new(q@), nexprs_view(exprs@)));
    let built: Vec<polars::prelude::Expr> = exprs.into_iter().map(|x| x.expr).collect();
    NativeQuery { lf: q.lf.select(&built), model: m }
}

/// Relies on polars' LazyFrame::filter: keep rows where the predicate is
/// true.
#[verifier::external_body]
pub(crate) fn lf_filter(q: NativeQuery, predicate: NativeExpr) -> (r: NativeQuery)
    ensures
        r@ == QueryV::Filter(Box::new(q@), predicate@),
{
    let m = Ghost(QueryV::Filter(Box::new(q@), predicate@));
    NativeQuery { lf: q.lf.filter(predicate.expr), model: m }
}

/// Relies on polars' LazyFrame::with_columns: add or replace columns.
#[verifier::external_body]
pub(crate) fn lf_with_columns(q: NativeQuery, exprs: Vec<NativeExpr>) -> (r: NativeQuery)
    ensures
        r@ == QueryV::WithColumns(Box::new(q@), nexprs_view(exprs@)),
{
    let m = Ghost(QueryV::WithColumns(Box::new(q@), nexprs_view(exprs@)));
    let built: Vec<polars::prelude::Expr> = exprs.into_iter().map(|x| x.expr).collect();
    NativeQuery { lf: q.lf.with_columns(&built), model: m }
}

/// Relies on polars' LazyFrame::limit: keep the first rows.
#[verifier::external_body]
pub(crate) fn lf_limit(q: NativeQuery, n: u32) -> (r: NativeQuery)
    ensures
        r@ == QueryV::Limit(Box::new(q@), n),
{
    let m = Ghost(QueryV::Limit(Box::new(q@), n));
    NativeQuery { lf: q.lf.limit(n), model: m }
}

/// Relies on polars' LazyFrame::collect: run the whole deferred query once.
#[verifier::external_body]
pub(crate) fn lf_collect(q: NativeQuery) -> Result<polars::prelude::DataFrame, String> {
    q.lf.collect().map_err(|e| format!("{}", e))
}

// ---------------------------------------------------------------------------
// Tables.
// ---------------------------------------------------------------------------

/// Relies on polars' Clone for DataFrame.
#[verifier::external_body]
pub(crate) fn df_clone(df: &polars::prelude::DataFrame) -> polars::prelude::DataFrame {
    df.clone()
}

/// Relies on polars' DataFrame::height: the row count.
#[verifier::external_body]
pub(crate) fn df_height(df: &polars::prelude::DataFrame) -> usize {
    df.height()
}

/// Relies on polars' DataFrame::get_column_names.
#[verifier::external_body]
pub(crate) fn df_column_names(df: &polars::prelude::DataFrame) -> Vec<String> {
    df.get_column_names().iter().map(|s| s.to_string()).collect()
}

/// Relies on polars' DataFrame::equals: value equality where null never
/// equals null.
#[verifier::external_body]
pub(crate) fn df_equals(a: &polars::prelude::DataFrame, b: &polars::prelude::DataFrame) -> bool {
    a.equals(b)
}

/// Relies on polars' DataFrame::equals_missing: value equality where null
/// equals null.
#[verifier::external_body]
pub(crate) fn df_equals_missing(
    a: &polars::prelude::DataFrame,
    b: &polars::prelude::DataFrame,
) -> bool {
    a.equals_missing(b)
}

/// Relies on polars' column access and Int64Chunked iteration.
#[verifier::external_body]
pub(crate) fn df_column_i64(
    df: &polars::prelude::DataFrame,
    name: &str,
) -> Result<Vec<Option<i64>>, String> {
    (|| -> polars::prelude::PolarsResult<Vec<Option<i64>>> {
        Ok(df.column(name)?.i64()?.iter().collect())
    })().map_err(|e| format!("{}", e))
}

/// Relies on polars' column access and BooleanChunked iteration.
#[verifier::external_body]
pub(crate) fn df_column_bool(
    df: &polars::prelude::DataFrame,
    name: &str,
) -> Result<Vec<Option<bool>>, String> {
    (|| -> polars::prelude::PolarsResult<Vec<Option<bool>>> {
        Ok(df.column(name)?.bool()?.iter().collect())
    })().map_err(|e| format!("{}", e))
}

/// Relies on polars' column access and StringChunked iteration.
#[verifier::external_body]
pub(crate) fn df_column_str(
    df: &polars::prelude::DataFrame,
    name: &str,
) -> Result<Vec<Option<String>>, String> {
    (|| -> polars::prelude::PolarsResult<Vec<Option<String>>> {
        Ok(df.column(name)?.str()?.iter().map(|v| v.map(|s| s.to_string())).collect())
    })().map_err(|e| format!("{}", e))
}

/// Relies on polars' Series::new over optional i64 values.
#[verifier::external_body]
pub(crate) fn column_i64(name: &str, values: Vec<Option<i64>>) -> polars::prelude::Column {
    polars::prelude::Column::from(polars::prelude::Series::new(name.into(), values.as_slice()))
}

/// Relies on polars' Series::new over optional bool values.
#[verifier::external_body]
pub(crate) fn column_bool(name: &str, values: Vec<Option<bool>>) -> polars::prelude::Column {
    polars::prelude::Column::from(polars::prelude::Series::new(name.into(), values.as_slice()))
}

/// Relies on polars' Series::new over optional string values.
#[verifier::external_body]
pub(crate) fn column_str(name: &str, values: Vec<Option<String>>) -> polars::prelude::Column {
    polars::prelude::Column::from(polars::prelude::Series::new(name.into(), values.as_slice()))
}

/// Relies on polars' DataFrame::new over a list of columns.
#[verifier::external_body]
pub(crate) fn df_new(
    columns: Vec<polars::prelude::Column>,
) -> Result<polars::prelude::DataFrame, String> {
    polars::prelude::DataFrame::new(columns).map_err(|e| format!("{}", e))
}

// ---------------------------------------------------------------------------
// Serialized interchange.
// ---------------------------------------------------------------------------

/// Relies on polars' IpcWriter: the self-describing binary columnar
/// container.
#[verifier::external_body]
pub(crate) fn df_write_ipc(df: &polars::prelude::DataFrame) -> Result<Vec<u8>, String> {
    let mut out: Vec<u8> = Vec::new();
    let mut copy = df.clone();
    polars::prelude::IpcWriter::new(&mut out).finish(&mut copy).map_err(|e| format!("{}", e))?;
    Ok(out)
}

/// Relies on polars' IpcReader: reads the same container back into a table.
#[verifier::external_body]
pub(crate) fn df_read_ipc(bytes: &Vec<u8>) -> Result<polars::prelude::DataFrame, String> {
    polars::prelude::IpcReader::new(std::io::Cursor::new(bytes.as_slice()))
        .finish()
        .map_err(|e| format!("{}", e))
}

} // verus!
