//! The model of what the translator builds. An engine expression or query
//! is opaque, so each one travels together with a ghost model naming the
//! constructor that built it and the plain parameters it was given. The
//! `*_interp` functions state the intended translation of a flaw-free plan
//! tree; the translator's contracts tie what it builds to them exactly.

use vstd::prelude::*;
use crate::plan::{ExprV, LitV, NodeV};

verus! {

/// A native binary operator, as the engine applies it.
pub ghost enum NativeOp {
    Add,
    Sub,
    Mul,
    Div,
    Rem,
    Pow,
    Eq,
    Ne,
    Lt,
    Le,
    Gt,
    Ge,
    And,
    Or,
    Xor,
}

/// A native scalar type, as the engine casts to it.
pub ghost enum NativeType {
    Int64,
    Int32,
    Int16,
    Int8,
    UInt64,
    UInt32,
    UInt16,
    UInt8,
    Float64,
    Float32,
    Bool,
    Str,
    Date,
    DatetimeMicros,
    Time,
}

/// The model of a built native expression: which engine constructor was
/// applied, with which plain parameters. A column reference named "*" is
/// the engine's wildcard.
pub ghost enum NexprV {
    Column(Seq<char>),
    LitI64(i64),
    LitBool(bool),
    LitStr(Seq<char>),
    LitNull,
    Binary(NativeOp, Box<NexprV>, Box<NexprV>),
    Alias(Box<NexprV>, Seq<char>),
    IsNull(Box<NexprV>),
    Not(Box<NexprV>),
    Cast(Box<NexprV>, NativeType, bool),
    StrLenBytes(Box<NexprV>),
    StrLenChars(Box<NexprV>),
    StrContainsLiteral(Box<NexprV>, Seq<char>),
    StrContainsRegex(Box<NexprV>, Seq<char>),
    StrStartsWith(Box<NexprV>, Seq<char>),
    StrEndsWith(Box<NexprV>, Seq<char>),
    StrExtract(Box<NexprV>, Seq<char>, u32),
    StrReplace(Box<NexprV>, Seq<char>, Seq<char>, bool),
    StrReplaceAll(Box<NexprV>, Seq<char>, Seq<char>, bool),
    StrToLowercase(Box<NexprV>),
    StrToUppercase(Box<NexprV>),
    StrStripChars(Box<NexprV>, Seq<char>),
    StrStripWhitespace(Box<NexprV>),
    StrSliceLen(Box<NexprV>, i64, u64),
    StrSliceFrom(Box<NexprV>, i64),
    StrSplit(Box<NexprV>, Seq<char>),
    StrPadStart(Box<NexprV>, u64, char),
    StrPadEnd(Box<NexprV>, u64, char),
}

/// The model of a built lazy query: which engine operations were chained,
/// over which source. The seed scan stands for the one caller-supplied
/// table the interpreter was handed.
pub ghost enum QueryV {
    SeedScan,
    CsvScan(Seq<char>),
    Select(Box<QueryV>, Seq<NexprV>),
    Filter(Box<QueryV>, NexprV),
    WithColumns(Box<QueryV>, Seq<NexprV>),
    Limit(Box<QueryV>, u32),
}

/// An engine expression paired with the model of how it was built.
pub struct NativeExpr {
    pub(crate) expr: polars::prelude::Expr,
    pub(crate) model: Ghost<NexprV>,
}

impl View for NativeExpr {
    type V = NexprV;

    closed spec fn view(&self) -> NexprV {
        self.model@
    }
}

/// An engine scalar type paired with the model of which type it is.
pub struct NativeDtype {
    pub(crate) dtype: polars::prelude::DataType,
    pub(crate) model: Ghost<NativeType>,
}

impl View for NativeDtype {
    type V = NativeType;

    closed spec fn view(&self) -> NativeType {
        self.model@
    }
}

/// A lazy engine query paired with the model of how it was built.
pub struct NativeQuery {
    pub(crate) lf: polars::prelude::LazyFrame,
    pub(crate) model: Ghost<QueryV>,
}

impl View for NativeQuery {
    type V = QueryV;

    closed spec fn view(&self) -> QueryV {
        self.model@
    }
}

/// The models of a list of built expressions, in order.
pub open spec fn nexprs_view(s: Seq<NativeExpr>) -> Seq<NexprV> {
    s.map_values(|x: NativeExpr| x@)
}

/// The native operator a wire operator code stands for. Codes outside the
/// enumerated set never translate, so their value here is never relied on.
pub open spec fn op_interp(op: u32) -> NativeOp {
    if op == 1 {
        NativeOp::Add
    } else if op == 2 {
        NativeOp::Sub
    } else if op == 3 {
        NativeOp::Mul
    } else if op == 4 {
        NativeOp::Div
    } else if op == 5 {
        NativeOp::Rem
    } else if op == 6 {
        NativeOp::Pow
    } else if op == 7 {
        NativeOp::Eq
    } else if op == 8 {
        NativeOp::Ne
    } else if op == 9 {
        NativeOp::Lt
    } else if op == 10 {
        NativeOp::Le
    } else if op == 11 {
        NativeOp::Gt
    } else if op == 12 {
        NativeOp::Ge
    } else if op == 13 {
        NativeOp::And
    } else if op == 14 {
        NativeOp::Or
    } else {
        NativeOp::Xor
    }
}

/// The native scalar type a wire type tag stands for. Tags outside the
/// enumerated set never translate, so their value here is never relied on.
pub open spec fn dtype_interp(t: u32) -> NativeType {
    if t == 1 {
        NativeType::Int64
    } else if t == 2 {
        NativeType::Int32
    } else if t == 3 {
        NativeType::Int16
    } else if t == 4 {
        NativeType::Int8
    } else if t == 5 {
        NativeType::UInt64
    } else if t == 6 {
        NativeType::UInt32
    } else if t == 7 {
        NativeType::UInt16
    } else if t == 8 {
        NativeType::UInt8
    } else if t == 9 {
        NativeType::Float64
    } else if t == 10 {
        NativeType::Float32
    } else if t == 11 {
        NativeType::Bool
    } else if t == 12 {
        NativeType::Str
    } else if t == 13 {
        NativeType::Date
    } else if t == 14 {
        NativeType::DatetimeMicros
    } else {
        NativeType::Time
    }
}

/// The native literal a wire literal stands for. A float literal never
/// translates, so its value here is never relied on.
pub open spec fn lit_interp(l: LitV) -> NexprV {
    match l {
        LitV::IntVal(v) => NexprV::LitI64(v),
        LitV::FloatBits(_) => NexprV::LitNull,
        LitV::BoolVal(v) => NexprV::LitBool(v),
        LitV::StringVal(s) => NexprV::LitStr(s),
        LitV::NullVal => NexprV::LitNull,
    }
}

/// The intended translation of an expression tree. On a tree with a flaw
/// the value is unconstrained — such a tree never translates — and the
/// arms for flawed shapes carry placeholders.
pub open spec fn expr_interp(e: ExprV) -> NexprV
    decreases e, 2int,
{
    match e {
        ExprV::Col { name } => NexprV::Column(name),
        ExprV::Lit { value } => match value {
            Option::None => NexprV::LitNull,
            Option::Some(l) => lit_interp(l),
        },
        ExprV::Binary { op, left, right } => NexprV::Binary(
            op_interp(op),
            Box::new(opt_expr_interp(left)),
            Box::new(opt_expr_interp(right)),
        ),
        ExprV::Alias { expr, name } => NexprV::Alias(Box::new(opt_expr_interp(expr)), name),
        ExprV::IsNull { expr } => NexprV::IsNull(Box::new(opt_expr_interp(expr))),
        ExprV::Not { expr } => NexprV::Not(Box::new(opt_expr_interp(expr))),
        ExprV::Wildcard => NexprV::Column("*"@),
        ExprV::Exclude { .. } => NexprV::LitNull,
        ExprV::Cast { expr, data_type, strict } => NexprV::Cast(
            Box::new(opt_expr_interp(expr)),
            dtype_interp(data_type),
            strict,
        ),
        ExprV::StrLenBytes { expr } => NexprV::StrLenBytes(Box::new(opt_expr_interp(expr))),
        ExprV::StrLenChars { expr } => NexprV::StrLenChars(Box::new(opt_expr_interp(expr))),
        ExprV::StrContains { expr, pattern, literal } => if literal {
            NexprV::StrContainsLiteral(Box::new(opt_expr_interp(expr)), pattern)
        } else {
            NexprV::StrContainsRegex(Box::new(opt_expr_interp(expr)), pattern)
        },
        ExprV::StrStartsWith { expr, prefix } => NexprV::StrStartsWith(
            Box::new(opt_expr_interp(expr)),
            prefix,
        ),
        ExprV::StrEndsWith { expr, suffix } => NexprV::StrEndsWith(
            Box::new(opt_expr_interp(expr)),
            suffix,
        ),
        ExprV::StrExtract { expr, pattern, group_index } => NexprV::StrExtract(
            Box::new(opt_expr_interp(expr)),
            pattern,
            group_index,
        ),
        ExprV::StrReplace { expr, pattern, value, literal } => NexprV::StrReplace(
            Box::new(opt_expr_interp(expr)),
            pattern,
            value,
            literal,
        ),
        ExprV::StrReplaceAll { expr, pattern, value, literal } => NexprV::StrReplaceAll(
            Box::new(opt_expr_interp(expr)),
            pattern,
            value,
            literal,
        ),
        ExprV::StrToLowercase { expr } => NexprV::StrToLowercase(
            Box::new(opt_expr_interp(expr)),
        ),
        ExprV::StrToUppercase { expr } => NexprV::StrToUppercase(
            Box::new(opt_expr_interp(expr)),
        ),
        ExprV::StrStripChars { expr, chars } => if chars.len() == 0 {
            NexprV::StrStripWhitespace(Box::new(opt_expr_interp(expr)))
        } else {
            NexprV::StrStripChars(Box::new(opt_expr_interp(expr)), chars)
        },
        ExprV::StrSlice { expr, offset, length } => match length {
            Option::Some(l) => NexprV::StrSliceLen(Box::new(opt_expr_interp(expr)), offset, l),
            Option::None => NexprV::StrSliceFrom(Box::new(opt_expr_interp(expr)), offset),
        },
        ExprV::StrSplit { expr, by } => NexprV::StrSplit(Box::new(opt_expr_interp(expr)), by),
        ExprV::StrPadStart { expr, length, fill_char } => NexprV::StrPadStart(
            Box::new(opt_expr_interp(expr)),
            length,
            if fill_char.len() == 1 {
                fill_char[0]
            } else {
                ' '
            },
        ),
        ExprV::StrPadEnd { expr, length, fill_char } => NexprV::StrPadEnd(
            Box::new(opt_expr_interp(expr)),
            length,
            if fill_char.len() == 1 {
                fill_char[0]
            } else {
                ' '
            },
        ),
    }
}

/// The intended translation of an optional child; an absent child never
/// translates.
pub open spec fn opt_expr_interp(e: Option<Box<ExprV>>) -> NexprV
    decreases e, 1int,
{
    match e {
        Option::None => NexprV::LitNull,
        Option::Some(b) => expr_interp(*b),
    }
}

/// The intended translation of a list of expressions, in order.
pub open spec fn exprs_interp(s: Seq<ExprV>) -> Seq<NexprV>
    decreases s.len(),
{
    if s.len() == 0 {
        Seq::empty()
    } else {
        exprs_interp(s.drop_last()).push(expr_interp(s.last()))
    }
}

/// The translated list has one entry per expression, the entry being that
/// expression's translation.
pub proof fn lemma_exprs_interp_index(s: Seq<ExprV>, i: int)
    requires
        0 <= i < s.len(),
    ensures
        exprs_interp(s).len() == s.len(),
        exprs_interp(s)[i] == expr_interp(s[i]),
    decreases s.len(),
{
    lemma_exprs_interp_len(s);
    if i < s.len() - 1 {
        lemma_exprs_interp_index(s.drop_last(), i);
        assert(s.drop_last()[i] == s[i]);
    }
}

pub proof fn lemma_exprs_interp_len(s: Seq<ExprV>)
    ensures
        exprs_interp(s).len() == s.len(),
    decreases s.len(),
{
    if s.len() > 0 {
        lemma_exprs_interp_len(s.drop_last());
    }
}

/// The column references a memory scan's projection builds, one per name.
pub open spec fn columns_interp(names: Seq<Seq<char>>) -> Seq<NexprV> {
    names.map_values(|n: Seq<char>| NexprV::Column(n))
}

/// The engine's row-index maximum: a limit count beyond it is clamped,
/// since the engine cannot address more rows.
pub open spec fn limit_interp(n: u64) -> u32 {
    if n > 0xFFFFFFFF {
        0xFFFFFFFFu32
    } else {
        n as u32
    }
}

/// The intended translation of a relational node, given whether a seed
/// table was supplied. On a tree with a flaw the value is unconstrained.
pub open spec fn node_interp(n: NodeV, has_seed: bool) -> QueryV
    decreases n, 2int,
{
    match n {
        NodeV::CsvScan { path } => QueryV::CsvScan(path),
        NodeV::ParquetScan { .. } => QueryV::SeedScan,
        NodeV::MemoryScan { column_names } => if column_names.len() == 0 {
            QueryV::SeedScan
        } else {
            QueryV::Select(Box::new(QueryV::SeedScan), columns_interp(column_names))
        },
        NodeV::Project { input, expressions } => QueryV::Select(
            Box::new(opt_node_interp(input, has_seed)),
            exprs_interp(expressions),
        ),
        NodeV::Filter { input, predicate } => QueryV::Filter(
            Box::new(opt_node_interp(input, has_seed)),
            opt_expr_interp(predicate),
        ),
        NodeV::WithColumns { input, expressions } => QueryV::WithColumns(
            Box::new(opt_node_interp(input, has_seed)),
            exprs_interp(expressions),
        ),
        NodeV::Limit { input, n: count } => QueryV::Limit(
            Box::new(opt_node_interp(input, has_seed)),
            limit_interp(count),
        ),
    }
}

/// The intended translation of an optional child node; an absent child
/// never translates.
pub open spec fn opt_node_interp(n: Option<Box<NodeV>>, has_seed: bool) -> QueryV
    decreases n, 1int,
{
    match n {
        Option::None => QueryV::SeedScan,
        Option::Some(b) => node_interp(*b, has_seed),
    }
}

} // verus!
