//! The typed plan tree: a versioned root holding relational nodes and scalar
//! expressions, together with its mathematical view and the classification of
//! every structural or semantic problem a tree can carry.

use vstd::prelude::*;
use crate::error::{dec_rep, ErrView};

verus! {

/// The supported range of the plan wire version.
pub const MIN_PLAN_VERSION: u32 = 1;

pub const MAX_PLAN_VERSION: u32 = 1;

/// A scalar literal carried by a `Lit` expression. A floating-point value
/// travels as its raw bit pattern.
#[derive(Debug, PartialEq)]
pub enum LitValue {
    IntVal(i64),
    FloatBits(u64),
    BoolVal(bool),
    StringVal(String),
    NullVal,
}

/// A scalar expression of the plan tree. Children are optional because the
/// wire format cannot make them mandatory; their absence is a semantic error
/// found at translation time.
#[derive(Debug, PartialEq)]
pub enum ExprIr {
    Col { name: String },
    Lit { value: Option<LitValue> },
    Binary { op: u32, left: Option<Box<ExprIr>>, right: Option<Box<ExprIr>> },
    Alias { expr: Option<Box<ExprIr>>, name: String },
    IsNull { expr: Option<Box<ExprIr>> },
    Not { expr: Option<Box<ExprIr>> },
    Wildcard,
    Exclude { columns: Vec<String> },
    Cast { expr: Option<Box<ExprIr>>, data_type: u32, strict: bool },
    StrLenBytes { expr: Option<Box<ExprIr>> },
    StrLenChars { expr: Option<Box<ExprIr>> },
    StrContains { expr: Option<Box<ExprIr>>, pattern: String, literal: bool },
    StrStartsWith { expr: Option<Box<ExprIr>>, prefix: String },
    StrEndsWith { expr: Option<Box<ExprIr>>, suffix: String },
    StrExtract { expr: Option<Box<ExprIr>>, pattern: String, group_index: u32 },
    StrReplace { expr: Option<Box<ExprIr>>, pattern: String, value: String, literal: bool },
    StrReplaceAll { expr: Option<Box<ExprIr>>, pattern: String, value: String, literal: bool },
    StrToLowercase { expr: Option<Box<ExprIr>> },
    StrToUppercase { expr: Option<Box<ExprIr>> },
    StrStripChars { expr: Option<Box<ExprIr>>, chars: String },
    StrSlice { expr: Option<Box<ExprIr>>, offset: i64, length: Option<u64> },
    StrSplit { expr: Option<Box<ExprIr>>, by: String },
    StrPadStart { expr: Option<Box<ExprIr>>, length: u64, fill_char: String },
    StrPadEnd { expr: Option<Box<ExprIr>>, length: u64, fill_char: String },
}

/// A relational node of the plan tree. Scans are leaves; every other node
/// owns one optional child.
#[derive(Debug, PartialEq)]
pub enum Node {
    CsvScan { path: String },
    ParquetScan { path: String },
    MemoryScan { column_names: Vec<String> },
    Project { input: Option<Box<Node>>, expressions: Vec<ExprIr> },
    Filter { input: Option<Box<Node>>, predicate: Option<Box<ExprIr>> },
    WithColumns { input: Option<Box<Node>>, expressions: Vec<ExprIr> },
    Limit { input: Option<Box<Node>>, n: u64 },
}

/// A decoded, versioned plan.
#[derive(Debug, PartialEq)]
pub struct Plan {
    pub plan_version: u32,
    pub root: Option<Node>,
}

/// Mathematical value of a `LitValue`.
pub ghost enum LitV {
    IntVal(i64),
    FloatBits(u64),
    BoolVal(bool),
    StringVal(Seq<char>),
    NullVal,
}

/// Mathematical value of an `ExprIr`.
pub ghost enum ExprV {
    Col { name: Seq<char> },
    Lit { value: Option<LitV> },
    Binary { op: u32, left: Option<Box<ExprV>>, right: Option<Box<ExprV>> },
    Alias { expr: Option<Box<ExprV>>, name: Seq<char> },
    IsNull { expr: Option<Box<ExprV>> },
    Not { expr: Option<Box<ExprV>> },
    Wildcard,
    Exclude { columns: Seq<Seq<char>> },
    Cast { expr: Option<Box<ExprV>>, data_type: u32, strict: bool },
    StrLenBytes { expr: Option<Box<ExprV>> },
    StrLenChars { expr: Option<Box<ExprV>> },
    StrContains { expr: Option<Box<ExprV>>, pattern: Seq<char>, literal: bool },
    StrStartsWith { expr: Option<Box<ExprV>>, prefix: Seq<char> },
    StrEndsWith { expr: Option<Box<ExprV>>, suffix: Seq<char> },
    StrExtract { expr: Option<Box<ExprV>>, pattern: Seq<char>, group_index: u32 },
    StrReplace { expr: Option<Box<ExprV>>, pattern: Seq<char>, value: Seq<char>, literal: bool },
    StrReplaceAll { expr: Option<Box<ExprV>>, pattern: Seq<char>, value: Seq<char>, literal: bool },
    StrToLowercase { expr: Option<Box<ExprV>> },
    StrToUppercase { expr: Option<Box<ExprV>> },
    StrStripChars { expr: Option<Box<ExprV>>, chars: Seq<char> },
    StrSlice { expr: Option<Box<ExprV>>, offset: i64, length: Option<u64> },
    StrSplit { expr: Option<Box<ExprV>>, by: Seq<char> },
    StrPadStart { expr: Option<Box<ExprV>>, length: u64, fill_char: Seq<char> },
    StrPadEnd { expr: Option<Box<ExprV>>, length: u64, fill_char: Seq<char> },
}

/// Mathematical value of a `Node`.
pub ghost enum NodeV {
    CsvScan { path: Seq<char> },
    ParquetScan { path: Seq<char> },
    MemoryScan { column_names: Seq<Seq<char>> },
    Project { input: Option<Box<NodeV>>, expressions: Seq<ExprV> },
    Filter { input: Option<Box<NodeV>>, predicate: Option<Box<ExprV>> },
    WithColumns { input: Option<Box<NodeV>>, expressions: Seq<ExprV> },
    Limit { input: Option<Box<NodeV>>, n: u64 },
}

/// Mathematical value of a `Plan`.
pub ghost struct PlanV {
    pub plan_version: u32,
    pub root: Option<NodeV>,
}

impl View for LitValue {
    type V = LitV;

    open spec fn view(&self) -> LitV {
        match self {
            LitValue::IntVal(v) => LitV::IntVal(*v),
            LitValue::FloatBits(v) => LitV::FloatBits(*v),
            LitValue::BoolVal(v) => LitV::BoolVal(*v),
            LitValue::StringVal(s) => LitV::StringVal(s@),
            LitValue::NullVal => LitV::NullVal,
        }
    }
}

/// View of an optional boxed child expression.
pub open spec fn opt_expr_view(e: Option<Box<ExprIr>>) -> Option<Box<ExprV>>
    decreases e,
{
    match e {
        Option::None => Option::None,
        Option::Some(b) => Option::Some(Box::new(expr_view(*b))),
    }
}

/// View of a list of expressions.
pub open spec fn exprs_view(s: Seq<ExprIr>) -> Seq<ExprV>
    decreases s,
{
    if s.len() == 0 {
        Seq::empty()
    } else {
        exprs_view(s.drop_last()).push(expr_view(s.last()))
    }
}

/// View of a list of column names.
pub open spec fn strings_view(s: Seq<String>) -> Seq<Seq<char>> {
    s.map_values(|x: String| x@)
}

/// Mathematical value of an expression tree.
pub open spec fn expr_view(e: ExprIr) -> ExprV
    decreases e,
{
    match e {
            ExprIr::Col { name } => ExprV::Col { name: name@ },
            ExprIr::Lit { value } => ExprV::Lit {
                value: match value {
                    Option::None => Option::None,
                    Option::Some(v) => Option::Some(v@),
                },
            },
            ExprIr::Binary { op, left, right } => ExprV::Binary {
                op,
                left: opt_expr_view(left),
                right: opt_expr_view(right),
            },
            ExprIr::Alias { expr, name } => ExprV::Alias {
                expr: opt_expr_view(expr),
                name: name@,
            },
            ExprIr::IsNull { expr } => ExprV::IsNull { expr: opt_expr_view(expr) },
            ExprIr::Not { expr } => ExprV::Not { expr: opt_expr_view(expr) },
            ExprIr::Wildcard => ExprV::Wildcard,
            ExprIr::Exclude { columns } => ExprV::Exclude { columns: strings_view(columns@) },
            ExprIr::Cast { expr, data_type, strict } => ExprV::Cast {
                expr: opt_expr_view(expr),
                data_type,
                strict,
            },
            ExprIr::StrLenBytes { expr } => ExprV::StrLenBytes { expr: opt_expr_view(expr) },
            ExprIr::StrLenChars { expr } => ExprV::StrLenChars { expr: opt_expr_view(expr) },
            ExprIr::StrContains { expr, pattern, literal } => ExprV::StrContains {
                expr: opt_expr_view(expr),
                pattern: pattern@,
                literal,
            },
            ExprIr::StrStartsWith { expr, prefix } => ExprV::StrStartsWith {
                expr: opt_expr_view(expr),
                prefix: prefix@,
            },
            ExprIr::StrEndsWith { expr, suffix } => ExprV::StrEndsWith {
                expr: opt_expr_view(expr),
                suffix: suffix@,
            },
            ExprIr::StrExtract { expr, pattern, group_index } => ExprV::StrExtract {
                expr: opt_expr_view(expr),
                pattern: pattern@,
                group_index,
            },
            ExprIr::StrReplace { expr, pattern, value, literal } => ExprV::StrReplace {
                expr: opt_expr_view(expr),
                pattern: pattern@,
                value: value@,
                literal,
            },
            ExprIr::StrReplaceAll { expr, pattern, value, literal } => ExprV::StrReplaceAll {
                expr: opt_expr_view(expr),
                pattern: pattern@,
                value: value@,
                literal,
            },
            ExprIr::StrToLowercase { expr } => ExprV::StrToLowercase { expr: opt_expr_view(expr) },
            ExprIr::StrToUppercase { expr } => ExprV::StrToUppercase { expr: opt_expr_view(expr) },
            ExprIr::StrStripChars { expr, chars } => ExprV::StrStripChars {
                expr: opt_expr_view(expr),
                chars: chars@,
            },
            ExprIr::StrSlice { expr, offset, length } => ExprV::StrSlice {
                expr: opt_expr_view(expr),
                offset,
                length,
            },
            ExprIr::StrSplit { expr, by } => ExprV::StrSplit {
                expr: opt_expr_view(expr),
                by: by@,
            },
            ExprIr::StrPadStart { expr, length, fill_char } => ExprV::StrPadStart {
                expr: opt_expr_view(expr),
                length,
                fill_char: fill_char@,
            },
            ExprIr::StrPadEnd { expr, length, fill_char } => ExprV::StrPadEnd {
                expr: opt_expr_view(expr),
                length,
                fill_char: fill_char@,
            },
    }
}

/// View of an optional boxed child node.
pub open spec fn opt_node_view(n: Option<Box<Node>>) -> Option<Box<NodeV>>
    decreases n,
{
    match n {
        Option::None => Option::None,
        Option::Some(b) => Option::Some(Box::new(node_view(*b))),
    }
}

/// Mathematical value of a node tree.
pub open spec fn node_view(n: Node) -> NodeV
    decreases n,
{
    match n {
            Node::CsvScan { path } => NodeV::CsvScan { path: path@ },
            Node::ParquetScan { path } => NodeV::ParquetScan { path: path@ },
            Node::MemoryScan { column_names } => NodeV::MemoryScan {
                column_names: strings_view(column_names@),
            },
            Node::Project { input, expressions } => NodeV::Project {
                input: opt_node_view(input),
                expressions: exprs_view(expressions@),
            },
            Node::Filter { input, predicate } => NodeV::Filter {
                input: opt_node_view(input),
                predicate: opt_expr_view(predicate),
            },
            Node::WithColumns { input, expressions } => NodeV::WithColumns {
                input: opt_node_view(input),
                expressions: exprs_view(expressions@),
            },
            Node::Limit { input, n } => NodeV::Limit {
                input: opt_node_view(input),
                n,
            },
    }
}

impl View for ExprIr {
    type V = ExprV;

    open spec fn view(&self) -> ExprV {
        expr_view(*self)
    }
}

impl View for Node {
    type V = NodeV;

    open spec fn view(&self) -> NodeV {
        node_view(*self)
    }
}

impl View for Plan {
    type V = PlanV;

    open spec fn view(&self) -> PlanV {
        PlanV {
            plan_version: self.plan_version,
            root: match self.root {
                Option::None => Option::None,
                Option::Some(n) => Option::Some(node_view(n)),
            },
        }
    }
}

/// Whether a binary operator code belongs to the enumerated operator set.
pub open spec fn known_op(op: u32) -> bool {
    1 <= op <= 15
}

/// Whether a data type tag belongs to the enumerated scalar type set.
pub open spec fn known_dtype(t: u32) -> bool {
    1 <= t <= 15
}

/// The semantic error reported for a missing child expression of the named
/// expression kind.
pub open spec fn missing_expr_flaw(name: Seq<char>) -> ErrView {
    ErrView::PlanSemantic(name + " has no expr"@)
}

/// The first problem that translation finds in an optional child expression
/// of the named expression kind, if any.
pub open spec fn opt_expr_flaw(e: Option<Box<ExprV>>, name: Seq<char>) -> Option<ErrView>
    decreases e, 0int,
{
    match e {
        Option::None => Option::Some(missing_expr_flaw(name)),
        Option::Some(inner) => expr_flaw(*inner),
    }
}

/// The first problem that translation finds in an expression, in the order
/// the translator checks: missing children first, then the left subtree, then
/// the right, then this node's own parameters. `None` means the expression
/// translates cleanly.
pub open spec fn expr_flaw(e: ExprV) -> Option<ErrView>
    decreases e, 2int,
{
    match e {
        ExprV::Col { .. } => Option::None,
        ExprV::Lit { value } => match value {
            Option::None => Option::Some(ErrView::PlanSemantic("Literal has no value"@)),
            Option::Some(LitV::FloatBits(_)) => Option::Some(
                ErrView::Unsupported("Float literals are not supported"@),
            ),
            Option::Some(_) => Option::None,
        },
        ExprV::Binary { op, left, right } => {
            if left is None {
                Option::Some(ErrView::PlanSemantic("Binary has no left"@))
            } else if right is None {
                Option::Some(ErrView::PlanSemantic("Binary has no right"@))
            } else if expr_flaw(*left->Some_0) is Some {
                expr_flaw(*left->Some_0)
            } else if expr_flaw(*right->Some_0) is Some {
                expr_flaw(*right->Some_0)
            } else if !known_op(op) {
                Option::Some(ErrView::Unsupported("Unknown binary operator: "@ + dec_rep(op)))
            } else {
                Option::None
            }
        },
        ExprV::Alias { expr, .. } => match expr {
            Option::None => Option::Some(ErrView::PlanSemantic("Alias has no expr"@)),
            Option::Some(inner) => expr_flaw(*inner),
        },
        ExprV::IsNull { expr } => match expr {
            Option::None => Option::Some(ErrView::PlanSemantic("IsNull has no expr"@)),
            Option::Some(inner) => expr_flaw(*inner),
        },
        ExprV::Not { expr } => match expr {
            Option::None => Option::Some(ErrView::PlanSemantic("Not has no expr"@)),
            Option::Some(inner) => expr_flaw(*inner),
        },
        ExprV::Wildcard => Option::None,
        ExprV::Exclude { .. } => Option::Some(
            ErrView::Unsupported("Exclude operation is not yet supported"@),
        ),
        ExprV::Cast { expr, data_type, .. } => {
            match expr {
                Option::None => Option::Some(ErrView::PlanSemantic("Cast has no expr"@)),
                Option::Some(inner) => {
                    if expr_flaw(*inner) is Some {
                        expr_flaw(*inner)
                    } else if !known_dtype(data_type) {
                        Option::Some(
                            ErrView::Unsupported("Unknown data type: "@ + dec_rep(data_type)),
                        )
                    } else {
                        Option::None
                    }
                },
            }
        },
        ExprV::StrLenBytes { expr } => opt_expr_flaw(expr, "StrLenBytes"@),
        ExprV::StrLenChars { expr } => opt_expr_flaw(expr, "StrLenChars"@),
        ExprV::StrContains { expr, .. } => opt_expr_flaw(expr, "StrContains"@),
        ExprV::StrStartsWith { expr, .. } => opt_expr_flaw(expr, "StrStartsWith"@),
        ExprV::StrEndsWith { expr, .. } => opt_expr_flaw(expr, "StrEndsWith"@),
        ExprV::StrExtract { expr, .. } => opt_expr_flaw(expr, "StrExtract"@),
        ExprV::StrReplace { expr, .. } => opt_expr_flaw(expr, "StrReplace"@),
        ExprV::StrReplaceAll { expr, .. } => opt_expr_flaw(expr, "StrReplaceAll"@),
        ExprV::StrToLowercase { expr } => opt_expr_flaw(expr, "StrToLowercase"@),
        ExprV::StrToUppercase { expr } => opt_expr_flaw(expr, "StrToUppercase"@),
        ExprV::StrStripChars { expr, .. } => opt_expr_flaw(expr, "StrStripChars"@),
        ExprV::StrSlice { expr, .. } => opt_expr_flaw(expr, "StrSlice"@),
        ExprV::StrSplit { expr, .. } => opt_expr_flaw(expr, "StrSplit"@),
        ExprV::StrPadStart { expr, fill_char, .. } => {
            pad_flaw(expr, fill_char, "StrPadStart"@)
        },
        ExprV::StrPadEnd { expr, fill_char, .. } => {
            pad_flaw(expr, fill_char, "StrPadEnd"@)
        },
    }
}

/// The first problem in a padding expression: a missing or flawed subject
/// first, then a fill string that is not exactly one character.
pub open spec fn pad_flaw(e: Option<Box<ExprV>>, fill_char: Seq<char>, name: Seq<char>)
    -> Option<ErrView>
    decreases e, 1int,
{
    if opt_expr_flaw(e, name) is Some {
        opt_expr_flaw(e, name)
    } else if fill_char.len() == 0 {
        Option::Some(ErrView::InvalidArgument(name + " fill_char cannot be empty"@))
    } else if fill_char.len() > 1 {
        Option::Some(ErrView::InvalidArgument(name + " fill_char must be a single character"@))
    } else {
        Option::None
    }
}

/// The first problem in a list of expressions, scanned left to right.
pub open spec fn exprs_flaw(s: Seq<ExprV>) -> Option<ErrView>
    decreases s.len(),
{
    if s.len() == 0 {
        Option::None
    } else if expr_flaw(s[0]) is Some {
        expr_flaw(s[0])
    } else {
        exprs_flaw(s.drop_first())
    }
}

/// The semantic error reported for a missing child node of the named node
/// kind.
pub open spec fn missing_input_flaw(name: Seq<char>) -> ErrView {
    ErrView::PlanSemantic(name + " has no input"@)
}

/// The first problem that interpretation finds in a relational node, given
/// whether the caller supplied a seed table for memory scans. The order
/// mirrors the interpreter: a missing child first, then the child's own
/// problems, then this node's expressions.
pub open spec fn node_flaw(n: NodeV, has_seed: bool) -> Option<ErrView>
    decreases n,
{
    match n {
        NodeV::CsvScan { .. } => Option::None,
        NodeV::ParquetScan { .. } => Option::Some(
            ErrView::Unsupported("ParquetScan not yet implemented"@),
        ),
        NodeV::MemoryScan { .. } => {
            if !has_seed {
                Option::Some(ErrView::Unsupported("MemoryScan requires input DataFrame"@))
            } else {
                Option::None
            }
        },
        NodeV::Project { input, expressions } => match input {
            Option::None => Option::Some(missing_input_flaw("Project"@)),
            Option::Some(inner) => {
                if node_flaw(*inner, has_seed) is Some {
                    node_flaw(*inner, has_seed)
                } else {
                    exprs_flaw(expressions)
                }
            },
        },
        NodeV::Filter { input, predicate } => match input {
            Option::None => Option::Some(missing_input_flaw("Filter"@)),
            Option::Some(inner) => {
                if node_flaw(*inner, has_seed) is Some {
                    node_flaw(*inner, has_seed)
                } else {
                    match predicate {
                        Option::None => Option::Some(
                            ErrView::PlanSemantic("Filter has no predicate"@),
                        ),
                        Option::Some(p) => expr_flaw(*p),
                    }
                }
            },
        },
        NodeV::WithColumns { input, expressions } => match input {
            Option::None => Option::Some(missing_input_flaw("WithColumns"@)),
            Option::Some(inner) => {
                if node_flaw(*inner, has_seed) is Some {
                    node_flaw(*inner, has_seed)
                } else {
                    exprs_flaw(expressions)
                }
            },
        },
        NodeV::Limit { input, .. } => match input {
            Option::None => Option::Some(missing_input_flaw("Limit"@)),
            Option::Some(inner) => node_flaw(*inner, has_seed),
        },
    }
}

/// The first problem that interpretation finds in a whole plan: a missing
/// root first, then the root's own problems.
pub open spec fn plan_flaw(p: PlanV, has_seed: bool) -> Option<ErrView> {
    match p.root {
        Option::None => Option::Some(ErrView::PlanSemantic("Plan has no root node"@)),
        Option::Some(root) => node_flaw(root, has_seed),
    }
}

/// Whether a node's tree contains a CSV file scan, the one node whose
/// success depends on the engine and the file system.
pub open spec fn node_has_csv(n: NodeV) -> bool
    decreases n,
{
    match n {
        NodeV::CsvScan { .. } => true,
        NodeV::ParquetScan { .. } => false,
        NodeV::MemoryScan { .. } => false,
        NodeV::Project { input, .. } => match input {
            Option::None => false,
            Option::Some(inner) => node_has_csv(*inner),
        },
        NodeV::Filter { input, .. } => match input {
            Option::None => false,
            Option::Some(inner) => node_has_csv(*inner),
        },
        NodeV::WithColumns { input, .. } => match input {
            Option::None => false,
            Option::Some(inner) => node_has_csv(*inner),
        },
        NodeV::Limit { input, .. } => match input {
            Option::None => false,
            Option::Some(inner) => node_has_csv(*inner),
        },
    }
}

/// Whether a node's tree contains a parquet file scan, the declared-but-
/// rejected scan kind.
pub open spec fn node_has_parquet(n: NodeV) -> bool
    decreases n,
{
    match n {
        NodeV::CsvScan { .. } => false,
        NodeV::ParquetScan { .. } => true,
        NodeV::MemoryScan { .. } => false,
        NodeV::Project { input, .. } => match input {
            Option::None => false,
            Option::Some(inner) => node_has_parquet(*inner),
        },
        NodeV::Filter { input, .. } => match input {
            Option::None => false,
            Option::Some(inner) => node_has_parquet(*inner),
        },
        NodeV::WithColumns { input, .. } => match input {
            Option::None => false,
            Option::Some(inner) => node_has_parquet(*inner),
        },
        NodeV::Limit { input, .. } => match input {
            Option::None => false,
            Option::Some(inner) => node_has_parquet(*inner),
        },
    }
}

/// A plan containing a parquet scan never interprets cleanly: some problem
/// is always found before any execution could begin.
pub proof fn lemma_parquet_always_flawed(n: NodeV, has_seed: bool)
    requires
        node_has_parquet(n),
    ensures
        node_flaw(n, has_seed) is Some,
    decreases n,
{
    match n {
        NodeV::Project { input, .. } => match input {
            Option::None => {},
            Option::Some(inner) => lemma_parquet_always_flawed(*inner, has_seed),
        },
        NodeV::Filter { input, .. } => match input {
            Option::None => {},
            Option::Some(inner) => lemma_parquet_always_flawed(*inner, has_seed),
        },
        NodeV::WithColumns { input, .. } => match input {
            Option::None => {},
            Option::Some(inner) => lemma_parquet_always_flawed(*inner, has_seed),
        },
        NodeV::Limit { input, .. } => match input {
            Option::None => {},
            Option::Some(inner) => lemma_parquet_always_flawed(*inner, has_seed),
        },
        _ => {},
    }
}


/// The view of a list of expressions has one element per expression.
pub proof fn lemma_exprs_view_len(s: Seq<ExprIr>)
    ensures
        exprs_view(s).len() == s.len(),
    decreases s.len(),
{
    if s.len() > 0 {
        lemma_exprs_view_len(s.drop_last());
    }
}


/// The view of a list of expressions agrees with the view of each element.
pub proof fn lemma_exprs_view_index(s: Seq<ExprIr>, i: int)
    requires
        0 <= i < s.len(),
    ensures
        exprs_view(s).len() == s.len(),
        exprs_view(s)[i] == expr_view(s[i]),
    decreases s.len(),
{
    lemma_exprs_view_len(s);
    if i < s.len() - 1 {
        lemma_exprs_view_index(s.drop_last(), i);
        assert(s.drop_last()[i] == s[i]);
    }
}

/// Whether an expression belongs to the string operation family.
pub open spec fn is_string_kind(e: ExprV) -> bool {
    match e {
        ExprV::StrLenBytes { .. } => true,
        ExprV::StrLenChars { .. } => true,
        ExprV::StrContains { .. } => true,
        ExprV::StrStartsWith { .. } => true,
        ExprV::StrEndsWith { .. } => true,
        ExprV::StrExtract { .. } => true,
        ExprV::StrReplace { .. } => true,
        ExprV::StrReplaceAll { .. } => true,
        ExprV::StrToLowercase { .. } => true,
        ExprV::StrToUppercase { .. } => true,
        ExprV::StrStripChars { .. } => true,
        ExprV::StrSlice { .. } => true,
        ExprV::StrSplit { .. } => true,
        ExprV::StrPadStart { .. } => true,
        ExprV::StrPadEnd { .. } => true,
        _ => false,
    }
}


/// Whether a plan's tree contains a CSV file scan.
pub open spec fn plan_has_csv(p: PlanV) -> bool {
    match p.root {
        Option::None => false,
        Option::Some(root) => node_has_csv(root),
    }
}


/// The fill-character law of the padding operations: with a sound subject,
/// padding translates exactly when the fill string is a single character,
/// and any other fill string is an invalid argument.
pub proof fn lemma_pad_fill_char(expr: Option<Box<ExprV>>, length: u64, fill_char: Seq<char>)
    requires
        opt_expr_flaw(expr, "StrPadStart"@) is None,
        opt_expr_flaw(expr, "StrPadEnd"@) is None,
    ensures
        expr_flaw(ExprV::StrPadStart { expr, length, fill_char }) is None <==> fill_char.len()
            == 1,
        expr_flaw(ExprV::StrPadEnd { expr, length, fill_char }) is None <==> fill_char.len() == 1,
        fill_char.len() != 1 ==> expr_flaw(
            ExprV::StrPadStart { expr, length, fill_char },
        )->Some_0 is InvalidArgument,
        fill_char.len() != 1 ==> expr_flaw(
            ExprV::StrPadEnd { expr, length, fill_char },
        )->Some_0 is InvalidArgument,
{
    assert(expr_flaw(ExprV::StrPadStart { expr, length, fill_char }) == pad_flaw(
        expr,
        fill_char,
        "StrPadStart"@,
    ));
    assert(expr_flaw(ExprV::StrPadEnd { expr, length, fill_char }) == pad_flaw(
        expr,
        fill_char,
        "StrPadEnd"@,
    ));
}

/// A plan whose tree holds a parquet scan never interprets cleanly, with or
/// without a seed table: a problem is always reported before execution.
pub proof fn lemma_parquet_plan_flawed(p: PlanV, has_seed: bool)
    requires
        plan_has_parquet(p),
    ensures
        plan_flaw(p, has_seed) is Some,
{
    match p.root {
        Option::None => {},
        Option::Some(root) => lemma_parquet_always_flawed(root, has_seed),
    }
}

/// Whether a plan's tree contains a parquet scan.
pub open spec fn plan_has_parquet(p: PlanV) -> bool {
    match p.root {
        Option::None => false,
        Option::Some(root) => node_has_parquet(root),
    }
}

} // verus!
