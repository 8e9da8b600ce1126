//! The stable error taxonomy of the bridge: numeric status codes, error kinds
//! with their diagnostic messages, and the conversion between them.

use vstd::prelude::*;

verus! {

/// Stable numeric status codes returned across the boundary.
#[derive(Clone, Copy, Debug, PartialEq, Eq, Structural)]
pub enum ErrorCode {
    Okay,
    Unknown,
    InvalidArgument,
    AbiMismatch,
    PlanVersionUnsupported,
    PlanDecode,
    PlanSemantic,
    ArrowImport,
    ArrowExport,
    Execution,
    Unsupported,
    Oom,
}

impl ErrorCode {
    /// The numeric value of this status code, as seen by a foreign caller.
    pub open spec fn spec_number(self) -> i32 {
        match self {
            ErrorCode::Okay => 0,
            ErrorCode::Unknown => 1,
            ErrorCode::InvalidArgument => 2,
            ErrorCode::AbiMismatch => 3,
            ErrorCode::PlanVersionUnsupported => 4,
            ErrorCode::PlanDecode => 5,
            ErrorCode::PlanSemantic => 6,
            ErrorCode::ArrowImport => 7,
            ErrorCode::ArrowExport => 8,
            ErrorCode::Execution => 9,
            ErrorCode::Unsupported => 10,
            ErrorCode::Oom => 11,
        }
    }

    pub fn number(self) -> (r: i32)
        ensures
            r == self.spec_number(),
    {
        match self {
            ErrorCode::Okay => 0,
            ErrorCode::Unknown => 1,
            ErrorCode::InvalidArgument => 2,
            ErrorCode::AbiMismatch => 3,
            ErrorCode::PlanVersionUnsupported => 4,
            ErrorCode::PlanDecode => 5,
            ErrorCode::PlanSemantic => 6,
            ErrorCode::ArrowImport => 7,
            ErrorCode::ArrowExport => 8,
            ErrorCode::Execution => 9,
            ErrorCode::Unsupported => 10,
            ErrorCode::Oom => 11,
        }
    }

    /// The symbolic name of this status code, used in formatted error text.
    pub open spec fn spec_name(self) -> Seq<char> {
        match self {
            ErrorCode::Okay => "OK"@,
            ErrorCode::Unknown => "ERR_UNKNOWN"@,
            ErrorCode::InvalidArgument => "ERR_INVALID_ARGUMENT"@,
            ErrorCode::AbiMismatch => "ERR_ABI_MISMATCH"@,
            ErrorCode::PlanVersionUnsupported => "ERR_PLAN_VERSION_UNSUPPORTED"@,
            ErrorCode::PlanDecode => "ERR_PLAN_DECODE"@,
            ErrorCode::PlanSemantic => "ERR_PLAN_SEMANTIC"@,
            ErrorCode::ArrowImport => "ERR_ARROW_IMPORT"@,
            ErrorCode::ArrowExport => "ERR_ARROW_EXPORT"@,
            ErrorCode::Execution => "ERR_EXECUTION"@,
            ErrorCode::Unsupported => "ERR_UNSUPPORTED"@,
            ErrorCode::Oom => "ERR_OOM"@,
        }
    }

    pub fn name(self) -> (r: String)
        ensures
            r@ == self.spec_name(),
    {
        match self {
            ErrorCode::Okay => "OK".to_owned(),
            ErrorCode::Unknown => "ERR_UNKNOWN".to_owned(),
            ErrorCode::InvalidArgument => "ERR_INVALID_ARGUMENT".to_owned(),
            ErrorCode::AbiMismatch => "ERR_ABI_MISMATCH".to_owned(),
            ErrorCode::PlanVersionUnsupported => "ERR_PLAN_VERSION_UNSUPPORTED".to_owned(),
            ErrorCode::PlanDecode => "ERR_PLAN_DECODE".to_owned(),
            ErrorCode::PlanSemantic => "ERR_PLAN_SEMANTIC".to_owned(),
            ErrorCode::ArrowImport => "ERR_ARROW_IMPORT".to_owned(),
            ErrorCode::ArrowExport => "ERR_ARROW_EXPORT".to_owned(),
            ErrorCode::Execution => "ERR_EXECUTION".to_owned(),
            ErrorCode::Unsupported => "ERR_UNSUPPORTED".to_owned(),
            ErrorCode::Oom => "ERR_OOM".to_owned(),
        }
    }
}

/// The decimal digit sequence of `v`, most significant digit first.
pub open spec fn dec_rep(v: u32) -> Seq<char>
    decreases v,
{
    if v < 10 {
        seq![dec_digit(v)]
    } else {
        dec_rep(v / 10).push(dec_digit(v % 10))
    }
}

/// The character for a single decimal digit.
pub open spec fn dec_digit(v: u32) -> char {
    if v == 0 { '0' }
    else if v == 1 { '1' }
    else if v == 2 { '2' }
    else if v == 3 { '3' }
    else if v == 4 { '4' }
    else if v == 5 { '5' }
    else if v == 6 { '6' }
    else if v == 7 { '7' }
    else if v == 8 { '8' }
    else if v == 9 { '9' }
    else { '?' }
}

fn digit_str(v: u32) -> (r: &'static str)
    requires
        v < 10,
    ensures
        r@ == seq![dec_digit(v)],
{
    proof {
        reveal_strlit("0");
        reveal_strlit("1");
        reveal_strlit("2");
        reveal_strlit("3");
        reveal_strlit("4");
        reveal_strlit("5");
        reveal_strlit("6");
        reveal_strlit("7");
        reveal_strlit("8");
        reveal_strlit("9");
    }
    let r = if v == 0 { "0" }
    else if v == 1 { "1" }
    else if v == 2 { "2" }
    else if v == 3 { "3" }
    else if v == 4 { "4" }
    else if v == 5 { "5" }
    else if v == 6 { "6" }
    else if v == 7 { "7" }
    else if v == 8 { "8" }
    else { "9" };
    proof {
        assert(r@ =~= seq![dec_digit(v)]);
    }
    r
}

/// Renders `v` in decimal, for diagnostic messages.
pub fn u32_to_decimal(v: u32) -> (r: String)
    ensures
        r@ == dec_rep(v),
    decreases v,
{
    if v < 10 {
        let s = digit_str(v).to_owned();
        proof {
            assert(s@ =~= dec_rep(v));
        }
        s
    } else {
        let s = u32_to_decimal(v / 10).concat(digit_str(v % 10));
        proof {
            assert(s@ =~= dec_rep(v));
        }
        s
    }
}

/// The typed error carried by every fallible step of the bridge.
#[derive(Debug, Clone)]
pub enum BridgeError {
    InvalidArgument(String),
    AbiMismatch(u32, u32),
    PlanVersionUnsupported(u32),
    PlanDecode(String),
    PlanSemantic(String),
    ArrowImport(String),
    ArrowExport(String),
    Execution(String),
    Unsupported(String),
}

/// The mathematical value of a `BridgeError`: the same variants over
/// character sequences.
pub ghost enum ErrView {
    InvalidArgument(Seq<char>),
    AbiMismatch(u32, u32),
    PlanVersionUnsupported(u32),
    PlanDecode(Seq<char>),
    PlanSemantic(Seq<char>),
    ArrowImport(Seq<char>),
    ArrowExport(Seq<char>),
    Execution(Seq<char>),
    Unsupported(Seq<char>),
}

impl View for BridgeError {
    type V = ErrView;

    open spec fn view(&self) -> ErrView {
        match self {
            BridgeError::InvalidArgument(s) => ErrView::InvalidArgument(s@),
            BridgeError::AbiMismatch(a, b) => ErrView::AbiMismatch(*a, *b),
            BridgeError::PlanVersionUnsupported(v) => ErrView::PlanVersionUnsupported(*v),
            BridgeError::PlanDecode(s) => ErrView::PlanDecode(s@),
            BridgeError::PlanSemantic(s) => ErrView::PlanSemantic(s@),
            BridgeError::ArrowImport(s) => ErrView::ArrowImport(s@),
            BridgeError::ArrowExport(s) => ErrView::ArrowExport(s@),
            BridgeError::Execution(s) => ErrView::Execution(s@),
            BridgeError::Unsupported(s) => ErrView::Unsupported(s@),
        }
    }
}

impl ErrView {
    /// The status code that classifies this error.
    pub open spec fn code(self) -> ErrorCode {
        match self {
            ErrView::InvalidArgument(_) => ErrorCode::InvalidArgument,
            ErrView::AbiMismatch(_, _) => ErrorCode::AbiMismatch,
            ErrView::PlanVersionUnsupported(_) => ErrorCode::PlanVersionUnsupported,
            ErrView::PlanDecode(_) => ErrorCode::PlanDecode,
            ErrView::PlanSemantic(_) => ErrorCode::PlanSemantic,
            ErrView::ArrowImport(_) => ErrorCode::ArrowImport,
            ErrView::ArrowExport(_) => ErrorCode::ArrowExport,
            ErrView::Execution(_) => ErrorCode::Execution,
            ErrView::Unsupported(_) => ErrorCode::Unsupported,
        }
    }

    /// The human-readable message paired with the status code.
    pub open spec fn message(self) -> Seq<char> {
        match self {
            ErrView::InvalidArgument(s) => s,
            ErrView::AbiMismatch(a, b) => "ABI mismatch: expected "@ + dec_rep(a) + ", got "@
                + dec_rep(b),
            ErrView::PlanVersionUnsupported(v) => "Plan version "@ + dec_rep(v)
                + " unsupported"@,
            ErrView::PlanDecode(s) => s,
            ErrView::PlanSemantic(s) => s,
            ErrView::ArrowImport(s) => s,
            ErrView::ArrowExport(s) => s,
            ErrView::Execution(s) => s,
            ErrView::Unsupported(s) => s,
        }
    }
}

/// Classifies an error into its stable status code and the message a caller
/// will see beside it.
pub fn bridge_error_to_code(err: &BridgeError) -> (r: (ErrorCode, String))
    ensures
        r.0 == err@.code(),
        r.1@ == err@.message(),
{
    match err {
        BridgeError::InvalidArgument(s) => (ErrorCode::InvalidArgument, s.clone()),
        BridgeError::AbiMismatch(a, b) => {
            let msg = "ABI mismatch: expected ".to_owned()
                .concat(u32_to_decimal(*a).as_str())
                .concat(", got ")
                .concat(u32_to_decimal(*b).as_str());
            (ErrorCode::AbiMismatch, msg)
        },
        BridgeError::PlanVersionUnsupported(v) => {
            let msg = "Plan version ".to_owned()
                .concat(u32_to_decimal(*v).as_str())
                .concat(" unsupported");
            (ErrorCode::PlanVersionUnsupported, msg)
        },
        BridgeError::PlanDecode(s) => (ErrorCode::PlanDecode, s.clone()),
        BridgeError::PlanSemantic(s) => (ErrorCode::PlanSemantic, s.clone()),
        BridgeError::ArrowImport(s) => (ErrorCode::ArrowImport, s.clone()),
        BridgeError::ArrowExport(s) => (ErrorCode::ArrowExport, s.clone()),
        BridgeError::Execution(s) => (ErrorCode::Execution, s.clone()),
        BridgeError::Unsupported(s) => (ErrorCode::Unsupported, s.clone()),
    }
}

} // verus!
