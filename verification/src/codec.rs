//! The binary wire format of a plan: little-endian fixed-width integers,
//! length-prefixed character strings, tagged unions for nodes, expressions
//! and literals. Encoding and decoding are both defined twice — once as
//! mathematical functions over byte sequences, once as executable code whose
//! contracts tie it exactly to the mathematical form.

use vstd::prelude::*;
use crate::plan::{Plan, Node, ExprIr, LitValue, PlanV, NodeV, ExprV, LitV, strings_view, exprs_view, expr_view, opt_expr_view, opt_node_view};
use vstd::string::{StrSliceExecFns, StringExecFns};

verus! {

/// Whether a code point value is a Unicode scalar value, i.e. the value of
/// some `char`.
pub open spec fn char_scalar(v: u32) -> bool {
    v < 0xD800 || (0xE000 <= v && v <= 0x10FFFF)
}

/// Relies on char::from_u32: it returns the character with this code point
/// exactly when the value is a Unicode scalar value.
pub assume_specification[ char::from_u32 ](v: u32) -> (r: Option<char>)
    ensures
        r is Some <==> char_scalar(v),
        r matches Some(c) ==> c as u32 == v,
;

/// Relies on String::push: it appends one character at the end.
pub assume_specification[ String::push ](s: &mut String, c: char)
    ensures
        final(s)@ == old(s)@.push(c),
;

// ---------------------------------------------------------------------------
// Encoding, mathematical form.
// ---------------------------------------------------------------------------

pub open spec fn enc_u32(v: u32) -> Seq<u8> {
    seq![
        (v % 0x100) as u8,
        ((v >> 8) % 0x100) as u8,
        ((v >> 16) % 0x100) as u8,
        ((v >> 24) % 0x100) as u8,
    ]
}

pub open spec fn enc_u64(v: u64) -> Seq<u8> {
    seq![
        (v % 0x100) as u8,
        ((v >> 8) % 0x100) as u8,
        ((v >> 16) % 0x100) as u8,
        ((v >> 24) % 0x100) as u8,
        ((v >> 32) % 0x100) as u8,
        ((v >> 40) % 0x100) as u8,
        ((v >> 48) % 0x100) as u8,
        ((v >> 56) % 0x100) as u8,
    ]
}

pub open spec fn enc_i64(v: i64) -> Seq<u8> {
    enc_u64(v as u64)
}

pub open spec fn enc_bool(v: bool) -> Seq<u8> {
    seq![if v { 1u8 } else { 0u8 }]
}

pub open spec fn enc_char(c: char) -> Seq<u8> {
    enc_u32(c as u32)
}

pub open spec fn enc_chars(s: Seq<char>) -> Seq<u8>
    decreases s.len(),
{
    if s.len() == 0 {
        Seq::empty()
    } else {
        enc_chars(s.drop_last()) + enc_char(s.last())
    }
}

/// A string travels as its character count followed by one code point per
/// character.
pub open spec fn enc_string(s: Seq<char>) -> Seq<u8> {
    enc_u64(s.len() as u64) + enc_chars(s)
}

pub open spec fn enc_strings_items(s: Seq<Seq<char>>) -> Seq<u8>
    decreases s.len(),
{
    if s.len() == 0 {
        Seq::empty()
    } else {
        enc_strings_items(s.drop_last()) + enc_string(s.last())
    }
}

pub open spec fn enc_strings(s: Seq<Seq<char>>) -> Seq<u8> {
    enc_u64(s.len() as u64) + enc_strings_items(s)
}

// ---------------------------------------------------------------------------
// Decoding, mathematical form. Every function takes the whole byte sequence
// and a position, and yields the decoded value with the position after it,
// or nothing if the bytes are malformed there.
// ---------------------------------------------------------------------------

pub open spec fn dec_u8(s: Seq<u8>, i: int) -> Option<(u8, int)> {
    if 0 <= i && i + 1 <= s.len() {
        Option::Some((s[i], i + 1))
    } else {
        Option::None
    }
}

pub open spec fn dec_u32(s: Seq<u8>, i: int) -> Option<(u32, int)> {
    if 0 <= i && i + 4 <= s.len() {
        Option::Some(
            (
                (s[i] as u32) | (s[i + 1] as u32) << 8 | (s[i + 2] as u32) << 16 | (s[i + 3]
                    as u32) << 24,
                i + 4,
            ),
        )
    } else {
        Option::None
    }
}

pub open spec fn dec_u64(s: Seq<u8>, i: int) -> Option<(u64, int)> {
    if 0 <= i && i + 8 <= s.len() {
        Option::Some(
            (
                (s[i] as u64) | (s[i + 1] as u64) << 8 | (s[i + 2] as u64) << 16 | (s[i + 3]
                    as u64) << 24 | (s[i + 4] as u64) << 32 | (s[i + 5] as u64) << 40 | (s[i + 6]
                    as u64) << 48 | (s[i + 7] as u64) << 56,
                i + 8,
            ),
        )
    } else {
        Option::None
    }
}

pub open spec fn dec_i64(s: Seq<u8>, i: int) -> Option<(i64, int)> {
    match dec_u64(s, i) {
        Option::Some((v, j)) => Option::Some((v as i64, j)),
        Option::None => Option::None,
    }
}

pub open spec fn dec_bool(s: Seq<u8>, i: int) -> Option<(bool, int)> {
    match dec_u8(s, i) {
        Option::Some((v, j)) => {
            if v == 0 {
                Option::Some((false, j))
            } else if v == 1 {
                Option::Some((true, j))
            } else {
                Option::None
            }
        },
        Option::None => Option::None,
    }
}

pub open spec fn dec_char(s: Seq<u8>, i: int) -> Option<(char, int)> {
    match dec_u32(s, i) {
        Option::Some((v, j)) => {
            if char_scalar(v) {
                Option::Some((v as char, j))
            } else {
                Option::None
            }
        },
        Option::None => Option::None,
    }
}

pub open spec fn dec_chars(s: Seq<u8>, i: int, cnt: u64) -> Option<(Seq<char>, int)>
    decreases cnt,
{
    if cnt == 0 {
        Option::Some((Seq::empty(), i))
    } else {
        match dec_char(s, i) {
            Option::Some((c, j)) => match dec_chars(s, j, (cnt - 1) as u64) {
                Option::Some((rest, k)) => Option::Some((seq![c] + rest, k)),
                Option::None => Option::None,
            },
            Option::None => Option::None,
        }
    }
}

pub open spec fn dec_string(s: Seq<u8>, i: int) -> Option<(Seq<char>, int)> {
    match dec_u64(s, i) {
        Option::Some((cnt, j)) => dec_chars(s, j, cnt),
        Option::None => Option::None,
    }
}

pub open spec fn dec_strings_items(s: Seq<u8>, i: int, cnt: u64) -> Option<(Seq<Seq<char>>, int)>
    decreases cnt,
{
    if cnt == 0 {
        Option::Some((Seq::empty(), i))
    } else {
        match dec_string(s, i) {
            Option::Some((v, j)) => match dec_strings_items(s, j, (cnt - 1) as u64) {
                Option::Some((rest, k)) => Option::Some((seq![v] + rest, k)),
                Option::None => Option::None,
            },
            Option::None => Option::None,
        }
    }
}

pub open spec fn dec_strings(s: Seq<u8>, i: int) -> Option<(Seq<Seq<char>>, int)> {
    match dec_u64(s, i) {
        Option::Some((cnt, j)) => dec_strings_items(s, j, cnt),
        Option::None => Option::None,
    }
}

// ---------------------------------------------------------------------------
// Encoding, executable form. Each function appends the encoding of one value
// to an output buffer.
// ---------------------------------------------------------------------------

pub fn e_u32(out: &mut Vec<u8>, v: u32)
    ensures
        final(out)@ == old(out)@ + enc_u32(v),
{
    out.push((v % 0x100) as u8);
    out.push(((v >> 8) % 0x100) as u8);
    out.push(((v >> 16) % 0x100) as u8);
    out.push(((v >> 24) % 0x100) as u8);
    proof {
        assert(out@ =~= old(out)@ + enc_u32(v));
    }
}

pub fn e_u64(out: &mut Vec<u8>, v: u64)
    ensures
        final(out)@ == old(out)@ + enc_u64(v),
{
    out.push((v % 0x100) as u8);
    out.push(((v >> 8) % 0x100) as u8);
    out.push(((v >> 16) % 0x100) as u8);
    out.push(((v >> 24) % 0x100) as u8);
    out.push(((v >> 32) % 0x100) as u8);
    out.push(((v >> 40) % 0x100) as u8);
    out.push(((v >> 48) % 0x100) as u8);
    out.push(((v >> 56) % 0x100) as u8);
    proof {
        assert(out@ =~= old(out)@ + enc_u64(v));
    }
}

pub fn e_i64(out: &mut Vec<u8>, v: i64)
    ensures
        final(out)@ == old(out)@ + enc_i64(v),
{
    e_u64(out, v as u64);
}

pub fn e_bool(out: &mut Vec<u8>, v: bool)
    ensures
        final(out)@ == old(out)@ + enc_bool(v),
{
    out.push(if v { 1u8 } else { 0u8 });
    proof {
        assert(out@ =~= old(out)@ + enc_bool(v));
    }
}

pub fn e_string(out: &mut Vec<u8>, v: &str)
    ensures
        final(out)@ == old(out)@ + enc_string(v@),
{
    let n = v.unicode_len();
    e_u64(out, n as u64);
    let ghost mid = out@;
    let mut k: usize = 0;
    while k < n
        invariant
            0 <= k <= n,
            n == v@.len(),
            mid == old(out)@ + enc_u64(n as u64),
            out@ == mid + enc_chars(v@.take(k as int)),
        decreases n - k,
    {
        let c = v.get_char(k);
        e_u32(out, c as u32);
        proof {
            let t1 = v@.take(k as int + 1);
            assert(t1.drop_last() =~= v@.take(k as int));
            assert(t1.last() == v@[k as int]);
        }
        k = k + 1;
    }
    proof {
        assert(v@.take(v@.len() as int) =~= v@);
    }
}

pub fn e_strings(out: &mut Vec<u8>, v: &Vec<String>)
    ensures
        final(out)@ == old(out)@ + enc_strings(strings_view(v@)),
{
    e_u64(out, v.len() as u64);
    let ghost mid = out@;
    let mut k: usize = 0;
    while k < v.len()
        invariant
            0 <= k <= v.len(),
            out@ == mid + enc_strings_items(strings_view(v@.take(k as int))),
        decreases v.len() - k,
    {
        e_string(out, v[k].as_str());
        proof {
            let t1 = strings_view(v@.take(k as int + 1));
            assert(t1.drop_last() =~= strings_view(v@.take(k as int)));
            assert(t1.last() == v@[k as int]@);
        }
        k = k + 1;
    }
    proof {
        assert(v@.take(v.len() as int) =~= v@);
        assert(strings_view(v@) == strings_view(v@.take(v.len() as int)));
    }
}

// ---------------------------------------------------------------------------
// Decoding, executable form. Each function returns the decoded value with
// the position after it, and is exactly the mathematical decoder.
// ---------------------------------------------------------------------------

pub fn d_u8(b: &Vec<u8>, i: usize) -> (r: Option<(u8, usize)>)
    ensures
        match r {
            Option::Some((v, j)) => dec_u8(b@, i as int) == Option::Some((v, j as int)) && i < j
                <= b@.len(),
            Option::None => dec_u8(b@, i as int) is None,
        },
{
    if i < b.len() {
        Option::Some((b[i], i + 1))
    } else {
        Option::None
    }
}

pub fn d_u32(b: &Vec<u8>, i: usize) -> (r: Option<(u32, usize)>)
    ensures
        match r {
            Option::Some((v, j)) => dec_u32(b@, i as int) == Option::Some((v, j as int)) && i < j
                <= b@.len(),
            Option::None => dec_u32(b@, i as int) is None,
        },
{
    if b.len() >= 4 && i <= b.len() - 4 {
        let v = (b[i] as u32) | (b[i + 1] as u32) << 8 | (b[i + 2] as u32) << 16 | (b[i + 3]
            as u32) << 24;
        Option::Some((v, i + 4))
    } else {
        Option::None
    }
}

pub fn d_u64(b: &Vec<u8>, i: usize) -> (r: Option<(u64, usize)>)
    ensures
        match r {
            Option::Some((v, j)) => dec_u64(b@, i as int) == Option::Some((v, j as int)) && i < j
                <= b@.len(),
            Option::None => dec_u64(b@, i as int) is None,
        },
{
    if b.len() >= 8 && i <= b.len() - 8 {
        let v = (b[i] as u64) | (b[i + 1] as u64) << 8 | (b[i + 2] as u64) << 16 | (b[i + 3]
            as u64) << 24 | (b[i + 4] as u64) << 32 | (b[i + 5] as u64) << 40 | (b[i + 6]
            as u64) << 48 | (b[i + 7] as u64) << 56;
        Option::Some((v, i + 8))
    } else {
        Option::None
    }
}

pub fn d_i64(b: &Vec<u8>, i: usize) -> (r: Option<(i64, usize)>)
    ensures
        match r {
            Option::Some((v, j)) => dec_i64(b@, i as int) == Option::Some((v, j as int)) && i < j
                <= b@.len(),
            Option::None => dec_i64(b@, i as int) is None,
        },
{
    match d_u64(b, i) {
        Option::Some((v, j)) => Option::Some((v as i64, j)),
        Option::None => Option::None,
    }
}

pub fn d_bool(b: &Vec<u8>, i: usize) -> (r: Option<(bool, usize)>)
    ensures
        match r {
            Option::Some((v, j)) => dec_bool(b@, i as int) == Option::Some((v, j as int)) && i < j
                <= b@.len(),
            Option::None => dec_bool(b@, i as int) is None,
        },
{
    match d_u8(b, i) {
        Option::Some((v, j)) => {
            if v == 0 {
                Option::Some((false, j))
            } else if v == 1 {
                Option::Some((true, j))
            } else {
                Option::None
            }
        },
        Option::None => Option::None,
    }
}

pub fn d_char(b: &Vec<u8>, i: usize) -> (r: Option<(char, usize)>)
    ensures
        match r {
            Option::Some((c, j)) => dec_char(b@, i as int) == Option::Some((c, j as int)) && i < j
                <= b@.len(),
            Option::None => dec_char(b@, i as int) is None,
        },
{
    match d_u32(b, i) {
        Option::Some((v, j)) => {
            match char::from_u32(v) {
                Option::Some(c) => {
                    proof {
                        vstd::utf8::char_u32_cast(c, v);
                    }
                    Option::Some((c, j))
                },
                Option::None => Option::None,
            }
        },
        Option::None => Option::None,
    }
}

pub fn d_string(b: &Vec<u8>, i: usize) -> (r: Option<(String, usize)>)
    ensures
        match r {
            Option::Some((v, j)) => dec_string(b@, i as int) == Option::Some((v@, j as int)) && i
                < j <= b@.len(),
            Option::None => dec_string(b@, i as int) is None,
        },
{
    match d_u64(b, i) {
        Option::Some((cnt, j0)) => {
            let mut acc = String::new();
            let mut pos: usize = j0;
            let mut k: u64 = 0;
            loop
                invariant
                    k <= cnt,
                    i < j0 <= b@.len(),
                    i < pos <= b@.len(),
                    dec_u64(b@, i as int) == Option::Some((cnt, j0 as int)),
                    dec_chars(b@, j0 as int, cnt) == (match dec_chars(
                        b@,
                        pos as int,
                        (cnt - k) as u64,
                    ) {
                        Option::Some((rest, end)) => Option::Some((acc@ + rest, end)),
                        Option::None => Option::None::<(Seq<char>, int)>,
                    }),
                decreases cnt - k,
            {
                if k == cnt {
                    proof {
                        assert(dec_chars(b@, pos as int, 0) == Option::Some(
                            (Seq::<char>::empty(), pos as int),
                        ));
                        assert(acc@ + Seq::<char>::empty() =~= acc@);
                    }
                    return Option::Some((acc, pos));
                }
                match d_char(b, pos) {
                    Option::Some((c, p2)) => {
                        proof {
                            let rem = (cnt - k) as u64;
                            assert(dec_chars(b@, pos as int, rem) == (match dec_chars(
                                b@,
                                p2 as int,
                                (rem - 1) as u64,
                            ) {
                                Option::Some((rest2, end)) => Option::Some(
                                    (seq![c] + rest2, end),
                                ),
                                Option::None => Option::None::<(Seq<char>, int)>,
                            }));
                            assert(forall|rest2: Seq<char>| acc@ + (seq![c] + rest2) =~= (
                            acc@.push(c)) + rest2);
                        }
                        acc.push(c);
                        pos = p2;
                        k = k + 1;
                    },
                    Option::None => {
                        proof {
                            assert(dec_chars(b@, pos as int, (cnt - k) as u64) is None);
                        }
                        return Option::None;
                    },
                }
            }
        },
        Option::None => Option::None,
    }
}

pub fn d_strings(b: &Vec<u8>, i: usize) -> (r: Option<(Vec<String>, usize)>)
    ensures
        match r {
            Option::Some((v, j)) => dec_strings(b@, i as int) == Option::Some(
                (strings_view(v@), j as int),
            ) && i < j <= b@.len(),
            Option::None => dec_strings(b@, i as int) is None,
        },
{
    match d_u64(b, i) {
        Option::Some((cnt, j0)) => {
            let mut acc: Vec<String> = Vec::new();
            let mut pos: usize = j0;
            let mut k: u64 = 0;
            loop
                invariant
                    k <= cnt,
                    i < j0 <= b@.len(),
                    i < pos <= b@.len(),
                    dec_u64(b@, i as int) == Option::Some((cnt, j0 as int)),
                    k == acc@.len(),
                    dec_strings_items(b@, j0 as int, cnt) == (match dec_strings_items(
                        b@,
                        pos as int,
                        (cnt - k) as u64,
                    ) {
                        Option::Some((rest, end)) => Option::Some(
                            (strings_view(acc@) + rest, end),
                        ),
                        Option::None => Option::None::<(Seq<Seq<char>>, int)>,
                    }),
                decreases cnt - k,
            {
                if k == cnt {
                    proof {
                        assert(dec_strings_items(b@, pos as int, 0) == Option::Some(
                            (Seq::<Seq<char>>::empty(), pos as int),
                        ));
                        assert(strings_view(acc@) + Seq::<Seq<char>>::empty() =~= strings_view(
                            acc@,
                        ));
                    }
                    return Option::Some((acc, pos));
                }
                match d_string(b, pos) {
                    Option::Some((v, p2)) => {
                        proof {
                            let rem = (cnt - k) as u64;
                            assert(dec_strings_items(b@, pos as int, rem) == (match
                            dec_strings_items(b@, p2 as int, (rem - 1) as u64) {
                                Option::Some((rest2, end)) => Option::Some(
                                    (seq![v@] + rest2, end),
                                ),
                                Option::None => Option::None::<(Seq<Seq<char>>, int)>,
                            }));
                            assert(forall|rest2: Seq<Seq<char>>|
                                strings_view(acc@) + (seq![v@] + rest2) =~= strings_view(
                                    acc@.push(v),
                                ) + rest2);
                        }
                        acc.push(v);
                        pos = p2;
                        k = k + 1;
                    },
                    Option::None => {
                        proof {
                            assert(dec_strings_items(b@, pos as int, (cnt - k) as u64) is None);
                        }
                        return Option::None;
                    },
                }
            }
        },
        Option::None => Option::None,
    }
}

// ---------------------------------------------------------------------------
// Structured values, mathematical encoding.
// ---------------------------------------------------------------------------

pub open spec fn enc_lit(l: LitV) -> Seq<u8> {
    match l {
        LitV::IntVal(v) => seq![1u8] + enc_i64(v),
        LitV::FloatBits(v) => seq![2u8] + enc_u64(v),
        LitV::BoolVal(v) => seq![3u8] + enc_bool(v),
        LitV::StringVal(s) => seq![4u8] + enc_string(s),
        LitV::NullVal => seq![5u8],
    }
}

pub open spec fn enc_opt_lit(l: Option<LitV>) -> Seq<u8> {
    match l {
        Option::None => seq![0u8],
        Option::Some(v) => seq![1u8] + enc_lit(v),
    }
}

pub open spec fn enc_opt_u64(v: Option<u64>) -> Seq<u8> {
    match v {
        Option::None => seq![0u8],
        Option::Some(x) => seq![1u8] + enc_u64(x),
    }
}

pub open spec fn enc_opt_expr(e: Option<Box<ExprV>>) -> Seq<u8>
    decreases e,
{
    match e {
        Option::None => seq![0u8],
        Option::Some(b) => seq![1u8] + enc_expr(*b),
    }
}

/// The byte encoding of one expression: a tag byte, fixed-width parameters,
/// then children, then strings.
pub open spec fn enc_expr(e: ExprV) -> Seq<u8>
    decreases e,
{
    match e {
        ExprV::Col { name } => seq![1u8] + enc_string(name),
        ExprV::Lit { value } => seq![2u8] + enc_opt_lit(value),
        ExprV::Binary { op, left, right } => seq![3u8] + enc_u32(op) + enc_opt_expr(left)
            + enc_opt_expr(right),
        ExprV::Alias { expr, name } => seq![4u8] + enc_opt_expr(expr) + enc_string(name),
        ExprV::IsNull { expr } => seq![5u8] + enc_opt_expr(expr),
        ExprV::Not { expr } => seq![6u8] + enc_opt_expr(expr),
        ExprV::Wildcard => seq![7u8],
        ExprV::Exclude { columns } => seq![8u8] + enc_strings(columns),
        ExprV::Cast { expr, data_type, strict } => seq![9u8] + enc_u32(data_type) + enc_bool(
            strict,
        ) + enc_opt_expr(expr),
        ExprV::StrLenBytes { expr } => seq![10u8] + enc_opt_expr(expr),
        ExprV::StrLenChars { expr } => seq![11u8] + enc_opt_expr(expr),
        ExprV::StrContains { expr, pattern, literal } => seq![12u8] + enc_bool(literal)
            + enc_opt_expr(expr) + enc_string(pattern),
        ExprV::StrStartsWith { expr, prefix } => seq![13u8] + enc_opt_expr(expr) + enc_string(
            prefix,
        ),
        ExprV::StrEndsWith { expr, suffix } => seq![14u8] + enc_opt_expr(expr) + enc_string(
            suffix,
        ),
        ExprV::StrExtract { expr, pattern, group_index } => seq![15u8] + enc_u32(group_index)
            + enc_opt_expr(expr) + enc_string(pattern),
        ExprV::StrReplace { expr, pattern, value, literal } => seq![16u8] + enc_bool(literal)
            + enc_opt_expr(expr) + enc_string(pattern) + enc_string(value),
        ExprV::StrReplaceAll { expr, pattern, value, literal } => seq![17u8] + enc_bool(literal)
            + enc_opt_expr(expr) + enc_string(pattern) + enc_string(value),
        ExprV::StrToLowercase { expr } => seq![18u8] + enc_opt_expr(expr),
        ExprV::StrToUppercase { expr } => seq![19u8] + enc_opt_expr(expr),
        ExprV::StrStripChars { expr, chars } => seq![20u8] + enc_opt_expr(expr) + enc_string(
            chars,
        ),
        ExprV::StrSlice { expr, offset, length } => seq![21u8] + enc_i64(offset) + enc_opt_expr(
            expr,
        ) + enc_opt_u64(length),
        ExprV::StrSplit { expr, by } => seq![22u8] + enc_opt_expr(expr) + enc_string(by),
        ExprV::StrPadStart { expr, length, fill_char } => seq![23u8] + enc_u64(length)
            + enc_opt_expr(expr) + enc_string(fill_char),
        ExprV::StrPadEnd { expr, length, fill_char } => seq![24u8] + enc_u64(length)
            + enc_opt_expr(expr) + enc_string(fill_char),
    }
}

pub open spec fn enc_exprs_items(s: Seq<ExprV>) -> Seq<u8>
    decreases s.len(),
{
    if s.len() == 0 {
        Seq::empty()
    } else {
        enc_exprs_items(s.drop_last()) + enc_expr(s.last())
    }
}

pub open spec fn enc_exprs(s: Seq<ExprV>) -> Seq<u8> {
    enc_u64(s.len() as u64) + enc_exprs_items(s)
}

pub open spec fn enc_opt_node(n: Option<Box<NodeV>>) -> Seq<u8>
    decreases n,
{
    match n {
        Option::None => seq![0u8],
        Option::Some(b) => seq![1u8] + enc_node(*b),
    }
}

/// The byte encoding of one relational node.
pub open spec fn enc_node(n: NodeV) -> Seq<u8>
    decreases n,
{
    match n {
        NodeV::CsvScan { path } => seq![1u8] + enc_string(path),
        NodeV::ParquetScan { path } => seq![2u8] + enc_string(path),
        NodeV::MemoryScan { column_names } => seq![3u8] + enc_strings(column_names),
        NodeV::Project { input, expressions } => seq![4u8] + enc_opt_node(input) + enc_exprs(
            expressions,
        ),
        NodeV::Filter { input, predicate } => seq![5u8] + enc_opt_node(input) + enc_opt_expr(
            predicate,
        ),
        NodeV::WithColumns { input, expressions } => seq![6u8] + enc_opt_node(input) + enc_exprs(
            expressions,
        ),
        NodeV::Limit { input, n } => seq![7u8] + enc_u64(n) + enc_opt_node(input),
    }
}

/// The byte encoding of a whole plan: the wire version, then the optional
/// root node.
pub open spec fn enc_plan(p: PlanV) -> Seq<u8> {
    enc_u32(p.plan_version) + (match p.root {
        Option::None => seq![0u8],
        Option::Some(n) => seq![1u8] + enc_node(n),
    })
}

// ---------------------------------------------------------------------------
// Structured values, mathematical decoding.
// ---------------------------------------------------------------------------

pub open spec fn dec_lit(s: Seq<u8>, i: int) -> Option<(LitV, int)> {
    match dec_u8(s, i) {
        Option::Some((tag, j)) => {
            if tag == 1 {
                match dec_i64(s, j) {
                    Option::Some((v, k)) => Option::Some((LitV::IntVal(v), k)),
                    Option::None => Option::None,
                }
            } else if tag == 2 {
                match dec_u64(s, j) {
                    Option::Some((v, k)) => Option::Some((LitV::FloatBits(v), k)),
                    Option::None => Option::None,
                }
            } else if tag == 3 {
                match dec_bool(s, j) {
                    Option::Some((v, k)) => Option::Some((LitV::BoolVal(v), k)),
                    Option::None => Option::None,
                }
            } else if tag == 4 {
                match dec_string(s, j) {
                    Option::Some((v, k)) => Option::Some((LitV::StringVal(v), k)),
                    Option::None => Option::None,
                }
            } else if tag == 5 {
                Option::Some((LitV::NullVal, j))
            } else {
                Option::None
            }
        },
        Option::None => Option::None,
    }
}

pub open spec fn dec_opt_lit(s: Seq<u8>, i: int) -> Option<(Option<LitV>, int)> {
    match dec_u8(s, i) {
        Option::Some((flag, j)) => {
            if flag == 0 {
                Option::Some((Option::None, j))
            } else if flag == 1 {
                match dec_lit(s, j) {
                    Option::Some((v, k)) => Option::Some((Option::Some(v), k)),
                    Option::None => Option::None,
                }
            } else {
                Option::None
            }
        },
        Option::None => Option::None,
    }
}

pub open spec fn dec_opt_u64(s: Seq<u8>, i: int) -> Option<(Option<u64>, int)> {
    match dec_u8(s, i) {
        Option::Some((flag, j)) => {
            if flag == 0 {
                Option::Some((Option::None, j))
            } else if flag == 1 {
                match dec_u64(s, j) {
                    Option::Some((v, k)) => Option::Some((Option::Some(v), k)),
                    Option::None => Option::None,
                }
            } else {
                Option::None
            }
        },
        Option::None => Option::None,
    }
}

/// The position at which decoding continues after a child that ended at `j`,
/// as seen from a value that started at `lo`. Whenever the child really
/// ended inside the buffer this is `j` itself; the other arms only bound the
/// recursion of the mathematical decoder.
pub open spec fn next_pos(s: Seq<u8>, lo: int, j: int) -> int {
    if lo < j && j <= s.len() {
        j
    } else if lo + 1 <= s.len() {
        lo + 1
    } else {
        s.len() as int
    }
}

pub open spec fn dec_opt_expr(s: Seq<u8>, i: int) -> Option<(Option<Box<ExprV>>, int)>
    decreases s.len() - i, 1int,
{
    match dec_u8(s, i) {
        Option::Some((flag, j)) => {
            if flag == 0 {
                Option::Some((Option::None, j))
            } else if flag == 1 {
                match dec_expr(s, j) {
                    Option::Some((e, k)) => Option::Some((Option::Some(Box::new(e)), k)),
                    Option::None => Option::None,
                }
            } else {
                Option::None
            }
        },
        Option::None => Option::None,
    }
}

/// The mathematical decoder for one expression, the exact inverse reading of
/// `enc_expr`.
pub open spec fn dec_expr(s: Seq<u8>, i: int) -> Option<(ExprV, int)>
    decreases s.len() - i, 2int,
{
    match dec_u8(s, i) {
        Option::Some((tag, j)) => {
            if tag == 1 {
                match dec_string(s, j) {
                    Option::Some((name, k)) => Option::Some((ExprV::Col { name }, k)),
                    Option::None => Option::None,
                }
            } else if tag == 2 {
                match dec_opt_lit(s, j) {
                    Option::Some((value, k)) => Option::Some((ExprV::Lit { value }, k)),
                    Option::None => Option::None,
                }
            } else if tag == 3 {
                match dec_u32(s, j) {
                    Option::Some((op, j2)) => match dec_opt_expr(s, j2) {
                        Option::Some((left, j3)) => match dec_opt_expr(s, next_pos(s, i, j3)) {
                            Option::Some((right, j4)) => {
                                if i < j3 <= s.len() {
                                    Option::Some((ExprV::Binary { op, left, right }, j4))
                                } else {
                                    Option::None
                                }
                            },
                            Option::None => Option::None,
                        },
                        Option::None => Option::None,
                    },
                    Option::None => Option::None,
                }
            } else if tag == 4 {
                match dec_opt_expr(s, j) {
                    Option::Some((expr, j2)) => match dec_string(s, j2) {
                        Option::Some((name, k)) => Option::Some((ExprV::Alias { expr, name }, k)),
                        Option::None => Option::None,
                    },
                    Option::None => Option::None,
                }
            } else if tag == 5 {
                match dec_opt_expr(s, j) {
                    Option::Some((expr, k)) => Option::Some((ExprV::IsNull { expr }, k)),
                    Option::None => Option::None,
                }
            } else if tag == 6 {
                match dec_opt_expr(s, j) {
                    Option::Some((expr, k)) => Option::Some((ExprV::Not { expr }, k)),
                    Option::None => Option::None,
                }
            } else if tag == 7 {
                Option::Some((ExprV::Wildcard, j))
            } else if tag == 8 {
                match dec_strings(s, j) {
                    Option::Some((columns, k)) => Option::Some((ExprV::Exclude { columns }, k)),
                    Option::None => Option::None,
                }
            } else if tag == 9 {
                match dec_u32(s, j) {
                    Option::Some((data_type, j2)) => match dec_bool(s, j2) {
                        Option::Some((strict, j3)) => match dec_opt_expr(s, j3) {
                            Option::Some((expr, k)) => Option::Some(
                                (ExprV::Cast { expr, data_type, strict }, k),
                            ),
                            Option::None => Option::None,
                        },
                        Option::None => Option::None,
                    },
                    Option::None => Option::None,
                }
            } else if tag == 10 {
                match dec_opt_expr(s, j) {
                    Option::Some((expr, k)) => Option::Some((ExprV::StrLenBytes { expr }, k)),
                    Option::None => Option::None,
                }
            } else if tag == 11 {
                match dec_opt_expr(s, j) {
                    Option::Some((expr, k)) => Option::Some((ExprV::StrLenChars { expr }, k)),
                    Option::None => Option::None,
                }
            } else if tag == 12 {
                match dec_bool(s, j) {
                    Option::Some((literal, j2)) => match dec_opt_expr(s, j2) {
                        Option::Some((expr, j3)) => match dec_string(s, j3) {
                            Option::Some((pattern, k)) => Option::Some(
                                (ExprV::StrContains { expr, pattern, literal }, k),
                            ),
                            Option::None => Option::None,
                        },
                        Option::None => Option::None,
                    },
                    Option::None => Option::None,
                }
            } else if tag == 13 {
                match dec_opt_expr(s, j) {
                    Option::Some((expr, j2)) => match dec_string(s, j2) {
                        Option::Some((prefix, k)) => Option::Some(
                            (ExprV::StrStartsWith { expr, prefix }, k),
                        ),
                        Option::None => Option::None,
                    },
                    Option::None => Option::None,
                }
            } else if tag == 14 {
                match dec_opt_expr(s, j) {
                    Option::Some((expr, j2)) => match dec_string(s, j2) {
                        Option::Some((suffix, k)) => Option::Some(
                            (ExprV::StrEndsWith { expr, suffix }, k),
                        ),
                        Option::None => Option::None,
                    },
                    Option::None => Option::None,
                }
            } else if tag == 15 {
                match dec_u32(s, j) {
                    Option::Some((group_index, j2)) => match dec_opt_expr(s, j2) {
                        Option::Some((expr, j3)) => match dec_string(s, j3) {
                            Option::Some((pattern, k)) => Option::Some(
                                (ExprV::StrExtract { expr, pattern, group_index }, k),
                            ),
                            Option::None => Option::None,
                        },
                        Option::None => Option::None,
                    },
                    Option::None => Option::None,
                }
            } else if tag == 16 {
                match dec_bool(s, j) {
                    Option::Some((literal, j2)) => match dec_opt_expr(s, j2) {
                        Option::Some((expr, j3)) => match dec_string(s, j3) {
                            Option::Some((pattern, j4)) => match dec_string(s, j4) {
                                Option::Some((value, k)) => Option::Some(
                                    (ExprV::StrReplace { expr, pattern, value, literal }, k),
                                ),
                                Option::None => Option::None,
                            },
                            Option::None => Option::None,
                        },
                        Option::None => Option::None,
                    },
                    Option::None => Option::None,
                }
            } else if tag == 17 {
                match dec_bool(s, j) {
                    Option::Some((literal, j2)) => match dec_opt_expr(s, j2) {
                        Option::Some((expr, j3)) => match dec_string(s, j3) {
                            Option::Some((pattern, j4)) => match dec_string(s, j4) {
                                Option::Some((value, k)) => Option::Some(
                                    (ExprV::StrReplaceAll { expr, pattern, value, literal }, k),
                                ),
                                Option::None => Option::None,
                            },
                            Option::None => Option::None,
                        },
                        Option::None => Option::None,
                    },
                    Option::None => Option::None,
                }
            } else if tag == 18 {
                match dec_opt_expr(s, j) {
                    Option::Some((expr, k)) => Option::Some((ExprV::StrToLowercase { expr }, k)),
                    Option::None => Option::None,
                }
            } else if tag == 19 {
                match dec_opt_expr(s, j) {
                    Option::Some((expr, k)) => Option::Some((ExprV::StrToUppercase { expr }, k)),
                    Option::None => Option::None,
                }
            } else if tag == 20 {
                match dec_opt_expr(s, j) {
                    Option::Some((expr, j2)) => match dec_string(s, j2) {
                        Option::Some((chars, k)) => Option::Some(
                            (ExprV::StrStripChars { expr, chars }, k),
                        ),
                        Option::None => Option::None,
                    },
                    Option::None => Option::None,
                }
            } else if tag == 21 {
                match dec_i64(s, j) {
                    Option::Some((offset, j2)) => match dec_opt_expr(s, j2) {
                        Option::Some((expr, j3)) => match dec_opt_u64(s, j3) {
                            Option::Some((length, k)) => Option::Some(
                                (ExprV::StrSlice { expr, offset, length }, k),
                            ),
                            Option::None => Option::None,
                        },
                        Option::None => Option::None,
                    },
                    Option::None => Option::None,
                }
            } else if tag == 22 {
                match dec_opt_expr(s, j) {
                    Option::Some((expr, j2)) => match dec_string(s, j2) {
                        Option::Some((by, k)) => Option::Some((ExprV::StrSplit { expr, by }, k)),
                        Option::None => Option::None,
                    },
                    Option::None => Option::None,
                }
            } else if tag == 23 {
                match dec_u64(s, j) {
                    Option::Some((length, j2)) => match dec_opt_expr(s, j2) {
                        Option::Some((expr, j3)) => match dec_string(s, j3) {
                            Option::Some((fill_char, k)) => Option::Some(
                                (ExprV::StrPadStart { expr, length, fill_char }, k),
                            ),
                            Option::None => Option::None,
                        },
                        Option::None => Option::None,
                    },
                    Option::None => Option::None,
                }
            } else if tag == 24 {
                match dec_u64(s, j) {
                    Option::Some((length, j2)) => match dec_opt_expr(s, j2) {
                        Option::Some((expr, j3)) => match dec_string(s, j3) {
                            Option::Some((fill_char, k)) => Option::Some(
                                (ExprV::StrPadEnd { expr, length, fill_char }, k),
                            ),
                            Option::None => Option::None,
                        },
                        Option::None => Option::None,
                    },
                    Option::None => Option::None,
                }
            } else {
                Option::None
            }
        },
        Option::None => Option::None,
    }
}

pub open spec fn dec_exprs_items(s: Seq<u8>, i: int, cnt: u64) -> Option<(Seq<ExprV>, int)>
    decreases cnt,
{
    if cnt == 0 {
        Option::Some((Seq::empty(), i))
    } else {
        match dec_expr(s, i) {
            Option::Some((e, j)) => match dec_exprs_items(s, j, (cnt - 1) as u64) {
                Option::Some((rest, k)) => Option::Some((seq![e] + rest, k)),
                Option::None => Option::None,
            },
            Option::None => Option::None,
        }
    }
}

pub open spec fn dec_exprs(s: Seq<u8>, i: int) -> Option<(Seq<ExprV>, int)> {
    match dec_u64(s, i) {
        Option::Some((cnt, j)) => dec_exprs_items(s, j, cnt),
        Option::None => Option::None,
    }
}

pub open spec fn dec_opt_node(s: Seq<u8>, i: int) -> Option<(Option<Box<NodeV>>, int)>
    decreases s.len() - i, 1int,
{
    match dec_u8(s, i) {
        Option::Some((flag, j)) => {
            if flag == 0 {
                Option::Some((Option::None, j))
            } else if flag == 1 {
                match dec_node(s, j) {
                    Option::Some((n, k)) => Option::Some((Option::Some(Box::new(n)), k)),
                    Option::None => Option::None,
                }
            } else {
                Option::None
            }
        },
        Option::None => Option::None,
    }
}

/// The mathematical decoder for one relational node, the exact inverse
/// reading of `enc_node`.
pub open spec fn dec_node(s: Seq<u8>, i: int) -> Option<(NodeV, int)>
    decreases s.len() - i, 2int,
{
    match dec_u8(s, i) {
        Option::Some((tag, j)) => {
            if tag == 1 {
                match dec_string(s, j) {
                    Option::Some((path, k)) => Option::Some((NodeV::CsvScan { path }, k)),
                    Option::None => Option::None,
                }
            } else if tag == 2 {
                match dec_string(s, j) {
                    Option::Some((path, k)) => Option::Some((NodeV::ParquetScan { path }, k)),
                    Option::None => Option::None,
                }
            } else if tag == 3 {
                match dec_strings(s, j) {
                    Option::Some((column_names, k)) => Option::Some(
                        (NodeV::MemoryScan { column_names }, k),
                    ),
                    Option::None => Option::None,
                }
            } else if tag == 4 {
                match dec_opt_node(s, j) {
                    Option::Some((input, j2)) => match dec_exprs(s, j2) {
                        Option::Some((expressions, k)) => Option::Some(
                            (NodeV::Project { input, expressions }, k),
                        ),
                        Option::None => Option::None,
                    },
                    Option::None => Option::None,
                }
            } else if tag == 5 {
                match dec_opt_node(s, j) {
                    Option::Some((input, j2)) => match dec_opt_expr(s, j2) {
                        Option::Some((predicate, k)) => Option::Some(
                            (NodeV::Filter { input, predicate }, k),
                        ),
                        Option::None => Option::None,
                    },
                    Option::None => Option::None,
                }
            } else if tag == 6 {
                match dec_opt_node(s, j) {
                    Option::Some((input, j2)) => match dec_exprs(s, j2) {
                        Option::Some((expressions, k)) => Option::Some(
                            (NodeV::WithColumns { input, expressions }, k),
                        ),
                        Option::None => Option::None,
                    },
                    Option::None => Option::None,
                }
            } else if tag == 7 {
                match dec_u64(s, j) {
                    Option::Some((n, j2)) => match dec_opt_node(s, j2) {
                        Option::Some((input, k)) => Option::Some((NodeV::Limit { input, n }, k)),
                        Option::None => Option::None,
                    },
                    Option::None => Option::None,
                }
            } else {
                Option::None
            }
        },
        Option::None => Option::None,
    }
}

/// The mathematical decoder for a whole plan. The result is only the plan:
/// it exists exactly when the bytes decode and are consumed entirely.
pub open spec fn dec_plan(s: Seq<u8>) -> Option<PlanV> {
    match dec_u32(s, 0) {
        Option::Some((plan_version, j)) => match dec_u8(s, j) {
            Option::Some((flag, j2)) => {
                if flag == 0 {
                    if j2 == s.len() {
                        Option::Some(PlanV { plan_version, root: Option::None })
                    } else {
                        Option::None
                    }
                } else if flag == 1 {
                    match dec_node(s, j2) {
                        Option::Some((n, k)) => {
                            if k == s.len() {
                                Option::Some(PlanV { plan_version, root: Option::Some(n) })
                            } else {
                                Option::None
                            }
                        },
                        Option::None => Option::None,
                    }
                } else {
                    Option::None
                }
            },
            Option::None => Option::None,
        },
        Option::None => Option::None,
    }
}

// ---------------------------------------------------------------------------
// Structured values, executable encoding.
// ---------------------------------------------------------------------------

pub fn e_lit(out: &mut Vec<u8>, l: &LitValue)
    ensures
        final(out)@ == old(out)@ + enc_lit(l@),
{
    match l {
        LitValue::IntVal(v) => {
            out.push(1u8);
            e_i64(out, *v);
        },
        LitValue::FloatBits(v) => {
            out.push(2u8);
            e_u64(out, *v);
        },
        LitValue::BoolVal(v) => {
            out.push(3u8);
            e_bool(out, *v);
        },
        LitValue::StringVal(v) => {
            out.push(4u8);
            e_string(out, v.as_str());
        },
        LitValue::NullVal => {
            out.push(5u8);
        },
    }
    proof {
        assert(final(out)@ =~= old(out)@ + enc_lit(l@));
    }
}

pub fn e_opt_expr(out: &mut Vec<u8>, e: &Option<Box<ExprIr>>)
    ensures
        final(out)@ == old(out)@ + enc_opt_expr(opt_expr_view(*e)),
    decreases *e,
{
    match e {
        Option::None => {
            out.push(0u8);
        },
        Option::Some(b) => {
            out.push(1u8);
            e_expr(out, &**b);
        },
    }
    proof {
        assert(final(out)@ =~= old(out)@ + enc_opt_expr(opt_expr_view(*e)));
    }
}

/// Appends the encoding of one expression.
#[verifier::rlimit(100)]
pub fn e_expr(out: &mut Vec<u8>, e: &ExprIr)
    ensures
        final(out)@ == old(out)@ + enc_expr(e@),
    decreases *e,
{
    match e {
        ExprIr::Col { name } => {
            out.push(1u8);
            e_string(out, name.as_str());
        },
        ExprIr::Lit { value } => {
            out.push(2u8);
            match value {
                Option::None => {
                    out.push(0u8);
                },
                Option::Some(v) => {
                    out.push(1u8);
                    e_lit(out, v);
                },
            }
        },
        ExprIr::Binary { op, left, right } => {
            out.push(3u8);
            e_u32(out, *op);
            e_opt_expr(out, left);
            e_opt_expr(out, right);
        },
        ExprIr::Alias { expr, name } => {
            out.push(4u8);
            e_opt_expr(out, expr);
            e_string(out, name.as_str());
        },
        ExprIr::IsNull { expr } => {
            out.push(5u8);
            e_opt_expr(out, expr);
        },
        ExprIr::Not { expr } => {
            out.push(6u8);
            e_opt_expr(out, expr);
        },
        ExprIr::Wildcard => {
            out.push(7u8);
        },
        ExprIr::Exclude { columns } => {
            out.push(8u8);
            e_strings(out, columns);
        },
        ExprIr::Cast { expr, data_type, strict } => {
            out.push(9u8);
            e_u32(out, *data_type);
            e_bool(out, *strict);
            e_opt_expr(out, expr);
        },
        ExprIr::StrLenBytes { expr } => {
            out.push(10u8);
            e_opt_expr(out, expr);
        },
        ExprIr::StrLenChars { expr } => {
            out.push(11u8);
            e_opt_expr(out, expr);
        },
        ExprIr::StrContains { expr, pattern, literal } => {
            out.push(12u8);
            e_bool(out, *literal);
            e_opt_expr(out, expr);
            e_string(out, pattern.as_str());
        },
        ExprIr::StrStartsWith { expr, prefix } => {
            out.push(13u8);
            e_opt_expr(out, expr);
            e_string(out, prefix.as_str());
        },
        ExprIr::StrEndsWith { expr, suffix } => {
            out.push(14u8);
            e_opt_expr(out, expr);
            e_string(out, suffix.as_str());
        },
        ExprIr::StrExtract { expr, pattern, group_index } => {
            out.push(15u8);
            e_u32(out, *group_index);
            e_opt_expr(out, expr);
            e_string(out, pattern.as_str());
        },
        ExprIr::StrReplace { expr, pattern, value, literal } => {
            out.push(16u8);
            e_bool(out, *literal);
            e_opt_expr(out, expr);
            e_string(out, pattern.as_str());
            e_string(out, value.as_str());
        },
        ExprIr::StrReplaceAll { expr, pattern, value, literal } => {
            out.push(17u8);
            e_bool(out, *literal);
            e_opt_expr(out, expr);
            e_string(out, pattern.as_str());
            e_string(out, value.as_str());
        },
        ExprIr::StrToLowercase { expr } => {
            out.push(18u8);
            e_opt_expr(out, expr);
        },
        ExprIr::StrToUppercase { expr } => {
            out.push(19u8);
            e_opt_expr(out, expr);
        },
        ExprIr::StrStripChars { expr, chars } => {
            out.push(20u8);
            e_opt_expr(out, expr);
            e_string(out, chars.as_str());
        },
        ExprIr::StrSlice { expr, offset, length } => {
            out.push(21u8);
            e_i64(out, *offset);
            e_opt_expr(out, expr);
            match length {
                Option::None => {
                    out.push(0u8);
                },
                Option::Some(x) => {
                    out.push(1u8);
                    e_u64(out, *x);
                },
            }
        },
        ExprIr::StrSplit { expr, by } => {
            out.push(22u8);
            e_opt_expr(out, expr);
            e_string(out, by.as_str());
        },
        ExprIr::StrPadStart { expr, length, fill_char } => {
            out.push(23u8);
            e_u64(out, *length);
            e_opt_expr(out, expr);
            e_string(out, fill_char.as_str());
        },
        ExprIr::StrPadEnd { expr, length, fill_char } => {
            out.push(24u8);
            e_u64(out, *length);
            e_opt_expr(out, expr);
            e_string(out, fill_char.as_str());
        },
    }
    proof {
        assert(final(out)@ =~= old(out)@ + enc_expr(e@));
    }
}

pub fn e_exprs(out: &mut Vec<u8>, v: &Vec<ExprIr>)
    ensures
        final(out)@ == old(out)@ + enc_exprs(exprs_view(v@)),
{
    e_u64(out, v.len() as u64);
    let ghost mid = out@;
    let mut k: usize = 0;
    while k < v.len()
        invariant
            0 <= k <= v.len(),
            mid == old(out)@ + enc_u64(v@.len() as u64),
            out@ == mid + enc_exprs_items(exprs_view(v@.take(k as int))),
        decreases v.len() - k,
    {
        e_expr(out, &v[k]);
        proof {
            let t1 = exprs_view(v@.take(k as int + 1));
            assert(v@.take(k as int + 1).drop_last() =~= v@.take(k as int));
            assert(v@.take(k as int + 1).last() == v@[k as int]);
            assert(t1.drop_last() == exprs_view(v@.take(k as int)));
            assert(t1.last() == expr_view(v@[k as int]));
        }
        k = k + 1;
    }
    proof {
        crate::plan::lemma_exprs_view_len(v@);
        assert(v@.take(v.len() as int) =~= v@);
        assert(exprs_view(v@) == exprs_view(v@.take(v.len() as int)));
    }
}

pub fn e_opt_node(out: &mut Vec<u8>, n: &Option<Box<Node>>)
    ensures
        final(out)@ == old(out)@ + enc_opt_node(opt_node_view(*n)),
    decreases *n,
{
    match n {
        Option::None => {
            out.push(0u8);
        },
        Option::Some(b) => {
            out.push(1u8);
            e_node(out, &**b);
        },
    }
    proof {
        assert(final(out)@ =~= old(out)@ + enc_opt_node(opt_node_view(*n)));
    }
}

/// Appends the encoding of one relational node.
#[verifier::rlimit(60)]
pub fn e_node(out: &mut Vec<u8>, n: &Node)
    ensures
        final(out)@ == old(out)@ + enc_node(n@),
    decreases *n,
{
    match n {
        Node::CsvScan { path } => {
            out.push(1u8);
            e_string(out, path.as_str());
        },
        Node::ParquetScan { path } => {
            out.push(2u8);
            e_string(out, path.as_str());
        },
        Node::MemoryScan { column_names } => {
            out.push(3u8);
            e_strings(out, column_names);
        },
        Node::Project { input, expressions } => {
            out.push(4u8);
            e_opt_node(out, input);
            e_exprs(out, expressions);
        },
        Node::Filter { input, predicate } => {
            out.push(5u8);
            e_opt_node(out, input);
            e_opt_expr(out, predicate);
        },
        Node::WithColumns { input, expressions } => {
            out.push(6u8);
            e_opt_node(out, input);
            e_exprs(out, expressions);
        },
        Node::Limit { input, n } => {
            out.push(7u8);
            e_u64(out, *n);
            e_opt_node(out, input);
        },
    }
    proof {
        assert(final(out)@ =~= old(out)@ + enc_node(n@));
    }
}

/// Encodes a whole plan into its wire bytes.
pub fn encode_plan(p: &Plan) -> (r: Vec<u8>)
    ensures
        r@ == enc_plan(p@),
{
    let mut out: Vec<u8> = Vec::new();
    e_u32(&mut out, p.plan_version);
    match &p.root {
        Option::None => {
            out.push(0u8);
        },
        Option::Some(n) => {
            out.push(1u8);
            e_node(&mut out, n);
        },
    }
    proof {
        assert(out@ =~= enc_plan(p@));
    }
    out
}

// ---------------------------------------------------------------------------
// Structured values, executable decoding.
// ---------------------------------------------------------------------------

pub fn d_lit(b: &Vec<u8>, i: usize) -> (r: Option<(LitValue, usize)>)
    ensures
        match r {
            Option::Some((v, j)) => dec_lit(b@, i as int) == Option::Some((v@, j as int)) && i < j
                <= b@.len(),
            Option::None => dec_lit(b@, i as int) is None,
        },
{
    match d_u8(b, i) {
        Option::Some((tag, j)) => {
            if tag == 1 {
                match d_i64(b, j) {
                    Option::Some((v, k)) => Option::Some((LitValue::IntVal(v), k)),
                    Option::None => Option::None,
                }
            } else if tag == 2 {
                match d_u64(b, j) {
                    Option::Some((v, k)) => Option::Some((LitValue::FloatBits(v), k)),
                    Option::None => Option::None,
                }
            } else if tag == 3 {
                match d_bool(b, j) {
                    Option::Some((v, k)) => Option::Some((LitValue::BoolVal(v), k)),
                    Option::None => Option::None,
                }
            } else if tag == 4 {
                match d_string(b, j) {
                    Option::Some((v, k)) => Option::Some((LitValue::StringVal(v), k)),
                    Option::None => Option::None,
                }
            } else if tag == 5 {
                Option::Some((LitValue::NullVal, j))
            } else {
                Option::None
            }
        },
        Option::None => Option::None,
    }
}

pub fn d_opt_lit(b: &Vec<u8>, i: usize) -> (r: Option<(Option<LitValue>, usize)>)
    ensures
        match r {
            Option::Some((v, j)) => dec_opt_lit(b@, i as int) == Option::Some(
                (
                    match v {
                        Option::None => Option::None,
                        Option::Some(l) => Option::Some(l@),
                    },
                    j as int,
                ),
            ) && i < j <= b@.len(),
            Option::None => dec_opt_lit(b@, i as int) is None,
        },
{
    match d_u8(b, i) {
        Option::Some((flag, j)) => {
            if flag == 0 {
                Option::Some((Option::None, j))
            } else if flag == 1 {
                match d_lit(b, j) {
                    Option::Some((v, k)) => Option::Some((Option::Some(v), k)),
                    Option::None => Option::None,
                }
            } else {
                Option::None
            }
        },
        Option::None => Option::None,
    }
}

pub fn d_opt_u64(b: &Vec<u8>, i: usize) -> (r: Option<(Option<u64>, usize)>)
    ensures
        match r {
            Option::Some((v, j)) => dec_opt_u64(b@, i as int) == Option::Some((v, j as int)) && i
                < j <= b@.len(),
            Option::None => dec_opt_u64(b@, i as int) is None,
        },
{
    match d_u8(b, i) {
        Option::Some((flag, j)) => {
            if flag == 0 {
                Option::Some((Option::None, j))
            } else if flag == 1 {
                match d_u64(b, j) {
                    Option::Some((v, k)) => Option::Some((Option::Some(v), k)),
                    Option::None => Option::None,
                }
            } else {
                Option::None
            }
        },
        Option::None => Option::None,
    }
}

pub fn d_opt_expr(b: &Vec<u8>, i: usize) -> (r: Option<(Option<Box<ExprIr>>, usize)>)
    ensures
        match r {
            Option::Some((v, j)) => dec_opt_expr(b@, i as int) == Option::Some(
                (opt_expr_view(v), j as int),
            ) && i < j <= b@.len(),
            Option::None => dec_opt_expr(b@, i as int) is None,
        },
    decreases b@.len() - i, 1int,
{
    match d_u8(b, i) {
        Option::Some((flag, j)) => {
            if flag == 0 {
                Option::Some((Option::None, j))
            } else if flag == 1 {
                match d_expr(b, j) {
                    Option::Some((e, k)) => Option::Some((Option::Some(Box::new(e)), k)),
                    Option::None => Option::None,
                }
            } else {
                Option::None
            }
        },
        Option::None => Option::None,
    }
}

/// Decodes one expression, exactly as the mathematical decoder reads it.
#[verifier::rlimit(100)]
pub fn d_expr(b: &Vec<u8>, i: usize) -> (r: Option<(ExprIr, usize)>)
    ensures
        match r {
            Option::Some((e, j)) => dec_expr(b@, i as int) == Option::Some((e@, j as int)) && i
                < j <= b@.len(),
            Option::None => dec_expr(b@, i as int) is None,
        },
    decreases b@.len() - i, 2int,
{
    match d_u8(b, i) {
        Option::Some((tag, j)) => {
            if tag == 1 {
                match d_string(b, j) {
                    Option::Some((name, k)) => Option::Some((ExprIr::Col { name }, k)),
                    Option::None => Option::None,
                }
            } else if tag == 2 {
                match d_opt_lit(b, j) {
                    Option::Some((value, k)) => Option::Some((ExprIr::Lit { value }, k)),
                    Option::None => Option::None,
                }
            } else if tag == 3 {
                match d_u32(b, j) {
                    Option::Some((op, j2)) => match d_opt_expr(b, j2) {
                        Option::Some((left, j3)) => {
                            proof {
                                assert(next_pos(b@, i as int, j3 as int) == j3 as int);
                            }
                            match d_opt_expr(b, j3) {
                                Option::Some((right, j4)) => Option::Some(
                                    (ExprIr::Binary { op, left, right }, j4),
                                ),
                                Option::None => Option::None,
                            }
                        },
                        Option::None => Option::None,
                    },
                    Option::None => Option::None,
                }
            } else if tag == 4 {
                match d_opt_expr(b, j) {
                    Option::Some((expr, j2)) => match d_string(b, j2) {
                        Option::Some((name, k)) => Option::Some((ExprIr::Alias { expr, name }, k)),
                        Option::None => Option::None,
                    },
                    Option::None => Option::None,
                }
            } else if tag == 5 {
                match d_opt_expr(b, j) {
                    Option::Some((expr, k)) => Option::Some((ExprIr::IsNull { expr }, k)),
                    Option::None => Option::None,
                }
            } else if tag == 6 {
                match d_opt_expr(b, j) {
                    Option::Some((expr, k)) => Option::Some((ExprIr::Not { expr }, k)),
                    Option::None => Option::None,
                }
            } else if tag == 7 {
                Option::Some((ExprIr::Wildcard, j))
            } else if tag == 8 {
                match d_strings(b, j) {
                    Option::Some((columns, k)) => Option::Some((ExprIr::Exclude { columns }, k)),
                    Option::None => Option::None,
                }
            } else if tag == 9 {
                match d_u32(b, j) {
                    Option::Some((data_type, j2)) => match d_bool(b, j2) {
                        Option::Some((strict, j3)) => match d_opt_expr(b, j3) {
                            Option::Some((expr, k)) => Option::Some(
                                (ExprIr::Cast { expr, data_type, strict }, k),
                            ),
                            Option::None => Option::None,
                        },
                        Option::None => Option::None,
                    },
                    Option::None => Option::None,
                }
            } else if tag == 10 {
                match d_opt_expr(b, j) {
                    Option::Some((expr, k)) => Option::Some((ExprIr::StrLenBytes { expr }, k)),
                    Option::None => Option::None,
                }
            } else if tag == 11 {
                match d_opt_expr(b, j) {
                    Option::Some((expr, k)) => Option::Some((ExprIr::StrLenChars { expr }, k)),
                    Option::None => Option::None,
                }
            } else if tag == 12 {
                match d_bool(b, j) {
                    Option::Some((literal, j2)) => match d_opt_expr(b, j2) {
                        Option::Some((expr, j3)) => match d_string(b, j3) {
                            Option::Some((pattern, k)) => Option::Some(
                                (ExprIr::StrContains { expr, pattern, literal }, k),
                            ),
                            Option::None => Option::None,
                        },
                        Option::None => Option::None,
                    },
                    Option::None => Option::None,
                }
            } else if tag == 13 {
                match d_opt_expr(b, j) {
                    Option::Some((expr, j2)) => match d_string(b, j2) {
                        Option::Some((prefix, k)) => Option::Some(
                            (ExprIr::StrStartsWith { expr, prefix }, k),
                        ),
                        Option::None => Option::None,
                    },
                    Option::None => Option::None,
                }
            } else if tag == 14 {
                match d_opt_expr(b, j) {
                    Option::Some((expr, j2)) => match d_string(b, j2) {
                        Option::Some((suffix, k)) => Option::Some(
                            (ExprIr::StrEndsWith { expr, suffix }, k),
                        ),
                        Option::None => Option::None,
                    },
                    Option::None => Option::None,
                }
            } else if tag == 15 {
                match d_u32(b, j) {
                    Option::Some((group_index, j2)) => match d_opt_expr(b, j2) {
                        Option::Some((expr, j3)) => match d_string(b, j3) {
                            Option::Some((pattern, k)) => Option::Some(
                                (ExprIr::StrExtract { expr, pattern, group_index }, k),
                            ),
                            Option::None => Option::None,
                        },
                        Option::None => Option::None,
                    },
                    Option::None => Option::None,
                }
            } else if tag == 16 {
                match d_bool(b, j) {
                    Option::Some((literal, j2)) => match d_opt_expr(b, j2) {
                        Option::Some((expr, j3)) => match d_string(b, j3) {
                            Option::Some((pattern, j4)) => match d_string(b, j4) {
                                Option::Some((value, k)) => Option::Some(
                                    (ExprIr::StrReplace { expr, pattern, value, literal }, k),
                                ),
                                Option::None => Option::None,
                            },
                            Option::None => Option::None,
                        },
                        Option::None => Option::None,
                    },
                    Option::None => Option::None,
                }
            } else if tag == 17 {
                match d_bool(b, j) {
                    Option::Some((literal, j2)) => match d_opt_expr(b, j2) {
                        Option::Some((expr, j3)) => match d_string(b, j3) {
                            Option::Some((pattern, j4)) => match d_string(b, j4) {
                                Option::Some((value, k)) => Option::Some(
                                    (ExprIr::StrReplaceAll { expr, pattern, value, literal }, k),
                                ),
                                Option::None => Option::None,
                            },
                            Option::None => Option::None,
                        },
                        Option::None => Option::None,
                    },
                    Option::None => Option::None,
                }
            } else if tag == 18 {
                match d_opt_expr(b, j) {
                    Option::Some((expr, k)) => Option::Some((ExprIr::StrToLowercase { expr }, k)),
                    Option::None => Option::None,
                }
            } else if tag == 19 {
                match d_opt_expr(b, j) {
                    Option::Some((expr, k)) => Option::Some((ExprIr::StrToUppercase { expr }, k)),
                    Option::None => Option::None,
                }
            } else if tag == 20 {
                match d_opt_expr(b, j) {
                    Option::Some((expr, j2)) => match d_string(b, j2) {
                        Option::Some((chars, k)) => Option::Some(
                            (ExprIr::StrStripChars { expr, chars }, k),
                        ),
                        Option::None => Option::None,
                    },
                    Option::None => Option::None,
                }
            } else if tag == 21 {
                match d_i64(b, j) {
                    Option::Some((offset, j2)) => match d_opt_expr(b, j2) {
                        Option::Some((expr, j3)) => match d_opt_u64(b, j3) {
                            Option::Some((length, k)) => Option::Some(
                                (ExprIr::StrSlice { expr, offset, length }, k),
                            ),
                            Option::None => Option::None,
                        },
                        Option::None => Option::None,
                    },
                    Option::None => Option::None,
                }
            } else if tag == 22 {
                match d_opt_expr(b, j) {
                    Option::Some((expr, j2)) => match d_string(b, j2) {
                        Option::Some((by, k)) => Option::Some((ExprIr::StrSplit { expr, by }, k)),
                        Option::None => Option::None,
                    },
                    Option::None => Option::None,
                }
            } else if tag == 23 {
                match d_u64(b, j) {
                    Option::Some((length, j2)) => match d_opt_expr(b, j2) {
                        Option::Some((expr, j3)) => match d_string(b, j3) {
                            Option::Some((fill_char, k)) => Option::Some(
                                (ExprIr::StrPadStart { expr, length, fill_char }, k),
                            ),
                            Option::None => Option::None,
                        },
                        Option::None => Option::None,
                    },
                    Option::None => Option::None,
                }
            } else if tag == 24 {
                match d_u64(b, j) {
                    Option::Some((length, j2)) => match d_opt_expr(b, j2) {
                        Option::Some((expr, j3)) => match d_string(b, j3) {
                            Option::Some((fill_char, k)) => Option::Some(
                                (ExprIr::StrPadEnd { expr, length, fill_char }, k),
                            ),
                            Option::None => Option::None,
                        },
                        Option::None => Option::None,
                    },
                    Option::None => Option::None,
                }
            } else {
                Option::None
            }
        },
        Option::None => Option::None,
    }
}

pub fn d_exprs(b: &Vec<u8>, i: usize) -> (r: Option<(Vec<ExprIr>, usize)>)
    ensures
        match r {
            Option::Some((v, j)) => dec_exprs(b@, i as int) == Option::Some(
                (exprs_view(v@), j as int),
            ) && i < j <= b@.len(),
            Option::None => dec_exprs(b@, i as int) is None,
        },
{
    match d_u64(b, i) {
        Option::Some((cnt, j0)) => {
            let mut acc: Vec<ExprIr> = Vec::new();
            let mut pos: usize = j0;
            let mut k: u64 = 0;
            loop
                invariant
                    k <= cnt,
                    i < j0 <= b@.len(),
                    i < pos <= b@.len(),
                    dec_u64(b@, i as int) == Option::Some((cnt, j0 as int)),
                    k == acc@.len(),
                    dec_exprs_items(b@, j0 as int, cnt) == (match dec_exprs_items(
                        b@,
                        pos as int,
                        (cnt - k) as u64,
                    ) {
                        Option::Some((rest, end)) => Option::Some(
                            (exprs_view(acc@) + rest, end),
                        ),
                        Option::None => Option::None::<(Seq<ExprV>, int)>,
                    }),
                decreases cnt - k,
            {
                if k == cnt {
                    proof {
                        assert(dec_exprs_items(b@, pos as int, 0) == Option::Some(
                            (Seq::<ExprV>::empty(), pos as int),
                        ));
                        assert(exprs_view(acc@) + Seq::<ExprV>::empty() =~= exprs_view(acc@));
                    }
                    return Option::Some((acc, pos));
                }
                match d_expr(b, pos) {
                    Option::Some((e, p2)) => {
                        proof {
                            let rem = (cnt - k) as u64;
                            assert(dec_exprs_items(b@, pos as int, rem) == (match
                            dec_exprs_items(b@, p2 as int, (rem - 1) as u64) {
                                Option::Some((rest2, end)) => Option::Some(
                                    (seq![e@] + rest2, end),
                                ),
                                Option::None => Option::None::<(Seq<ExprV>, int)>,
                            }));
                            assert(acc@.push(e).drop_last() =~= acc@);
                            assert(exprs_view(acc@.push(e)) == exprs_view(acc@).push(e@));
                            assert(forall|rest2: Seq<ExprV>|
                                exprs_view(acc@) + (seq![e@] + rest2) =~= exprs_view(
                                    acc@.push(e),
                                ) + rest2);
                        }
                        acc.push(e);
                        pos = p2;
                        k = k + 1;
                    },
                    Option::None => {
                        proof {
                            assert(dec_exprs_items(b@, pos as int, (cnt - k) as u64) is None);
                        }
                        return Option::None;
                    },
                }
            }
        },
        Option::None => Option::None,
    }
}

pub fn d_opt_node(b: &Vec<u8>, i: usize) -> (r: Option<(Option<Box<Node>>, usize)>)
    ensures
        match r {
            Option::Some((v, j)) => dec_opt_node(b@, i as int) == Option::Some(
                (opt_node_view(v), j as int),
            ) && i < j <= b@.len(),
            Option::None => dec_opt_node(b@, i as int) is None,
        },
    decreases b@.len() - i, 1int,
{
    match d_u8(b, i) {
        Option::Some((flag, j)) => {
            if flag == 0 {
                Option::Some((Option::None, j))
            } else if flag == 1 {
                match d_node(b, j) {
                    Option::Some((n, k)) => Option::Some((Option::Some(Box::new(n)), k)),
                    Option::None => Option::None,
                }
            } else {
                Option::None
            }
        },
        Option::None => Option::None,
    }
}

/// Decodes one relational node, exactly as the mathematical decoder reads
/// it.
#[verifier::rlimit(60)]
pub fn d_node(b: &Vec<u8>, i: usize) -> (r: Option<(Node, usize)>)
    ensures
        match r {
            Option::Some((n, j)) => dec_node(b@, i as int) == Option::Some((n@, j as int)) && i
                < j <= b@.len(),
            Option::None => dec_node(b@, i as int) is None,
        },
    decreases b@.len() - i, 2int,
{
    match d_u8(b, i) {
        Option::Some((tag, j)) => {
            if tag == 1 {
                match d_string(b, j) {
                    Option::Some((path, k)) => Option::Some((Node::CsvScan { path }, k)),
                    Option::None => Option::None,
                }
            } else if tag == 2 {
                match d_string(b, j) {
                    Option::Some((path, k)) => Option::Some((Node::ParquetScan { path }, k)),
                    Option::None => Option::None,
                }
            } else if tag == 3 {
                match d_strings(b, j) {
                    Option::Some((column_names, k)) => Option::Some(
                        (Node::MemoryScan { column_names }, k),
                    ),
                    Option::None => Option::None,
                }
            } else if tag == 4 {
                match d_opt_node(b, j) {
                    Option::Some((input, j2)) => match d_exprs(b, j2) {
                        Option::Some((expressions, k)) => Option::Some(
                            (Node::Project { input, expressions }, k),
                        ),
                        Option::None => Option::None,
                    },
                    Option::None => Option::None,
                }
            } else if tag == 5 {
                match d_opt_node(b, j) {
                    Option::Some((input, j2)) => match d_opt_expr(b, j2) {
                        Option::Some((predicate, k)) => Option::Some(
                            (Node::Filter { input, predicate }, k),
                        ),
                        Option::None => Option::None,
                    },
                    Option::None => Option::None,
                }
            } else if tag == 6 {
                match d_opt_node(b, j) {
                    Option::Some((input, j2)) => match d_exprs(b, j2) {
                        Option::Some((expressions, k)) => Option::Some(
                            (Node::WithColumns { input, expressions }, k),
                        ),
                        Option::None => Option::None,
                    },
                    Option::None => Option::None,
                }
            } else if tag == 7 {
                match d_u64(b, j) {
                    Option::Some((n, j2)) => match d_opt_node(b, j2) {
                        Option::Some((input, k)) => Option::Some((Node::Limit { input, n }, k)),
                        Option::None => Option::None,
                    },
                    Option::None => Option::None,
                }
            } else {
                Option::None
            }
        },
        Option::None => Option::None,
    }
}

/// Decodes a whole plan from its wire bytes; the bytes must be consumed
/// entirely.
pub fn decode_plan(b: &Vec<u8>) -> (r: Option<Plan>)
    ensures
        match r {
            Option::Some(p) => dec_plan(b@) == Option::Some(p@),
            Option::None => dec_plan(b@) is None,
        },
{
    match d_u32(b, 0) {
        Option::Some((plan_version, j)) => match d_u8(b, j) {
            Option::Some((flag, j2)) => {
                if flag == 0 {
                    if j2 == b.len() {
                        Option::Some(Plan { plan_version, root: Option::None })
                    } else {
                        Option::None
                    }
                } else if flag == 1 {
                    match d_node(b, j2) {
                        Option::Some((n, k)) => {
                            if k == b.len() {
                                Option::Some(Plan { plan_version, root: Option::Some(n) })
                            } else {
                                Option::None
                            }
                        },
                        Option::None => Option::None,
                    }
                } else {
                    Option::None
                }
            },
            Option::None => Option::None,
        },
        Option::None => Option::None,
    }
}

// ---------------------------------------------------------------------------
// The round trip: decoding an encoding yields the value back. One lemma per
// layer, each over an arbitrary byte sequence that holds the encoding at
// some position.
// ---------------------------------------------------------------------------

pub proof fn lemma_rt_u8(s: Seq<u8>, i: int, v: u8)
    requires
        0 <= i,
        i + 1 <= s.len(),
        s.subrange(i, i + 1) == seq![v],
    ensures
        dec_u8(s, i) == Option::Some((v, i + 1)),
{
    assert(s.subrange(i, i + 1)[0] == s[i]);
}

pub proof fn lemma_rt_u32(s: Seq<u8>, i: int, v: u32)
    requires
        0 <= i,
        i + 4 <= s.len(),
        s.subrange(i, i + 4) == enc_u32(v),
    ensures
        dec_u32(s, i) == Option::Some((v, i + 4)),
{
    assert(s.subrange(i, i + 4)[0] == s[i]);
    assert(s.subrange(i, i + 4)[1] == s[i + 1]);
    assert(s.subrange(i, i + 4)[2] == s[i + 2]);
    assert(s.subrange(i, i + 4)[3] == s[i + 3]);
    assert(((v % 0x100) as u8 as u32) | (((v >> 8) % 0x100) as u8 as u32) << 8 | (((v >> 16)
        % 0x100) as u8 as u32) << 16 | (((v >> 24) % 0x100) as u8 as u32) << 24 == v)
        by (bit_vector);
}

pub proof fn lemma_rt_u64(s: Seq<u8>, i: int, v: u64)
    requires
        0 <= i,
        i + 8 <= s.len(),
        s.subrange(i, i + 8) == enc_u64(v),
    ensures
        dec_u64(s, i) == Option::Some((v, i + 8)),
{
    assert(s.subrange(i, i + 8)[0] == s[i]);
    assert(s.subrange(i, i + 8)[1] == s[i + 1]);
    assert(s.subrange(i, i + 8)[2] == s[i + 2]);
    assert(s.subrange(i, i + 8)[3] == s[i + 3]);
    assert(s.subrange(i, i + 8)[4] == s[i + 4]);
    assert(s.subrange(i, i + 8)[5] == s[i + 5]);
    assert(s.subrange(i, i + 8)[6] == s[i + 6]);
    assert(s.subrange(i, i + 8)[7] == s[i + 7]);
    assert(((v % 0x100) as u8 as u64) | (((v >> 8) % 0x100) as u8 as u64) << 8 | (((v >> 16)
        % 0x100) as u8 as u64) << 16 | (((v >> 24) % 0x100) as u8 as u64) << 24 | (((v >> 32)
        % 0x100) as u8 as u64) << 32 | (((v >> 40) % 0x100) as u8 as u64) << 40 | (((v >> 48)
        % 0x100) as u8 as u64) << 48 | (((v >> 56) % 0x100) as u8 as u64) << 56 == v)
        by (bit_vector);
}

pub proof fn lemma_rt_i64(s: Seq<u8>, i: int, v: i64)
    requires
        0 <= i,
        i + 8 <= s.len(),
        s.subrange(i, i + 8) == enc_i64(v),
    ensures
        dec_i64(s, i) == Option::Some((v, i + 8)),
{
    lemma_rt_u64(s, i, v as u64);
    assert((v as u64) as i64 == v) by (bit_vector);
}

pub proof fn lemma_rt_bool(s: Seq<u8>, i: int, v: bool)
    requires
        0 <= i,
        i + 1 <= s.len(),
        s.subrange(i, i + 1) == enc_bool(v),
    ensures
        dec_bool(s, i) == Option::Some((v, i + 1)),
{
    assert(s.subrange(i, i + 1)[0] == s[i]);
}

pub proof fn lemma_rt_char(s: Seq<u8>, i: int, c: char)
    requires
        0 <= i,
        i + 4 <= s.len(),
        s.subrange(i, i + 4) == enc_char(c),
    ensures
        dec_char(s, i) == Option::Some((c, i + 4)),
{
    lemma_rt_u32(s, i, c as u32);
    vstd::utf8::char_is_scalar(c);
    assert(char_scalar(c as u32));
    vstd::utf8::char_u32_cast(c, c as u32);
}

/// The encoding of a character list takes four bytes per character.
pub proof fn lemma_enc_chars_len(cs: Seq<char>)
    ensures
        enc_chars(cs).len() == 4 * cs.len(),
    decreases cs.len(),
{
    if cs.len() > 0 {
        lemma_enc_chars_len(cs.drop_last());
    }
}

/// A character list encodes as its first character followed by the rest.
pub proof fn lemma_enc_chars_first(cs: Seq<char>)
    requires
        cs.len() > 0,
    ensures
        enc_chars(cs) == enc_char(cs[0]) + enc_chars(cs.drop_first()),
    decreases cs.len(),
{
    if cs.len() == 1 {
        assert(cs.drop_last() =~= Seq::<char>::empty());
        assert(cs.drop_first() =~= Seq::<char>::empty());
        assert(enc_chars(cs) =~= enc_char(cs[0]) + enc_chars(cs.drop_first()));
    } else {
        lemma_enc_chars_first(cs.drop_last());
        assert(cs.drop_last()[0] == cs[0]);
        assert(cs.drop_last().drop_first() =~= cs.drop_first().drop_last());
        assert(cs.drop_first().last() == cs.last());
        assert(enc_chars(cs) == enc_chars(cs.drop_last()) + enc_char(cs.last()));
        assert(enc_chars(cs.drop_first()) == enc_chars(cs.drop_first().drop_last()) + enc_char(
            cs.drop_first().last(),
        ));
        assert(enc_chars(cs) =~= enc_char(cs[0]) + enc_chars(cs.drop_first()));
    }
}

/// Where a whole encoding sits at position `i` of `s`, any piece of it sits
/// at the corresponding shifted position.
pub proof fn lemma_subrange_at(s: Seq<u8>, i: int, whole: Seq<u8>, off: int, part: Seq<u8>)
    requires
        0 <= i,
        i + whole.len() <= s.len(),
        s.subrange(i, i + whole.len()) == whole,
        0 <= off,
        off + part.len() <= whole.len(),
        whole.subrange(off, off + part.len()) == part,
    ensures
        s.subrange(i + off, i + off + part.len()) == part,
{
    assert forall|k: int| 0 <= k < part.len() implies s.subrange(
        i + off,
        i + off + part.len(),
    )[k] == part[k] by {
        assert(s.subrange(i, i + whole.len())[off + k] == s[i + (off + k)]);
        assert(whole.subrange(off, off + part.len())[k] == whole[off + k]);
        assert(s.subrange(i + off, i + off + part.len())[k] == s[i + off + k]);
    }
    assert(s.subrange(i + off, i + off + part.len()) =~= part);
}

pub proof fn lemma_rt_chars(s: Seq<u8>, i: int, cs: Seq<char>)
    requires
        0 <= i,
        cs.len() <= 0xFFFFFFFFFFFFFFFF,
        i + 4 * cs.len() <= s.len(),
        s.subrange(i, i + 4 * cs.len()) == enc_chars(cs),
    ensures
        dec_chars(s, i, cs.len() as u64) == Option::Some((cs, i + 4 * cs.len())),
    decreases cs.len(),
{
    if cs.len() == 0 {
        assert(cs =~= Seq::<char>::empty());
    } else {
        lemma_enc_chars_first(cs);
        lemma_enc_chars_len(cs.drop_first());
        let whole = enc_chars(cs);
        assert(whole.subrange(0, 4) =~= enc_char(cs[0]));
        lemma_subrange_at(s, i, whole, 0, enc_char(cs[0]));
        assert(s.subrange(i, i + 4) == enc_char(cs[0]));
        lemma_rt_char(s, i, cs[0]);
        let rest = enc_chars(cs.drop_first());
        assert(whole.subrange(4, 4 + rest.len() as int) =~= rest);
        lemma_subrange_at(s, i, whole, 4, rest);
        lemma_rt_chars(s, i + 4, cs.drop_first());
        assert((cs.len() as u64 - 1) as u64 == cs.drop_first().len() as u64);
        assert(seq![cs[0]] + cs.drop_first() =~= cs);
    }
}

pub proof fn lemma_rt_string(s: Seq<u8>, i: int, v: Seq<char>)
    requires
        0 <= i,
        v.len() <= 0xFFFFFFFFFFFFFFFF,
        i + 8 + 4 * v.len() <= s.len(),
        s.subrange(i, i + 8 + 4 * v.len()) == enc_string(v),
    ensures
        dec_string(s, i) == Option::Some((v, i + 8 + 4 * v.len())),
{
    lemma_enc_chars_len(v);
    let whole = enc_string(v);
    assert(whole.subrange(0, 8) =~= enc_u64(v.len() as u64));
    lemma_subrange_at(s, i, whole, 0, enc_u64(v.len() as u64));
    lemma_rt_u64(s, i, v.len() as u64);
    assert(whole.subrange(8, 8 + enc_chars(v).len() as int) =~= enc_chars(v));
    lemma_subrange_at(s, i, whole, 8, enc_chars(v));
    lemma_rt_chars(s, i + 8, v);
}

/// Whether a string is small enough for the wire format's length prefix.
pub open spec fn str_ok(s: Seq<char>) -> bool {
    s.len() <= 0xFFFFFFFFFFFFFFFF
}

/// Whether a list of strings is representable on the wire.
pub open spec fn strs_ok(ss: Seq<Seq<char>>) -> bool {
    &&& ss.len() <= 0xFFFFFFFFFFFFFFFF
    &&& forall|k: int| 0 <= k < ss.len() ==> str_ok(#[trigger] ss[k])
}

/// Whether a literal is representable on the wire.
pub open spec fn lit_ok(l: LitV) -> bool {
    match l {
        LitV::StringVal(s) => str_ok(s),
        _ => true,
    }
}

pub proof fn lemma_rt_lit(s: Seq<u8>, i: int, l: LitV)
    requires
        0 <= i,
        lit_ok(l),
        i + enc_lit(l).len() <= s.len(),
        s.subrange(i, i + enc_lit(l).len() as int) == enc_lit(l),
    ensures
        dec_lit(s, i) == Option::Some((l, i + enc_lit(l).len())),
{
    let whole = enc_lit(l);
    match l {
        LitV::IntVal(v) => {
            assert(whole.subrange(0, 1) =~= seq![1u8]);
            lemma_subrange_at(s, i, whole, 0, seq![1u8]);
            lemma_rt_u8(s, i, 1u8);
            assert(whole.subrange(1, 9) =~= enc_i64(v));
            lemma_subrange_at(s, i, whole, 1, enc_i64(v));
            lemma_rt_i64(s, i + 1, v);
        },
        LitV::FloatBits(v) => {
            assert(whole.subrange(0, 1) =~= seq![2u8]);
            lemma_subrange_at(s, i, whole, 0, seq![2u8]);
            lemma_rt_u8(s, i, 2u8);
            assert(whole.subrange(1, 9) =~= enc_u64(v));
            lemma_subrange_at(s, i, whole, 1, enc_u64(v));
            lemma_rt_u64(s, i + 1, v);
        },
        LitV::BoolVal(v) => {
            assert(whole.subrange(0, 1) =~= seq![3u8]);
            lemma_subrange_at(s, i, whole, 0, seq![3u8]);
            lemma_rt_u8(s, i, 3u8);
            assert(whole.subrange(1, 2) =~= enc_bool(v));
            lemma_subrange_at(s, i, whole, 1, enc_bool(v));
            lemma_rt_bool(s, i + 1, v);
        },
        LitV::StringVal(v) => {
            lemma_enc_chars_len(v);
            assert(whole.subrange(0, 1) =~= seq![4u8]);
            lemma_subrange_at(s, i, whole, 0, seq![4u8]);
            lemma_rt_u8(s, i, 4u8);
            assert(whole.subrange(1, 1 + enc_string(v).len() as int) =~= enc_string(v));
            lemma_subrange_at(s, i, whole, 1, enc_string(v));
            lemma_rt_string(s, i + 1, v);
        },
        LitV::NullVal => {
            assert(whole.subrange(0, 1) =~= seq![5u8]);
            lemma_subrange_at(s, i, whole, 0, seq![5u8]);
            lemma_rt_u8(s, i, 5u8);
        },
    }
}

pub proof fn lemma_rt_opt_lit(s: Seq<u8>, i: int, l: Option<LitV>)
    requires
        0 <= i,
        (l matches Some(x) ==> lit_ok(x)),
        i + enc_opt_lit(l).len() <= s.len(),
        s.subrange(i, i + enc_opt_lit(l).len() as int) == enc_opt_lit(l),
    ensures
        dec_opt_lit(s, i) == Option::Some((l, i + enc_opt_lit(l).len())),
{
    let whole = enc_opt_lit(l);
    match l {
        Option::None => {
            assert(whole.subrange(0, 1) =~= seq![0u8]);
            lemma_subrange_at(s, i, whole, 0, seq![0u8]);
            lemma_rt_u8(s, i, 0u8);
        },
        Option::Some(x) => {
            assert(whole.subrange(0, 1) =~= seq![1u8]);
            lemma_subrange_at(s, i, whole, 0, seq![1u8]);
            lemma_rt_u8(s, i, 1u8);
            assert(whole.subrange(1, 1 + enc_lit(x).len() as int) =~= enc_lit(x));
            lemma_subrange_at(s, i, whole, 1, enc_lit(x));
            lemma_rt_lit(s, i + 1, x);
        },
    }
}

pub proof fn lemma_rt_opt_u64(s: Seq<u8>, i: int, v: Option<u64>)
    requires
        0 <= i,
        i + enc_opt_u64(v).len() <= s.len(),
        s.subrange(i, i + enc_opt_u64(v).len() as int) == enc_opt_u64(v),
    ensures
        dec_opt_u64(s, i) == Option::Some((v, i + enc_opt_u64(v).len())),
{
    let whole = enc_opt_u64(v);
    match v {
        Option::None => {
            assert(whole.subrange(0, 1) =~= seq![0u8]);
            lemma_subrange_at(s, i, whole, 0, seq![0u8]);
            lemma_rt_u8(s, i, 0u8);
        },
        Option::Some(x) => {
            assert(whole.subrange(0, 1) =~= seq![1u8]);
            lemma_subrange_at(s, i, whole, 0, seq![1u8]);
            lemma_rt_u8(s, i, 1u8);
            assert(whole.subrange(1, 9) =~= enc_u64(x));
            lemma_subrange_at(s, i, whole, 1, enc_u64(x));
            lemma_rt_u64(s, i + 1, x);
        },
    }
}

/// A string list encodes as its first string followed by the rest.
pub proof fn lemma_enc_strings_items_first(ss: Seq<Seq<char>>)
    requires
        ss.len() > 0,
    ensures
        enc_strings_items(ss) == enc_string(ss[0]) + enc_strings_items(ss.drop_first()),
    decreases ss.len(),
{
    if ss.len() == 1 {
        assert(ss.drop_last() =~= Seq::<Seq<char>>::empty());
        assert(ss.drop_first() =~= Seq::<Seq<char>>::empty());
        assert(enc_strings_items(ss) =~= enc_string(ss[0]) + enc_strings_items(ss.drop_first()));
    } else {
        lemma_enc_strings_items_first(ss.drop_last());
        assert(ss.drop_last()[0] == ss[0]);
        assert(ss.drop_last().drop_first() =~= ss.drop_first().drop_last());
        assert(ss.drop_first().last() == ss.last());
        assert(enc_strings_items(ss.drop_first()) == enc_strings_items(
            ss.drop_first().drop_last(),
        ) + enc_string(ss.drop_first().last()));
        assert(enc_strings_items(ss) =~= enc_string(ss[0]) + enc_strings_items(ss.drop_first()));
    }
}

pub proof fn lemma_rt_strings_items(s: Seq<u8>, i: int, ss: Seq<Seq<char>>)
    requires
        0 <= i,
        strs_ok(ss),
        i + enc_strings_items(ss).len() <= s.len(),
        s.subrange(i, i + enc_strings_items(ss).len() as int) == enc_strings_items(ss),
    ensures
        dec_strings_items(s, i, ss.len() as u64) == Option::Some(
            (ss, i + enc_strings_items(ss).len()),
        ),
    decreases ss.len(),
{
    if ss.len() == 0 {
        assert(ss =~= Seq::<Seq<char>>::empty());
    } else {
        let whole = enc_strings_items(ss);
        let head = enc_string(ss[0]);
        let rest = enc_strings_items(ss.drop_first());
        lemma_enc_strings_items_first(ss);
        lemma_enc_chars_len(ss[0]);
        assert(whole.subrange(0, head.len() as int) =~= head);
        lemma_subrange_at(s, i, whole, 0, head);
        lemma_rt_string(s, i, ss[0]);
        assert(whole.subrange(head.len() as int, head.len() + rest.len() as int) =~= rest);
        lemma_subrange_at(s, i, whole, head.len() as int, rest);
        assert(strs_ok(ss.drop_first()));
        lemma_rt_strings_items(s, i + head.len(), ss.drop_first());
        assert((ss.len() as u64 - 1) as u64 == ss.drop_first().len() as u64);
        assert(seq![ss[0]] + ss.drop_first() =~= ss);
    }
}

pub proof fn lemma_rt_strings(s: Seq<u8>, i: int, ss: Seq<Seq<char>>)
    requires
        0 <= i,
        strs_ok(ss),
        i + enc_strings(ss).len() <= s.len(),
        s.subrange(i, i + enc_strings(ss).len() as int) == enc_strings(ss),
    ensures
        dec_strings(s, i) == Option::Some((ss, i + enc_strings(ss).len())),
{
    let whole = enc_strings(ss);
    assert(whole.subrange(0, 8) =~= enc_u64(ss.len() as u64));
    lemma_subrange_at(s, i, whole, 0, enc_u64(ss.len() as u64));
    lemma_rt_u64(s, i, ss.len() as u64);
    let items = enc_strings_items(ss);
    assert(whole.subrange(8, 8 + items.len() as int) =~= items);
    lemma_subrange_at(s, i, whole, 8, items);
    lemma_rt_strings_items(s, i + 8, ss);
}

/// Whether an optional child expression is representable on the wire.
pub open spec fn opt_expr_ok(e: Option<Box<ExprV>>) -> bool
    decreases e, 1int,
{
    match e {
        Option::None => true,
        Option::Some(b) => expr_ok(*b),
    }
}

/// Whether an expression is representable on the wire: every string and
/// list in it fits the length prefix.
pub open spec fn expr_ok(e: ExprV) -> bool
    decreases e, 2int,
{
    match e {
        ExprV::Col { name } => str_ok(name),
        ExprV::Lit { value } => match value {
            Option::None => true,
            Option::Some(l) => lit_ok(l),
        },
        ExprV::Binary { left, right, .. } => opt_expr_ok(left) && opt_expr_ok(right),
        ExprV::Alias { expr, name } => opt_expr_ok(expr) && str_ok(name),
        ExprV::IsNull { expr } => opt_expr_ok(expr),
        ExprV::Not { expr } => opt_expr_ok(expr),
        ExprV::Wildcard => true,
        ExprV::Exclude { columns } => strs_ok(columns),
        ExprV::Cast { expr, .. } => opt_expr_ok(expr),
        ExprV::StrLenBytes { expr } => opt_expr_ok(expr),
        ExprV::StrLenChars { expr } => opt_expr_ok(expr),
        ExprV::StrContains { expr, pattern, .. } => opt_expr_ok(expr) && str_ok(pattern),
        ExprV::StrStartsWith { expr, prefix } => opt_expr_ok(expr) && str_ok(prefix),
        ExprV::StrEndsWith { expr, suffix } => opt_expr_ok(expr) && str_ok(suffix),
        ExprV::StrExtract { expr, pattern, .. } => opt_expr_ok(expr) && str_ok(pattern),
        ExprV::StrReplace { expr, pattern, value, .. } => opt_expr_ok(expr) && str_ok(pattern)
            && str_ok(value),
        ExprV::StrReplaceAll { expr, pattern, value, .. } => opt_expr_ok(expr) && str_ok(pattern)
            && str_ok(value),
        ExprV::StrToLowercase { expr } => opt_expr_ok(expr),
        ExprV::StrToUppercase { expr } => opt_expr_ok(expr),
        ExprV::StrStripChars { expr, chars } => opt_expr_ok(expr) && str_ok(chars),
        ExprV::StrSlice { expr, .. } => opt_expr_ok(expr),
        ExprV::StrSplit { expr, by } => opt_expr_ok(expr) && str_ok(by),
        ExprV::StrPadStart { expr, fill_char, .. } => opt_expr_ok(expr) && str_ok(fill_char),
        ExprV::StrPadEnd { expr, fill_char, .. } => opt_expr_ok(expr) && str_ok(fill_char),
    }
}

pub proof fn lemma_rt_opt_expr(s: Seq<u8>, i: int, e: Option<Box<ExprV>>)
    requires
        0 <= i,
        opt_expr_ok(e),
        i + enc_opt_expr(e).len() <= s.len(),
        s.subrange(i, i + enc_opt_expr(e).len() as int) == enc_opt_expr(e),
    ensures
        dec_opt_expr(s, i) == Option::Some((e, i + enc_opt_expr(e).len())),
    decreases e, 1int,
{
    let whole = enc_opt_expr(e);
    match e {
        Option::None => {
            assert(whole.subrange(0, 1) =~= seq![0u8]);
            lemma_subrange_at(s, i, whole, 0, seq![0u8]);
            lemma_rt_u8(s, i, 0u8);
        },
        Option::Some(b) => {
            assert(whole.subrange(0, 1) =~= seq![1u8]);
            lemma_subrange_at(s, i, whole, 0, seq![1u8]);
            lemma_rt_u8(s, i, 1u8);
            assert(whole.subrange(1, 1 + enc_expr(*b).len() as int) =~= enc_expr(*b));
            lemma_subrange_at(s, i, whole, 1, enc_expr(*b));
            lemma_rt_expr(s, i + 1, *b);
        },
    }
}


/// The tag byte of an expression's encoding.
pub open spec fn expr_tag(e: ExprV) -> int {
    match e {
        ExprV::Col { .. } => 1,
        ExprV::Lit { .. } => 2,
        ExprV::Binary { .. } => 3,
        ExprV::Alias { .. } => 4,
        ExprV::IsNull { .. } => 5,
        ExprV::Not { .. } => 6,
        ExprV::Wildcard => 7,
        ExprV::Exclude { .. } => 8,
        ExprV::Cast { .. } => 9,
        ExprV::StrLenBytes { .. } => 10,
        ExprV::StrLenChars { .. } => 11,
        ExprV::StrContains { .. } => 12,
        ExprV::StrStartsWith { .. } => 13,
        ExprV::StrEndsWith { .. } => 14,
        ExprV::StrExtract { .. } => 15,
        ExprV::StrReplace { .. } => 16,
        ExprV::StrReplaceAll { .. } => 17,
        ExprV::StrToLowercase { .. } => 18,
        ExprV::StrToUppercase { .. } => 19,
        ExprV::StrStripChars { .. } => 20,
        ExprV::StrSlice { .. } => 21,
        ExprV::StrSplit { .. } => 22,
        ExprV::StrPadStart { .. } => 23,
        ExprV::StrPadEnd { .. } => 24,
    }
}

/// Decoding an encoded expression from anywhere inside a byte sequence
/// yields the expression back.
pub proof fn lemma_rt_expr(s: Seq<u8>, i: int, e: ExprV)
    requires
        0 <= i,
        expr_ok(e),
        i + enc_expr(e).len() <= s.len(),
        s.subrange(i, i + enc_expr(e).len() as int) == enc_expr(e),
    ensures
        dec_expr(s, i) == Option::Some((e, i + enc_expr(e).len())),
    decreases e, 3int,
{
    if expr_tag(e) == 1 {
        lemma_rt_expr_v1(s, i, e);
    } else if expr_tag(e) == 2 {
        lemma_rt_expr_v2(s, i, e);
    } else if expr_tag(e) == 3 {
        lemma_rt_expr_v3(s, i, e);
    } else if expr_tag(e) == 4 {
        lemma_rt_expr_v4(s, i, e);
    } else if expr_tag(e) == 5 {
        lemma_rt_expr_v5(s, i, e);
    } else if expr_tag(e) == 6 {
        lemma_rt_expr_v6(s, i, e);
    } else if expr_tag(e) == 7 {
        lemma_rt_expr_v7(s, i, e);
    } else if expr_tag(e) == 8 {
        lemma_rt_expr_v8(s, i, e);
    } else if expr_tag(e) == 9 {
        lemma_rt_expr_v9(s, i, e);
    } else if expr_tag(e) == 10 {
        lemma_rt_expr_v10(s, i, e);
    } else if expr_tag(e) == 11 {
        lemma_rt_expr_v11(s, i, e);
    } else if expr_tag(e) == 12 {
        lemma_rt_expr_v12(s, i, e);
    } else if expr_tag(e) == 13 {
        lemma_rt_expr_v13(s, i, e);
    } else if expr_tag(e) == 14 {
        lemma_rt_expr_v14(s, i, e);
    } else if expr_tag(e) == 15 {
        lemma_rt_expr_v15(s, i, e);
    } else if expr_tag(e) == 16 {
        lemma_rt_expr_v16(s, i, e);
    } else if expr_tag(e) == 17 {
        lemma_rt_expr_v17(s, i, e);
    } else if expr_tag(e) == 18 {
        lemma_rt_expr_v18(s, i, e);
    } else if expr_tag(e) == 19 {
        lemma_rt_expr_v19(s, i, e);
    } else if expr_tag(e) == 20 {
        lemma_rt_expr_v20(s, i, e);
    } else if expr_tag(e) == 21 {
        lemma_rt_expr_v21(s, i, e);
    } else if expr_tag(e) == 22 {
        lemma_rt_expr_v22(s, i, e);
    } else if expr_tag(e) == 23 {
        lemma_rt_expr_v23(s, i, e);
    } else if expr_tag(e) == 24 {
        lemma_rt_expr_v24(s, i, e);
    }
}

#[verifier::rlimit(100)]
#[verifier::spinoff_prover]
proof fn lemma_rt_expr_v1(s: Seq<u8>, i: int, e: ExprV)
    requires
        0 <= i,
        expr_ok(e),
        expr_tag(e) == 1,
        i + enc_expr(e).len() <= s.len(),
        s.subrange(i, i + enc_expr(e).len() as int) == enc_expr(e),
    ensures
        dec_expr(s, i) == Option::Some((e, i + enc_expr(e).len())),
    decreases e, 2int,
{
    let whole = enc_expr(e);
    match e {
        ExprV::Col { name } => {
            lemma_enc_chars_len(name);
            assert(whole.subrange(0, 1) =~= seq![1u8]);
            lemma_subrange_at(s, i, whole, 0, seq![1u8]);
            lemma_rt_u8(s, i, 1u8);
            assert(whole.subrange(1, 1 + enc_string(name).len() as int) =~= enc_string(name));
            lemma_subrange_at(s, i, whole, 1, enc_string(name));
            lemma_rt_string(s, i + 1, name);
        },
        _ => {
        },
    }
}

#[verifier::rlimit(100)]
#[verifier::spinoff_prover]
proof fn lemma_rt_expr_v2(s: Seq<u8>, i: int, e: ExprV)
    requires
        0 <= i,
        expr_ok(e),
        expr_tag(e) == 2,
        i + enc_expr(e).len() <= s.len(),
        s.subrange(i, i + enc_expr(e).len() as int) == enc_expr(e),
    ensures
        dec_expr(s, i) == Option::Some((e, i + enc_expr(e).len())),
    decreases e, 2int,
{
    let whole = enc_expr(e);
    match e {
        ExprV::Lit { value } => {
            assert(whole.subrange(0, 1) =~= seq![2u8]);
            lemma_subrange_at(s, i, whole, 0, seq![2u8]);
            lemma_rt_u8(s, i, 2u8);
            assert(whole.subrange(1, 1 + enc_opt_lit(value).len() as int) =~= enc_opt_lit(value));
            lemma_subrange_at(s, i, whole, 1, enc_opt_lit(value));
            lemma_rt_opt_lit(s, i + 1, value);
        },
        _ => {
        },
    }
}

#[verifier::rlimit(100)]
#[verifier::spinoff_prover]
proof fn lemma_rt_expr_v3(s: Seq<u8>, i: int, e: ExprV)
    requires
        0 <= i,
        expr_ok(e),
        expr_tag(e) == 3,
        i + enc_expr(e).len() <= s.len(),
        s.subrange(i, i + enc_expr(e).len() as int) == enc_expr(e),
    ensures
        dec_expr(s, i) == Option::Some((e, i + enc_expr(e).len())),
    decreases e, 2int,
{
    let whole = enc_expr(e);
    match e {
        ExprV::Binary { op, left, right } => {
            let a = enc_opt_expr(left);
            let b = enc_opt_expr(right);
            assert(whole.subrange(0, 1) =~= seq![3u8]);
            lemma_subrange_at(s, i, whole, 0, seq![3u8]);
            lemma_rt_u8(s, i, 3u8);
            assert(whole.subrange(1, 5) =~= enc_u32(op));
            lemma_subrange_at(s, i, whole, 1, enc_u32(op));
            lemma_rt_u32(s, i + 1, op);
            assert(whole.subrange(5, 5 + a.len() as int) =~= a);
            lemma_subrange_at(s, i, whole, 5, a);
            lemma_rt_opt_expr(s, i + 5, left);
            assert(whole.subrange(5 + a.len() as int, 5 + a.len() + b.len() as int) =~= b);
            lemma_subrange_at(s, i, whole, 5 + a.len() as int, b);
            lemma_rt_opt_expr(s, i + 5 + a.len() as int, right);
            assert(next_pos(s, i, i + 5 + a.len() as int) == i + 5 + a.len() as int);
        },
        _ => {
        },
    }
}

#[verifier::rlimit(100)]
#[verifier::spinoff_prover]
proof fn lemma_rt_expr_v4(s: Seq<u8>, i: int, e: ExprV)
    requires
        0 <= i,
        expr_ok(e),
        expr_tag(e) == 4,
        i + enc_expr(e).len() <= s.len(),
        s.subrange(i, i + enc_expr(e).len() as int) == enc_expr(e),
    ensures
        dec_expr(s, i) == Option::Some((e, i + enc_expr(e).len())),
    decreases e, 2int,
{
    let whole = enc_expr(e);
    match e {
        ExprV::Alias { expr, name } => {
            let a = enc_opt_expr(expr);
            lemma_enc_chars_len(name);
            assert(whole.subrange(0, 1) =~= seq![4u8]);
            lemma_subrange_at(s, i, whole, 0, seq![4u8]);
            lemma_rt_u8(s, i, 4u8);
            assert(whole.subrange(1, 1 + a.len() as int) =~= a);
            lemma_subrange_at(s, i, whole, 1, a);
            lemma_rt_opt_expr(s, i + 1, expr);
            assert(whole.subrange(1 + a.len() as int, 1 + a.len() + enc_string(name).len() as int)
                =~= enc_string(name));
            lemma_subrange_at(s, i, whole, 1 + a.len() as int, enc_string(name));
            lemma_rt_string(s, i + 1 + a.len() as int, name);
        },
        _ => {
        },
    }
}

#[verifier::rlimit(100)]
#[verifier::spinoff_prover]
proof fn lemma_rt_expr_v5(s: Seq<u8>, i: int, e: ExprV)
    requires
        0 <= i,
        expr_ok(e),
        expr_tag(e) == 5,
        i + enc_expr(e).len() <= s.len(),
        s.subrange(i, i + enc_expr(e).len() as int) == enc_expr(e),
    ensures
        dec_expr(s, i) == Option::Some((e, i + enc_expr(e).len())),
    decreases e, 2int,
{
    let whole = enc_expr(e);
    match e {
        ExprV::IsNull { expr } => {
            let a = enc_opt_expr(expr);
            assert(whole.subrange(0, 1) =~= seq![5u8]);
            lemma_subrange_at(s, i, whole, 0, seq![5u8]);
            lemma_rt_u8(s, i, 5u8);
            assert(whole.subrange(1, 1 + a.len() as int) =~= a);
            lemma_subrange_at(s, i, whole, 1, a);
            lemma_rt_opt_expr(s, i + 1, expr);
        },
        _ => {
        },
    }
}

#[verifier::rlimit(100)]
#[verifier::spinoff_prover]
proof fn lemma_rt_expr_v6(s: Seq<u8>, i: int, e: ExprV)
    requires
        0 <= i,
        expr_ok(e),
        expr_tag(e) == 6,
        i + enc_expr(e).len() <= s.len(),
        s.subrange(i, i + enc_expr(e).len() as int) == enc_expr(e),
    ensures
        dec_expr(s, i) == Option::Some((e, i + enc_expr(e).len())),
    decreases e, 2int,
{
    let whole = enc_expr(e);
    match e {
        ExprV::Not { expr } => {
            let a = enc_opt_expr(expr);
            assert(whole.subrange(0, 1) =~= seq![6u8]);
            lemma_subrange_at(s, i, whole, 0, seq![6u8]);
            lemma_rt_u8(s, i, 6u8);
            assert(whole.subrange(1, 1 + a.len() as int) =~= a);
            lemma_subrange_at(s, i, whole, 1, a);
            lemma_rt_opt_expr(s, i + 1, expr);
        },
        _ => {
        },
    }
}

#[verifier::rlimit(100)]
#[verifier::spinoff_prover]
proof fn lemma_rt_expr_v7(s: Seq<u8>, i: int, e: ExprV)
    requires
        0 <= i,
        expr_ok(e),
        expr_tag(e) == 7,
        i + enc_expr(e).len() <= s.len(),
        s.subrange(i, i + enc_expr(e).len() as int) == enc_expr(e),
    ensures
        dec_expr(s, i) == Option::Some((e, i + enc_expr(e).len())),
    decreases e, 2int,
{
    let whole = enc_expr(e);
    match e {
        ExprV::Wildcard => {
            assert(whole.subrange(0, 1) =~= seq![7u8]);
            lemma_subrange_at(s, i, whole, 0, seq![7u8]);
            lemma_rt_u8(s, i, 7u8);
        },
        _ => {
        },
    }
}

#[verifier::rlimit(100)]
#[verifier::spinoff_prover]
proof fn lemma_rt_expr_v8(s: Seq<u8>, i: int, e: ExprV)
    requires
        0 <= i,
        expr_ok(e),
        expr_tag(e) == 8,
        i + enc_expr(e).len() <= s.len(),
        s.subrange(i, i + enc_expr(e).len() as int) == enc_expr(e),
    ensures
        dec_expr(s, i) == Option::Some((e, i + enc_expr(e).len())),
    decreases e, 2int,
{
    let whole = enc_expr(e);
    match e {
        ExprV::Exclude { columns } => {
            assert(whole.subrange(0, 1) =~= seq![8u8]);
            lemma_subrange_at(s, i, whole, 0, seq![8u8]);
            lemma_rt_u8(s, i, 8u8);
            assert(whole.subrange(1, 1 + enc_strings(columns).len() as int) =~= enc_strings(
                columns,
            ));
            lemma_subrange_at(s, i, whole, 1, enc_strings(columns));
            lemma_rt_strings(s, i + 1, columns);
        },
        _ => {
        },
    }
}

#[verifier::rlimit(100)]
#[verifier::spinoff_prover]
proof fn lemma_rt_expr_v9(s: Seq<u8>, i: int, e: ExprV)
    requires
        0 <= i,
        expr_ok(e),
        expr_tag(e) == 9,
        i + enc_expr(e).len() <= s.len(),
        s.subrange(i, i + enc_expr(e).len() as int) == enc_expr(e),
    ensures
        dec_expr(s, i) == Option::Some((e, i + enc_expr(e).len())),
    decreases e, 2int,
{
    let whole = enc_expr(e);
    match e {
        ExprV::Cast { expr, data_type, strict } => {
            let a = enc_opt_expr(expr);
            assert(whole.subrange(0, 1) =~= seq![9u8]);
            lemma_subrange_at(s, i, whole, 0, seq![9u8]);
            lemma_rt_u8(s, i, 9u8);
            assert(whole.subrange(1, 5) =~= enc_u32(data_type));
            lemma_subrange_at(s, i, whole, 1, enc_u32(data_type));
            lemma_rt_u32(s, i + 1, data_type);
            assert(whole.subrange(5, 6) =~= enc_bool(strict));
            lemma_subrange_at(s, i, whole, 5, enc_bool(strict));
            lemma_rt_bool(s, i + 5, strict);
            assert(whole.subrange(6, 6 + a.len() as int) =~= a);
            lemma_subrange_at(s, i, whole, 6, a);
            lemma_rt_opt_expr(s, i + 6, expr);
        },
        _ => {
        },
    }
}

#[verifier::rlimit(100)]
#[verifier::spinoff_prover]
proof fn lemma_rt_expr_v10(s: Seq<u8>, i: int, e: ExprV)
    requires
        0 <= i,
        expr_ok(e),
        expr_tag(e) == 10,
        i + enc_expr(e).len() <= s.len(),
        s.subrange(i, i + enc_expr(e).len() as int) == enc_expr(e),
    ensures
        dec_expr(s, i) == Option::Some((e, i + enc_expr(e).len())),
    decreases e, 2int,
{
    let whole = enc_expr(e);
    match e {
        ExprV::StrLenBytes { expr } => {
            let a = enc_opt_expr(expr);
            assert(whole.subrange(0, 1) =~= seq![10u8]);
            lemma_subrange_at(s, i, whole, 0, seq![10u8]);
            lemma_rt_u8(s, i, 10u8);
            assert(whole.subrange(1, 1 + a.len() as int) =~= a);
            lemma_subrange_at(s, i, whole, 1, a);
            lemma_rt_opt_expr(s, i + 1, expr);
        },
        _ => {
        },
    }
}

#[verifier::rlimit(100)]
#[verifier::spinoff_prover]
proof fn lemma_rt_expr_v11(s: Seq<u8>, i: int, e: ExprV)
    requires
        0 <= i,
        expr_ok(e),
        expr_tag(e) == 11,
        i + enc_expr(e).len() <= s.len(),
        s.subrange(i, i + enc_expr(e).len() as int) == enc_expr(e),
    ensures
        dec_expr(s, i) == Option::Some((e, i + enc_expr(e).len())),
    decreases e, 2int,
{
    let whole = enc_expr(e);
    match e {
        ExprV::StrLenChars { expr } => {
            let a = enc_opt_expr(expr);
            assert(whole.subrange(0, 1) =~= seq![11u8]);
            lemma_subrange_at(s, i, whole, 0, seq![11u8]);
            lemma_rt_u8(s, i, 11u8);
            assert(whole.subrange(1, 1 + a.len() as int) =~= a);
            lemma_subrange_at(s, i, whole, 1, a);
            lemma_rt_opt_expr(s, i + 1, expr);
        },
        _ => {
        },
    }
}

#[verifier::rlimit(100)]
#[verifier::spinoff_prover]
proof fn lemma_rt_expr_v12(s: Seq<u8>, i: int, e: ExprV)
    requires
        0 <= i,
        expr_ok(e),
        expr_tag(e) == 12,
        i + enc_expr(e).len() <= s.len(),
        s.subrange(i, i + enc_expr(e).len() as int) == enc_expr(e),
    ensures
        dec_expr(s, i) == Option::Some((e, i + enc_expr(e).len())),
    decreases e, 2int,
{
    let whole = enc_expr(e);
    match e {
        ExprV::StrContains { expr, pattern, literal } => {
            let a = enc_opt_expr(expr);
            lemma_enc_chars_len(pattern);
            assert(whole.subrange(0, 1) =~= seq![12u8]);
            lemma_subrange_at(s, i, whole, 0, seq![12u8]);
            lemma_rt_u8(s, i, 12u8);
            assert(whole.subrange(1, 2) =~= enc_bool(literal));
            lemma_subrange_at(s, i, whole, 1, enc_bool(literal));
            lemma_rt_bool(s, i + 1, literal);
            assert(whole.subrange(2, 2 + a.len() as int) =~= a);
            lemma_subrange_at(s, i, whole, 2, a);
            lemma_rt_opt_expr(s, i + 2, expr);
            assert(whole.subrange(
                2 + a.len() as int,
                2 + a.len() + enc_string(pattern).len() as int,
            ) =~= enc_string(pattern));
            lemma_subrange_at(s, i, whole, 2 + a.len() as int, enc_string(pattern));
            lemma_rt_string(s, i + 2 + a.len() as int, pattern);
        },
        _ => {
        },
    }
}

#[verifier::rlimit(100)]
#[verifier::spinoff_prover]
proof fn lemma_rt_expr_v13(s: Seq<u8>, i: int, e: ExprV)
    requires
        0 <= i,
        expr_ok(e),
        expr_tag(e) == 13,
        i + enc_expr(e).len() <= s.len(),
        s.subrange(i, i + enc_expr(e).len() as int) == enc_expr(e),
    ensures
        dec_expr(s, i) == Option::Some((e, i + enc_expr(e).len())),
    decreases e, 2int,
{
    let whole = enc_expr(e);
    match e {
        ExprV::StrStartsWith { expr, prefix } => {
            let a = enc_opt_expr(expr);
            lemma_enc_chars_len(prefix);
            assert(whole.subrange(0, 1) =~= seq![13u8]);
            lemma_subrange_at(s, i, whole, 0, seq![13u8]);
            lemma_rt_u8(s, i, 13u8);
            assert(whole.subrange(1, 1 + a.len() as int) =~= a);
            lemma_subrange_at(s, i, whole, 1, a);
            lemma_rt_opt_expr(s, i + 1, expr);
            assert(whole.subrange(
                1 + a.len() as int,
                1 + a.len() + enc_string(prefix).len() as int,
            ) =~= enc_string(prefix));
            lemma_subrange_at(s, i, whole, 1 + a.len() as int, enc_string(prefix));
            lemma_rt_string(s, i + 1 + a.len() as int, prefix);
        },
        _ => {
        },
    }
}

#[verifier::rlimit(100)]
#[verifier::spinoff_prover]
proof fn lemma_rt_expr_v14(s: Seq<u8>, i: int, e: ExprV)
    requires
        0 <= i,
        expr_ok(e),
        expr_tag(e) == 14,
        i + enc_expr(e).len() <= s.len(),
        s.subrange(i, i + enc_expr(e).len() as int) == enc_expr(e),
    ensures
        dec_expr(s, i) == Option::Some((e, i + enc_expr(e).len())),
    decreases e, 2int,
{
    let whole = enc_expr(e);
    match e {
        ExprV::StrEndsWith { expr, suffix } => {
            let a = enc_opt_expr(expr);
            lemma_enc_chars_len(suffix);
            assert(whole.subrange(0, 1) =~= seq![14u8]);
            lemma_subrange_at(s, i, whole, 0, seq![14u8]);
            lemma_rt_u8(s, i, 14u8);
            assert(whole.subrange(1, 1 + a.len() as int) =~= a);
            lemma_subrange_at(s, i, whole, 1, a);
            lemma_rt_opt_expr(s, i + 1, expr);
            assert(whole.subrange(
                1 + a.len() as int,
                1 + a.len() + enc_string(suffix).len() as int,
            ) =~= enc_string(suffix));
            lemma_subrange_at(s, i, whole, 1 + a.len() as int, enc_string(suffix));
            lemma_rt_string(s, i + 1 + a.len() as int, suffix);
        },
        _ => {
        },
    }
}

#[verifier::rlimit(100)]
#[verifier::spinoff_prover]
proof fn lemma_rt_expr_v15(s: Seq<u8>, i: int, e: ExprV)
    requires
        0 <= i,
        expr_ok(e),
        expr_tag(e) == 15,
        i + enc_expr(e).len() <= s.len(),
        s.subrange(i, i + enc_expr(e).len() as int) == enc_expr(e),
    ensures
        dec_expr(s, i) == Option::Some((e, i + enc_expr(e).len())),
    decreases e, 2int,
{
    let whole = enc_expr(e);
    match e {
        ExprV::StrExtract { expr, pattern, group_index } => {
            let a = enc_opt_expr(expr);
            lemma_enc_chars_len(pattern);
            assert(whole.subrange(0, 1) =~= seq![15u8]);
            lemma_subrange_at(s, i, whole, 0, seq![15u8]);
            lemma_rt_u8(s, i, 15u8);
            assert(whole.subrange(1, 5) =~= enc_u32(group_index));
            lemma_subrange_at(s, i, whole, 1, enc_u32(group_index));
            lemma_rt_u32(s, i + 1, group_index);
            assert(whole.subrange(5, 5 + a.len() as int) =~= a);
            lemma_subrange_at(s, i, whole, 5, a);
            lemma_rt_opt_expr(s, i + 5, expr);
            assert(whole.subrange(
                5 + a.len() as int,
                5 + a.len() + enc_string(pattern).len() as int,
            ) =~= enc_string(pattern));
            lemma_subrange_at(s, i, whole, 5 + a.len() as int, enc_string(pattern));
            lemma_rt_string(s, i + 5 + a.len() as int, pattern);
        },
        _ => {
        },
    }
}

#[verifier::rlimit(100)]
#[verifier::spinoff_prover]
proof fn lemma_rt_expr_v16(s: Seq<u8>, i: int, e: ExprV)
    requires
        0 <= i,
        expr_ok(e),
        expr_tag(e) == 16,
        i + enc_expr(e).len() <= s.len(),
        s.subrange(i, i + enc_expr(e).len() as int) == enc_expr(e),
    ensures
        dec_expr(s, i) == Option::Some((e, i + enc_expr(e).len())),
    decreases e, 2int,
{
    let whole = enc_expr(e);
    match e {
        ExprV::StrReplace { expr, pattern, value, literal } => {
            let a = enc_opt_expr(expr);
            let sp = enc_string(pattern);
            let sv = enc_string(value);
            lemma_enc_chars_len(pattern);
            lemma_enc_chars_len(value);
            assert(whole.subrange(0, 1) =~= seq![16u8]);
            lemma_subrange_at(s, i, whole, 0, seq![16u8]);
            lemma_rt_u8(s, i, 16u8);
            assert(whole.subrange(1, 2) =~= enc_bool(literal));
            lemma_subrange_at(s, i, whole, 1, enc_bool(literal));
            lemma_rt_bool(s, i + 1, literal);
            assert(whole.subrange(2, 2 + a.len() as int) =~= a);
            lemma_subrange_at(s, i, whole, 2, a);
            lemma_rt_opt_expr(s, i + 2, expr);
            assert(whole.subrange(2 + a.len() as int, 2 + a.len() + sp.len() as int) =~= sp);
            lemma_subrange_at(s, i, whole, 2 + a.len() as int, sp);
            lemma_rt_string(s, i + 2 + a.len() as int, pattern);
            assert(whole.subrange(
                2 + a.len() + sp.len() as int,
                2 + a.len() + sp.len() + sv.len() as int,
            ) =~= sv);
            lemma_subrange_at(s, i, whole, 2 + a.len() + sp.len() as int, sv);
            lemma_rt_string(s, i + 2 + a.len() + sp.len() as int, value);
        },
        _ => {
        },
    }
}

#[verifier::rlimit(100)]
#[verifier::spinoff_prover]
proof fn lemma_rt_expr_v17(s: Seq<u8>, i: int, e: ExprV)
    requires
        0 <= i,
        expr_ok(e),
        expr_tag(e) == 17,
        i + enc_expr(e).len() <= s.len(),
        s.subrange(i, i + enc_expr(e).len() as int) == enc_expr(e),
    ensures
        dec_expr(s, i) == Option::Some((e, i + enc_expr(e).len())),
    decreases e, 2int,
{
    let whole = enc_expr(e);
    match e {
        ExprV::StrReplaceAll { expr, pattern, value, literal } => {
            let a = enc_opt_expr(expr);
            let sp = enc_string(pattern);
            let sv = enc_string(value);
            lemma_enc_chars_len(pattern);
            lemma_enc_chars_len(value);
            assert(whole.subrange(0, 1) =~= seq![17u8]);
            lemma_subrange_at(s, i, whole, 0, seq![17u8]);
            lemma_rt_u8(s, i, 17u8);
            assert(whole.subrange(1, 2) =~= enc_bool(literal));
            lemma_subrange_at(s, i, whole, 1, enc_bool(literal));
            lemma_rt_bool(s, i + 1, literal);
            assert(whole.subrange(2, 2 + a.len() as int) =~= a);
            lemma_subrange_at(s, i, whole, 2, a);
            lemma_rt_opt_expr(s, i + 2, expr);
            assert(whole.subrange(2 + a.len() as int, 2 + a.len() + sp.len() as int) =~= sp);
            lemma_subrange_at(s, i, whole, 2 + a.len() as int, sp);
            lemma_rt_string(s, i + 2 + a.len() as int, pattern);
            assert(whole.subrange(
                2 + a.len() + sp.len() as int,
                2 + a.len() + sp.len() + sv.len() as int,
            ) =~= sv);
            lemma_subrange_at(s, i, whole, 2 + a.len() + sp.len() as int, sv);
            lemma_rt_string(s, i + 2 + a.len() + sp.len() as int, value);
        },
        _ => {
        },
    }
}

#[verifier::rlimit(100)]
#[verifier::spinoff_prover]
proof fn lemma_rt_expr_v18(s: Seq<u8>, i: int, e: ExprV)
    requires
        0 <= i,
        expr_ok(e),
        expr_tag(e) == 18,
        i + enc_expr(e).len() <= s.len(),
        s.subrange(i, i + enc_expr(e).len() as int) == enc_expr(e),
    ensures
        dec_expr(s, i) == Option::Some((e, i + enc_expr(e).len())),
    decreases e, 2int,
{
    let whole = enc_expr(e);
    match e {
        ExprV::StrToLowercase { expr } => {
            let a = enc_opt_expr(expr);
            assert(whole.subrange(0, 1) =~= seq![18u8]);
            lemma_subrange_at(s, i, whole, 0, seq![18u8]);
            lemma_rt_u8(s, i, 18u8);
            assert(whole.subrange(1, 1 + a.len() as int) =~= a);
            lemma_subrange_at(s, i, whole, 1, a);
            lemma_rt_opt_expr(s, i + 1, expr);
        },
        _ => {
        },
    }
}

#[verifier::rlimit(100)]
#[verifier::spinoff_prover]
proof fn lemma_rt_expr_v19(s: Seq<u8>, i: int, e: ExprV)
    requires
        0 <= i,
        expr_ok(e),
        expr_tag(e) == 19,
        i + enc_expr(e).len() <= s.len(),
        s.subrange(i, i + enc_expr(e).len() as int) == enc_expr(e),
    ensures
        dec_expr(s, i) == Option::Some((e, i + enc_expr(e).len())),
    decreases e, 2int,
{
    let whole = enc_expr(e);
    match e {
        ExprV::StrToUppercase { expr } => {
            let a = enc_opt_expr(expr);
            assert(whole.subrange(0, 1) =~= seq![19u8]);
            lemma_subrange_at(s, i, whole, 0, seq![19u8]);
            lemma_rt_u8(s, i, 19u8);
            assert(whole.subrange(1, 1 + a.len() as int) =~= a);
            lemma_subrange_at(s, i, whole, 1, a);
            lemma_rt_opt_expr(s, i + 1, expr);
        },
        _ => {
        },
    }
}

#[verifier::rlimit(100)]
#[verifier::spinoff_prover]
proof fn lemma_rt_expr_v20(s: Seq<u8>, i: int, e: ExprV)
    requires
        0 <= i,
        expr_ok(e),
        expr_tag(e) == 20,
        i + enc_expr(e).len() <= s.len(),
        s.subrange(i, i + enc_expr(e).len() as int) == enc_expr(e),
    ensures
        dec_expr(s, i) == Option::Some((e, i + enc_expr(e).len())),
    decreases e, 2int,
{
    let whole = enc_expr(e);
    match e {
        ExprV::StrStripChars { expr, chars } => {
            let a = enc_opt_expr(expr);
            lemma_enc_chars_len(chars);
            assert(whole.subrange(0, 1) =~= seq![20u8]);
            lemma_subrange_at(s, i, whole, 0, seq![20u8]);
            lemma_rt_u8(s, i, 20u8);
            assert(whole.subrange(1, 1 + a.len() as int) =~= a);
            lemma_subrange_at(s, i, whole, 1, a);
            lemma_rt_opt_expr(s, i + 1, expr);
            assert(whole.subrange(
                1 + a.len() as int,
                1 + a.len() + enc_string(chars).len() as int,
            ) =~= enc_string(chars));
            lemma_subrange_at(s, i, whole, 1 + a.len() as int, enc_string(chars));
            lemma_rt_string(s, i + 1 + a.len() as int, chars);
        },
        _ => {
        },
    }
}

#[verifier::rlimit(100)]
#[verifier::spinoff_prover]
proof fn lemma_rt_expr_v21(s: Seq<u8>, i: int, e: ExprV)
    requires
        0 <= i,
        expr_ok(e),
        expr_tag(e) == 21,
        i + enc_expr(e).len() <= s.len(),
        s.subrange(i, i + enc_expr(e).len() as int) == enc_expr(e),
    ensures
        dec_expr(s, i) == Option::Some((e, i + enc_expr(e).len())),
    decreases e, 2int,
{
    let whole = enc_expr(e);
    match e {
        ExprV::StrSlice { expr, offset, length } => {
            let a = enc_opt_expr(expr);
            let b = enc_opt_u64(length);
            assert(whole.subrange(0, 1) =~= seq![21u8]);
            lemma_subrange_at(s, i, whole, 0, seq![21u8]);
            lemma_rt_u8(s, i, 21u8);
            assert(whole.subrange(1, 9) =~= enc_i64(offset));
            lemma_subrange_at(s, i, whole, 1, enc_i64(offset));
            lemma_rt_i64(s, i + 1, offset);
            assert(whole.subrange(9, 9 + a.len() as int) =~= a);
            lemma_subrange_at(s, i, whole, 9, a);
            lemma_rt_opt_expr(s, i + 9, expr);
            assert(whole.subrange(9 + a.len() as int, 9 + a.len() + b.len() as int) =~= b);
            lemma_subrange_at(s, i, whole, 9 + a.len() as int, b);
            lemma_rt_opt_u64(s, i + 9 + a.len() as int, length);
        },
        _ => {
        },
    }
}

#[verifier::rlimit(100)]
#[verifier::spinoff_prover]
proof fn lemma_rt_expr_v22(s: Seq<u8>, i: int, e: ExprV)
    requires
        0 <= i,
        expr_ok(e),
        expr_tag(e) == 22,
        i + enc_expr(e).len() <= s.len(),
        s.subrange(i, i + enc_expr(e).len() as int) == enc_expr(e),
    ensures
        dec_expr(s, i) == Option::Some((e, i + enc_expr(e).len())),
    decreases e, 2int,
{
    let whole = enc_expr(e);
    match e {
        ExprV::StrSplit { expr, by } => {
            let a = enc_opt_expr(expr);
            lemma_enc_chars_len(by);
            assert(whole.subrange(0, 1) =~= seq![22u8]);
            lemma_subrange_at(s, i, whole, 0, seq![22u8]);
            lemma_rt_u8(s, i, 22u8);
            assert(whole.subrange(1, 1 + a.len() as int) =~= a);
            lemma_subrange_at(s, i, whole, 1, a);
            lemma_rt_opt_expr(s, i + 1, expr);
            assert(whole.subrange(1 + a.len() as int, 1 + a.len() + enc_string(by).len() as int)
                =~= enc_string(by));
            lemma_subrange_at(s, i, whole, 1 + a.len() as int, enc_string(by));
            lemma_rt_string(s, i + 1 + a.len() as int, by);
        },
        _ => {
        },
    }
}

#[verifier::rlimit(100)]
#[verifier::spinoff_prover]
proof fn lemma_rt_expr_v23(s: Seq<u8>, i: int, e: ExprV)
    requires
        0 <= i,
        expr_ok(e),
        expr_tag(e) == 23,
        i + enc_expr(e).len() <= s.len(),
        s.subrange(i, i + enc_expr(e).len() as int) == enc_expr(e),
    ensures
        dec_expr(s, i) == Option::Some((e, i + enc_expr(e).len())),
    decreases e, 2int,
{
    let whole = enc_expr(e);
    match e {
        ExprV::StrPadStart { expr, length, fill_char } => {
            let a = enc_opt_expr(expr);
            lemma_enc_chars_len(fill_char);
            assert(whole.subrange(0, 1) =~= seq![23u8]);
            lemma_subrange_at(s, i, whole, 0, seq![23u8]);
            lemma_rt_u8(s, i, 23u8);
            assert(whole.subrange(1, 9) =~= enc_u64(length));
            lemma_subrange_at(s, i, whole, 1, enc_u64(length));
            lemma_rt_u64(s, i + 1, length);
            assert(whole.subrange(9, 9 + a.len() as int) =~= a);
            lemma_subrange_at(s, i, whole, 9, a);
            lemma_rt_opt_expr(s, i + 9, expr);
            assert(whole.subrange(
                9 + a.len() as int,
                9 + a.len() + enc_string(fill_char).len() as int,
            ) =~= enc_string(fill_char));
            lemma_subrange_at(s, i, whole, 9 + a.len() as int, enc_string(fill_char));
            lemma_rt_string(s, i + 9 + a.len() as int, fill_char);
        },
        _ => {
        },
    }
}

#[verifier::rlimit(100)]
#[verifier::spinoff_prover]
proof fn lemma_rt_expr_v24(s: Seq<u8>, i: int, e: ExprV)
    requires
        0 <= i,
        expr_ok(e),
        expr_tag(e) == 24,
        i + enc_expr(e).len() <= s.len(),
        s.subrange(i, i + enc_expr(e).len() as int) == enc_expr(e),
    ensures
        dec_expr(s, i) == Option::Some((e, i + enc_expr(e).len())),
    decreases e, 2int,
{
    let whole = enc_expr(e);
    match e {
        ExprV::StrPadEnd { expr, length, fill_char } => {
            let a = enc_opt_expr(expr);
            lemma_enc_chars_len(fill_char);
            assert(whole.subrange(0, 1) =~= seq![24u8]);
            lemma_subrange_at(s, i, whole, 0, seq![24u8]);
            lemma_rt_u8(s, i, 24u8);
            assert(whole.subrange(1, 9) =~= enc_u64(length));
            lemma_subrange_at(s, i, whole, 1, enc_u64(length));
            lemma_rt_u64(s, i + 1, length);
            assert(whole.subrange(9, 9 + a.len() as int) =~= a);
            lemma_subrange_at(s, i, whole, 9, a);
            lemma_rt_opt_expr(s, i + 9, expr);
            assert(whole.subrange(
                9 + a.len() as int,
                9 + a.len() + enc_string(fill_char).len() as int,
            ) =~= enc_string(fill_char));
            lemma_subrange_at(s, i, whole, 9 + a.len() as int, enc_string(fill_char));
            lemma_rt_string(s, i + 9 + a.len() as int, fill_char);
        },
        _ => {
        },
    }
}




/// Whether a list of expressions is representable on the wire.
pub open spec fn exprs_ok(es: Seq<ExprV>) -> bool
    decreases es.len(),
{
    if es.len() == 0 {
        true
    } else {
        expr_ok(es[0]) && exprs_ok(es.drop_first())
    }
}

/// An expression list encodes as its first expression followed by the rest.
pub proof fn lemma_enc_exprs_items_first(es: Seq<ExprV>)
    requires
        es.len() > 0,
    ensures
        enc_exprs_items(es) == enc_expr(es[0]) + enc_exprs_items(es.drop_first()),
    decreases es.len(),
{
    if es.len() == 1 {
        assert(es.drop_last() =~= Seq::<ExprV>::empty());
        assert(es.drop_first() =~= Seq::<ExprV>::empty());
        assert(enc_exprs_items(es) =~= enc_expr(es[0]) + enc_exprs_items(es.drop_first()));
    } else {
        lemma_enc_exprs_items_first(es.drop_last());
        assert(es.drop_last()[0] == es[0]);
        assert(es.drop_last().drop_first() =~= es.drop_first().drop_last());
        assert(es.drop_first().last() == es.last());
        assert(enc_exprs_items(es.drop_first()) == enc_exprs_items(es.drop_first().drop_last())
            + enc_expr(es.drop_first().last()));
        assert(enc_exprs_items(es) =~= enc_expr(es[0]) + enc_exprs_items(es.drop_first()));
    }
}

pub proof fn lemma_rt_exprs_items(s: Seq<u8>, i: int, es: Seq<ExprV>)
    requires
        0 <= i,
        exprs_ok(es),
        es.len() <= 0xFFFFFFFFFFFFFFFF,
        i + enc_exprs_items(es).len() <= s.len(),
        s.subrange(i, i + enc_exprs_items(es).len() as int) == enc_exprs_items(es),
    ensures
        dec_exprs_items(s, i, es.len() as u64) == Option::Some(
            (es, i + enc_exprs_items(es).len()),
        ),
    decreases es.len(),
{
    if es.len() == 0 {
        assert(es =~= Seq::<ExprV>::empty());
    } else {
        let whole = enc_exprs_items(es);
        let head = enc_expr(es[0]);
        let rest = enc_exprs_items(es.drop_first());
        lemma_enc_exprs_items_first(es);
        assert(whole.subrange(0, head.len() as int) =~= head);
        lemma_subrange_at(s, i, whole, 0, head);
        lemma_rt_expr(s, i, es[0]);
        assert(whole.subrange(head.len() as int, head.len() + rest.len() as int) =~= rest);
        lemma_subrange_at(s, i, whole, head.len() as int, rest);
        lemma_rt_exprs_items(s, i + head.len(), es.drop_first());
        assert((es.len() as u64 - 1) as u64 == es.drop_first().len() as u64);
        assert(seq![es[0]] + es.drop_first() =~= es);
    }
}

pub proof fn lemma_rt_exprs(s: Seq<u8>, i: int, es: Seq<ExprV>)
    requires
        0 <= i,
        exprs_ok(es),
        es.len() <= 0xFFFFFFFFFFFFFFFF,
        i + enc_exprs(es).len() <= s.len(),
        s.subrange(i, i + enc_exprs(es).len() as int) == enc_exprs(es),
    ensures
        dec_exprs(s, i) == Option::Some((es, i + enc_exprs(es).len())),
{
    let whole = enc_exprs(es);
    assert(whole.subrange(0, 8) =~= enc_u64(es.len() as u64));
    lemma_subrange_at(s, i, whole, 0, enc_u64(es.len() as u64));
    lemma_rt_u64(s, i, es.len() as u64);
    let items = enc_exprs_items(es);
    assert(whole.subrange(8, 8 + items.len() as int) =~= items);
    lemma_subrange_at(s, i, whole, 8, items);
    lemma_rt_exprs_items(s, i + 8, es);
}

/// Whether an optional child node is representable on the wire.
pub open spec fn opt_node_ok(n: Option<Box<NodeV>>) -> bool
    decreases n, 1int,
{
    match n {
        Option::None => true,
        Option::Some(b) => node_ok(*b),
    }
}

/// Whether a node is representable on the wire.
pub open spec fn node_ok(n: NodeV) -> bool
    decreases n, 2int,
{
    match n {
        NodeV::CsvScan { path } => str_ok(path),
        NodeV::ParquetScan { path } => str_ok(path),
        NodeV::MemoryScan { column_names } => strs_ok(column_names),
        NodeV::Project { input, expressions } => opt_node_ok(input) && expressions.len()
            <= 0xFFFFFFFFFFFFFFFF && exprs_ok(expressions),
        NodeV::Filter { input, predicate } => opt_node_ok(input) && opt_expr_ok(predicate),
        NodeV::WithColumns { input, expressions } => opt_node_ok(input) && expressions.len()
            <= 0xFFFFFFFFFFFFFFFF && exprs_ok(expressions),
        NodeV::Limit { input, .. } => opt_node_ok(input),
    }
}

pub proof fn lemma_rt_opt_node(s: Seq<u8>, i: int, n: Option<Box<NodeV>>)
    requires
        0 <= i,
        opt_node_ok(n),
        i + enc_opt_node(n).len() <= s.len(),
        s.subrange(i, i + enc_opt_node(n).len() as int) == enc_opt_node(n),
    ensures
        dec_opt_node(s, i) == Option::Some((n, i + enc_opt_node(n).len())),
    decreases n, 1int,
{
    let whole = enc_opt_node(n);
    match n {
        Option::None => {
            assert(whole.subrange(0, 1) =~= seq![0u8]);
            lemma_subrange_at(s, i, whole, 0, seq![0u8]);
            lemma_rt_u8(s, i, 0u8);
        },
        Option::Some(b) => {
            assert(whole.subrange(0, 1) =~= seq![1u8]);
            lemma_subrange_at(s, i, whole, 0, seq![1u8]);
            lemma_rt_u8(s, i, 1u8);
            assert(whole.subrange(1, 1 + enc_node(*b).len() as int) =~= enc_node(*b));
            lemma_subrange_at(s, i, whole, 1, enc_node(*b));
            lemma_rt_node(s, i + 1, *b);
        },
    }
}


/// The tag byte of a node's encoding.
pub open spec fn node_tag(n: NodeV) -> int {
    match n {
        NodeV::CsvScan { .. } => 1,
        NodeV::ParquetScan { .. } => 2,
        NodeV::MemoryScan { .. } => 3,
        NodeV::Project { .. } => 4,
        NodeV::Filter { .. } => 5,
        NodeV::WithColumns { .. } => 6,
        NodeV::Limit { .. } => 7,
    }
}
/// Decoding an encoded node from anywhere inside a byte sequence yields the
/// node back.
pub proof fn lemma_rt_node(s: Seq<u8>, i: int, n: NodeV)
    requires
        0 <= i,
        node_ok(n),
        i + enc_node(n).len() <= s.len(),
        s.subrange(i, i + enc_node(n).len() as int) == enc_node(n),
    ensures
        dec_node(s, i) == Option::Some((n, i + enc_node(n).len())),
    decreases n, 3int,
{
    if node_tag(n) == 1 {
        lemma_rt_node_v1(s, i, n);
    } else if node_tag(n) == 2 {
        lemma_rt_node_v2(s, i, n);
    } else if node_tag(n) == 3 {
        lemma_rt_node_v3(s, i, n);
    } else if node_tag(n) == 4 {
        lemma_rt_node_v4(s, i, n);
    } else if node_tag(n) == 5 {
        lemma_rt_node_v5(s, i, n);
    } else if node_tag(n) == 6 {
        lemma_rt_node_v6(s, i, n);
    } else {
        lemma_rt_node_v7(s, i, n);
    }
}

#[verifier::rlimit(100)]
#[verifier::spinoff_prover]
proof fn lemma_rt_node_v1(s: Seq<u8>, i: int, n: NodeV)
    requires
        0 <= i,
        node_ok(n),
        node_tag(n) == 1,
        i + enc_node(n).len() <= s.len(),
        s.subrange(i, i + enc_node(n).len() as int) == enc_node(n),
    ensures
        dec_node(s, i) == Option::Some((n, i + enc_node(n).len())),
    decreases n, 2int,
{
    let whole = enc_node(n);
    match n {
        NodeV::CsvScan { path } => {
            lemma_enc_chars_len(path);
            assert(whole.subrange(0, 1) =~= seq![1u8]);
            lemma_subrange_at(s, i, whole, 0, seq![1u8]);
            lemma_rt_u8(s, i, 1u8);
            assert(whole.subrange(1, 1 + enc_string(path).len() as int) =~= enc_string(path));
            lemma_subrange_at(s, i, whole, 1, enc_string(path));
            lemma_rt_string(s, i + 1, path);
        },
        _ => {
        },
    }
}

#[verifier::rlimit(100)]
#[verifier::spinoff_prover]
proof fn lemma_rt_node_v2(s: Seq<u8>, i: int, n: NodeV)
    requires
        0 <= i,
        node_ok(n),
        node_tag(n) == 2,
        i + enc_node(n).len() <= s.len(),
        s.subrange(i, i + enc_node(n).len() as int) == enc_node(n),
    ensures
        dec_node(s, i) == Option::Some((n, i + enc_node(n).len())),
    decreases n, 2int,
{
    let whole = enc_node(n);
    match n {
        NodeV::ParquetScan { path } => {
            lemma_enc_chars_len(path);
            assert(whole.subrange(0, 1) =~= seq![2u8]);
            lemma_subrange_at(s, i, whole, 0, seq![2u8]);
            lemma_rt_u8(s, i, 2u8);
            assert(whole.subrange(1, 1 + enc_string(path).len() as int) =~= enc_string(path));
            lemma_subrange_at(s, i, whole, 1, enc_string(path));
            lemma_rt_string(s, i + 1, path);
        },
        _ => {
        },
    }
}

#[verifier::rlimit(100)]
#[verifier::spinoff_prover]
proof fn lemma_rt_node_v3(s: Seq<u8>, i: int, n: NodeV)
    requires
        0 <= i,
        node_ok(n),
        node_tag(n) == 3,
        i + enc_node(n).len() <= s.len(),
        s.subrange(i, i + enc_node(n).len() as int) == enc_node(n),
    ensures
        dec_node(s, i) == Option::Some((n, i + enc_node(n).len())),
    decreases n, 2int,
{
    let whole = enc_node(n);
    match n {
        NodeV::MemoryScan { column_names } => {
            assert(whole.subrange(0, 1) =~= seq![3u8]);
            lemma_subrange_at(s, i, whole, 0, seq![3u8]);
            lemma_rt_u8(s, i, 3u8);
            assert(whole.subrange(1, 1 + enc_strings(column_names).len() as int) =~= enc_strings(
                column_names,
            ));
            lemma_subrange_at(s, i, whole, 1, enc_strings(column_names));
            lemma_rt_strings(s, i + 1, column_names);
        },
        _ => {
        },
    }
}

#[verifier::rlimit(100)]
#[verifier::spinoff_prover]
proof fn lemma_rt_node_v4(s: Seq<u8>, i: int, n: NodeV)
    requires
        0 <= i,
        node_ok(n),
        node_tag(n) == 4,
        i + enc_node(n).len() <= s.len(),
        s.subrange(i, i + enc_node(n).len() as int) == enc_node(n),
    ensures
        dec_node(s, i) == Option::Some((n, i + enc_node(n).len())),
    decreases n, 2int,
{
    let whole = enc_node(n);
    match n {
        NodeV::Project { input, expressions } => {
            let a = enc_opt_node(input);
            let b = enc_exprs(expressions);
            assert(whole.subrange(0, 1) =~= seq![4u8]);
            lemma_subrange_at(s, i, whole, 0, seq![4u8]);
            lemma_rt_u8(s, i, 4u8);
            assert(whole.subrange(1, 1 + a.len() as int) =~= a);
            lemma_subrange_at(s, i, whole, 1, a);
            lemma_rt_opt_node(s, i + 1, input);
            assert(whole.subrange(1 + a.len() as int, 1 + a.len() + b.len() as int) =~= b);
            lemma_subrange_at(s, i, whole, 1 + a.len() as int, b);
            lemma_rt_exprs(s, i + 1 + a.len() as int, expressions);
        },
        _ => {
        },
    }
}

#[verifier::rlimit(100)]
#[verifier::spinoff_prover]
proof fn lemma_rt_node_v5(s: Seq<u8>, i: int, n: NodeV)
    requires
        0 <= i,
        node_ok(n),
        node_tag(n) == 5,
        i + enc_node(n).len() <= s.len(),
        s.subrange(i, i + enc_node(n).len() as int) == enc_node(n),
    ensures
        dec_node(s, i) == Option::Some((n, i + enc_node(n).len())),
    decreases n, 2int,
{
    let whole = enc_node(n);
    match n {
        NodeV::Filter { input, predicate } => {
            let a = enc_opt_node(input);
            let b = enc_opt_expr(predicate);
            assert(whole.subrange(0, 1) =~= seq![5u8]);
            lemma_subrange_at(s, i, whole, 0, seq![5u8]);
            lemma_rt_u8(s, i, 5u8);
            assert(whole.subrange(1, 1 + a.len() as int) =~= a);
            lemma_subrange_at(s, i, whole, 1, a);
            lemma_rt_opt_node(s, i + 1, input);
            assert(whole.subrange(1 + a.len() as int, 1 + a.len() + b.len() as int) =~= b);
            lemma_subrange_at(s, i, whole, 1 + a.len() as int, b);
            lemma_rt_opt_expr(s, i + 1 + a.len() as int, predicate);
        },
        _ => {
        },
    }
}

#[verifier::rlimit(100)]
#[verifier::spinoff_prover]
proof fn lemma_rt_node_v6(s: Seq<u8>, i: int, n: NodeV)
    requires
        0 <= i,
        node_ok(n),
        node_tag(n) == 6,
        i + enc_node(n).len() <= s.len(),
        s.subrange(i, i + enc_node(n).len() as int) == enc_node(n),
    ensures
        dec_node(s, i) == Option::Some((n, i + enc_node(n).len())),
    decreases n, 2int,
{
    let whole = enc_node(n);
    match n {
        NodeV::WithColumns { input, expressions } => {
            let a = enc_opt_node(input);
            let b = enc_exprs(expressions);
            assert(whole.subrange(0, 1) =~= seq![6u8]);
            lemma_subrange_at(s, i, whole, 0, seq![6u8]);
            lemma_rt_u8(s, i, 6u8);
            assert(whole.subrange(1, 1 + a.len() as int) =~= a);
            lemma_subrange_at(s, i, whole, 1, a);
            lemma_rt_opt_node(s, i + 1, input);
            assert(whole.subrange(1 + a.len() as int, 1 + a.len() + b.len() as int) =~= b);
            lemma_subrange_at(s, i, whole, 1 + a.len() as int, b);
            lemma_rt_exprs(s, i + 1 + a.len() as int, expressions);
        },
        _ => {
        },
    }
}

#[verifier::rlimit(100)]
#[verifier::spinoff_prover]
proof fn lemma_rt_node_v7(s: Seq<u8>, i: int, n: NodeV)
    requires
        0 <= i,
        node_ok(n),
        node_tag(n) == 7,
        i + enc_node(n).len() <= s.len(),
        s.subrange(i, i + enc_node(n).len() as int) == enc_node(n),
    ensures
        dec_node(s, i) == Option::Some((n, i + enc_node(n).len())),
    decreases n, 2int,
{
    let whole = enc_node(n);
    match n {
        NodeV::Limit { input, n: count } => {
            let a = enc_opt_node(input);
            assert(whole.subrange(0, 1) =~= seq![7u8]);
            lemma_subrange_at(s, i, whole, 0, seq![7u8]);
            lemma_rt_u8(s, i, 7u8);
            assert(whole.subrange(1, 9) =~= enc_u64(count));
            lemma_subrange_at(s, i, whole, 1, enc_u64(count));
            lemma_rt_u64(s, i + 1, count);
            assert(whole.subrange(9, 9 + a.len() as int) =~= a);
            lemma_subrange_at(s, i, whole, 9, a);
            lemma_rt_opt_node(s, i + 9, input);
        },
        _ => {
        },
    }
}

/// Whether a plan is representable on the wire.
pub open spec fn plan_ok(p: PlanV) -> bool {
    match p.root {
        Option::None => true,
        Option::Some(root) => node_ok(root),
    }
}

/// The round trip of the wire format: decoding an encoded plan yields the
/// plan back, for every representable plan. Nothing is lost or altered on
/// the way through the bytes.
pub proof fn lemma_plan_round_trip(p: PlanV)
    requires
        plan_ok(p),
    ensures
        dec_plan(enc_plan(p)) == Option::Some(p),
{
    let s = enc_plan(p);
    assert(s.subrange(0, s.len() as int) =~= s);
    match p.root {
        Option::None => {
            assert(s.subrange(0, 4) =~= enc_u32(p.plan_version));
            lemma_subrange_at(s, 0, s, 0, enc_u32(p.plan_version));
            lemma_rt_u32(s, 0, p.plan_version);
            assert(s.subrange(4, 5) =~= seq![0u8]);
            lemma_subrange_at(s, 0, s, 4, seq![0u8]);
            lemma_rt_u8(s, 4, 0u8);
        },
        Option::Some(root) => {
            assert(s.subrange(0, 4) =~= enc_u32(p.plan_version));
            lemma_subrange_at(s, 0, s, 0, enc_u32(p.plan_version));
            lemma_rt_u32(s, 0, p.plan_version);
            assert(s.subrange(4, 5) =~= seq![1u8]);
            lemma_subrange_at(s, 0, s, 4, seq![1u8]);
            lemma_rt_u8(s, 4, 1u8);
            assert(s.subrange(5, 5 + enc_node(root).len() as int) =~= enc_node(root));
            lemma_subrange_at(s, 0, s, 5, enc_node(root));
            lemma_rt_node(s, 5, root);
            assert(PlanV { plan_version: p.plan_version, root: Option::Some(root) } == p);
        },
    }
}

} // verus!
