//! Building engine tables from plain column values, and reading plain
//! values back out of a table. This is the typed core of the ad hoc
//! column-construction path; parsing whatever textual form a caller sends
//! is left to the caller.

use vstd::prelude::*;
use crate::engine;
use crate::error::BridgeError;

verus! {

/// The values of one column, nullable, in one of the directly supported
/// scalar types.
#[derive(Debug)]
pub enum ColumnData {
    Int64(Vec<Option<i64>>),
    Bool(Vec<Option<bool>>),
    Str(Vec<Option<String>>),
}

/// One named column to build a table from.
#[derive(Debug)]
pub struct ColumnDef {
    pub name: String,
    pub data: ColumnData,
}

/// Builds an engine table from named columns. The engine validates the
/// shape: duplicate names or unequal lengths fail with an execution error.
pub fn table_from_columns(cols: &Vec<ColumnDef>) -> (r: Result<
    polars::prelude::DataFrame,
    BridgeError,
>)
    ensures
        r matches Err(er) ==> er@ is Execution,
{
    let mut built: Vec<polars::prelude::Column> = Vec::new();
    let mut k: usize = 0;
    while k < cols.len()
        decreases cols.len() - k,
    {
        let c = &cols[k];
        let col = match &c.data {
            ColumnData::Int64(vals) => engine::column_i64(c.name.as_str(), clone_i64s(vals)),
            ColumnData::Bool(vals) => engine::column_bool(c.name.as_str(), clone_bools(vals)),
            ColumnData::Str(vals) => engine::column_str(c.name.as_str(), clone_strs(vals)),
        };
        built.push(col);
        k = k + 1;
    }
    match engine::df_new(built) {
        Result::Ok(df) => Ok(df),
        Result::Err(msg) => Err(
            BridgeError::Execution(
                "Failed to create DataFrame: ".to_owned().concat(msg.as_str()),
            ),
        ),
    }
}

fn clone_i64s(v: &Vec<Option<i64>>) -> (r: Vec<Option<i64>>)
    ensures
        r@ == v@,
{
    let mut out: Vec<Option<i64>> = Vec::new();
    let mut k: usize = 0;
    while k < v.len()
        invariant
            0 <= k <= v.len(),
            out@ == v@.take(k as int),
        decreases v.len() - k,
    {
        out.push(
            match v[k] {
                Option::Some(x) => Option::Some(x),
                Option::None => Option::None,
            },
        );
        proof {
            assert(v@.take(k as int).push(v@[k as int]) =~= v@.take(k as int + 1));
        }
        k = k + 1;
    }
    proof {
        assert(v@.take(v.len() as int) =~= v@);
    }
    out
}

fn clone_bools(v: &Vec<Option<bool>>) -> (r: Vec<Option<bool>>)
    ensures
        r@ == v@,
{
    let mut out: Vec<Option<bool>> = Vec::new();
    let mut k: usize = 0;
    while k < v.len()
        invariant
            0 <= k <= v.len(),
            out@ == v@.take(k as int),
        decreases v.len() - k,
    {
        out.push(
            match v[k] {
                Option::Some(x) => Option::Some(x),
                Option::None => Option::None,
            },
        );
        proof {
            assert(v@.take(k as int).push(v@[k as int]) =~= v@.take(k as int + 1));
        }
        k = k + 1;
    }
    proof {
        assert(v@.take(v.len() as int) =~= v@);
    }
    out
}

/// Whether two optional strings hold the same text.
pub open spec fn opt_str_eq(a: Option<String>, b: Option<String>) -> bool {
    match (a, b) {
        (Option::Some(x), Option::Some(y)) => x@ == y@,
        (Option::None, Option::None) => true,
        _ => false,
    }
}

fn clone_strs(v: &Vec<Option<String>>) -> (r: Vec<Option<String>>)
    ensures
        r@.len() == v@.len(),
        forall|i: int| 0 <= i < v@.len() ==> #[trigger] opt_str_eq(r@[i], v@[i]),
{
    let mut out: Vec<Option<String>> = Vec::new();
    let mut k: usize = 0;
    while k < v.len()
        invariant
            0 <= k <= v.len(),
            out@.len() == k,
            forall|i: int| 0 <= i < k ==> #[trigger] opt_str_eq(out@[i], v@[i]),
        decreases v.len() - k,
    {
        out.push(
            match &v[k] {
                Option::Some(x) => Option::Some(x.clone()),
                Option::None => Option::None,
            },
        );
        k = k + 1;
    }
    out
}

/// The number of rows of a table.
pub fn table_height(df: &polars::prelude::DataFrame) -> usize {
    engine::df_height(df)
}

/// The column names of a table, in order.
pub fn table_column_names(df: &polars::prelude::DataFrame) -> Vec<String> {
    engine::df_column_names(df)
}

/// The values of a signed integer column, or an error naming what went
/// wrong.
pub fn table_column_i64(df: &polars::prelude::DataFrame, name: &str) -> Result<
    Vec<Option<i64>>,
    String,
> {
    engine::df_column_i64(df, name)
}

/// The values of a boolean column.
pub fn table_column_bool(df: &polars::prelude::DataFrame, name: &str) -> Result<
    Vec<Option<bool>>,
    String,
> {
    engine::df_column_bool(df, name)
}

/// The values of a string column.
pub fn table_column_str(df: &polars::prelude::DataFrame, name: &str) -> Result<
    Vec<Option<String>>,
    String,
> {
    engine::df_column_str(df, name)
}

/// Value equality of two tables, where a null never equals a null.
pub fn table_equals(a: &polars::prelude::DataFrame, b: &polars::prelude::DataFrame) -> bool {
    engine::df_equals(a, b)
}

/// Value equality of two tables, where a null equals a null.
pub fn table_equals_missing(
    a: &polars::prelude::DataFrame,
    b: &polars::prelude::DataFrame,
) -> bool {
    engine::df_equals_missing(a, b)
}

} // verus!
