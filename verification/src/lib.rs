//! A query-plan bridge library: decodes a versioned, binary-encoded relational
//! plan, translates it into operations against the polars columnar engine,
//! manages opaque handles for plans and result tables, and reports every
//! failure through a stable error taxonomy.

pub mod error;
pub mod plan;
pub mod codec;
pub mod engine;
pub mod expr_str;
pub mod executor;
pub mod native;
pub mod registry;
pub mod bridge;
pub mod table;

use vstd::prelude::*;

verus! {

/// The version of this bridge's own boundary contract, unrelated to the
/// plan wire version.
pub const ABI_VERSION: u32 = 1;

/// Reports the boundary's own ABI version.
pub fn bridge_abi_version() -> (r: u32)
    ensures
        r == ABI_VERSION,
{
    ABI_VERSION
}

} // verus!
