//! The boundary surface: every entry point follows one envelope. It clears
//! the last-error slot, runs the operation, and on failure writes
//! "[code] message" into the slot and returns the error's numeric code; a
//! zero status always pairs with a cleared slot, a nonzero status with a
//! non-empty one. Plans and result tables are owned behind checked integer
//! handles.

use vstd::prelude::*;
use crate::codec::{decode_plan, dec_plan};
use crate::engine;
use crate::error::{BridgeError, ErrView, ErrorCode, bridge_error_to_code};
use crate::executor::{execute_plan_df, execute_plan, df_to_ipc};
use crate::plan::{Plan, plan_flaw, plan_has_csv, MIN_PLAN_VERSION, MAX_PLAN_VERSION};
use crate::registry::Registry;
use vstd::string::StringExecFns;

verus! {

/// The text written into the last-error slot for an error: its code's name
/// in brackets, then its message.
pub open spec fn slot_text(e: ErrView) -> Seq<char> {
    "["@ + e.code().spec_name() + "] "@ + e.message()
}

/// The whole boundary state: compiled plans, result tables, and the
/// last-error slot of the calling thread.
pub struct Bridge {
    plans: Registry<Plan>,
    tables: Registry<polars::prelude::DataFrame>,
    last_error: Option<String>,
}

impl Bridge {
    pub closed spec fn plans_view(&self) -> Seq<Option<Plan>> {
        self.plans@
    }

    pub closed spec fn tables_view(&self) -> Seq<Option<polars::prelude::DataFrame>> {
        self.tables@
    }

    pub closed spec fn last_error_view(&self) -> Option<Seq<char>> {
        match self.last_error {
            Option::None => Option::None,
            Option::Some(s) => Option::Some(s@),
        }
    }

    /// The number of plan slots ever issued.
    pub fn plan_count(&self) -> (r: usize)
        ensures
            r == self.plans_view().len(),
    {
        self.plans.count()
    }

    /// The number of table slots ever issued.
    pub fn table_count(&self) -> (r: usize)
        ensures
            r == self.tables_view().len(),
    {
        self.tables.count()
    }

    /// Whether a plan handle is live.
    pub open spec fn plan_live(&self, h: u64) -> bool {
        1 <= h <= self.plans_view().len() && self.plans_view()[h - 1] is Some
    }

    /// Whether a table handle is live.
    pub open spec fn table_live(&self, h: u64) -> bool {
        1 <= h <= self.tables_view().len() && self.tables_view()[h - 1] is Some
    }

    pub fn new() -> (r: Self)
        ensures
            r.plans_view() == Seq::<Option<Plan>>::empty(),
            r.tables_view() == Seq::<Option<polars::prelude::DataFrame>>::empty(),
            r.last_error_view() is None,
    {
        Bridge { plans: Registry::new(), tables: Registry::new(), last_error: Option::None }
    }

    /// Clears the last-error slot, as every fallible entry point does on
    /// entry.
    pub fn clear_last_error(&mut self)
        ensures
            final(self).last_error_view() is None,
            final(self).plans_view() == old(self).plans_view(),
            final(self).tables_view() == old(self).tables_view(),
    {
        self.last_error = Option::None;
    }

    /// Sets the last-error slot to the given text.
    pub fn set_last_error(&mut self, msg: String)
        ensures
            final(self).last_error_view() == Option::Some(msg@),
            final(self).plans_view() == old(self).plans_view(),
            final(self).tables_view() == old(self).tables_view(),
    {
        self.last_error = Option::Some(msg);
    }

    /// Reads the last-error slot; empty means the previous call succeeded.
    pub fn last_error(&self) -> (r: Option<&String>)
        ensures
            match r {
                Option::Some(s) => self.last_error_view() == Option::Some(s@),
                Option::None => self.last_error_view() is None,
            },
    {
        match &self.last_error {
            Option::Some(s) => Option::Some(s),
            Option::None => Option::None,
        }
    }

    /// Records an error in the slot and yields its numeric status, which is
    /// never zero.
    fn fail(&mut self, e: &BridgeError) -> (r: i32)
        ensures
            r == e@.code().spec_number(),
            r != 0,
            final(self).last_error_view() == Option::Some(slot_text(e@)),
            slot_text(e@).len() > 0,
            exists|ev: ErrView|
                r == ev.code().spec_number() && final(self).last_error_view() == Option::Some(
                    #[trigger] slot_text(ev),
                ),
            final(self).plans_view() == old(self).plans_view(),
            final(self).tables_view() == old(self).tables_view(),
    {
        proof {
            reveal_strlit("[");
        }
        let (code, msg) = bridge_error_to_code(e);
        let text = "[".to_owned().concat(code.name().as_str()).concat("] ").concat(msg.as_str());
        self.last_error = Option::Some(text);
        code.number()
    }

    /// Records a caught native fault: the unknown status, with the panic's
    /// own words behind a fixed prefix. The caller's fault barrier uses
    /// this, so that no internal fault ever crosses the boundary as a
    /// crash.
    pub fn record_panic(&mut self, msg: &str) -> (r: i32)
        ensures
            r == ErrorCode::Unknown.spec_number(),
            r != 0,
            final(self).last_error_view() == Option::Some("[ERR_UNKNOWN] Panic: "@ + msg@),
            "[ERR_UNKNOWN] Panic: "@.len() + msg@.len() > 0,
            final(self).plans_view() == old(self).plans_view(),
            final(self).tables_view() == old(self).tables_view(),
    {
        proof {
            reveal_strlit("[ERR_UNKNOWN] Panic: ");
        }
        self.last_error = Option::Some("[ERR_UNKNOWN] Panic: ".to_owned().concat(msg));
        1
    }

    /// Decodes plan bytes, validates the wire version, and stores the plan
    /// under a fresh handle. Compilation succeeds exactly when the bytes
    /// decode and the version lies in the supported range; a version
    /// outside the range is rejected before the tree is looked at further.
    pub fn compile(&mut self, bytes: &Vec<u8>) -> (r: (i32, u64))
        requires
            old(self).plans_view().len() < u64::MAX,
        ensures
            final(self).tables_view() == old(self).tables_view(),
            (r.0 == 0) <==> final(self).last_error_view() is None,
            r.0 != 0 ==> final(self).plans_view() == old(self).plans_view() && r.1 == 0 && (
            final(self).last_error_view() matches Some(m) && m.len() > 0),
            r.0 != 0 ==> (exists|ev: ErrView|
                r.0 == ev.code().spec_number() && final(self).last_error_view() == Option::Some(
                    #[trigger] slot_text(ev),
                )),
            dec_plan(bytes@) is None ==> r.0 == ErrorCode::PlanDecode.spec_number()
                && final(self).last_error_view() == Option::Some(
                slot_text(ErrView::PlanDecode("Invalid plan encoding"@)),
            ),
            (dec_plan(bytes@) matches Some(pv) && !(MIN_PLAN_VERSION <= pv.plan_version
                <= MAX_PLAN_VERSION)) ==> r.0 == ErrorCode::PlanVersionUnsupported.spec_number()
                && final(self).last_error_view() == Option::Some(
                slot_text(ErrView::PlanVersionUnsupported(dec_plan(bytes@)->Some_0.plan_version)),
            ),
            (dec_plan(bytes@) matches Some(pv) && MIN_PLAN_VERSION <= pv.plan_version
                <= MAX_PLAN_VERSION) ==> r.0 == 0 && r.1 == old(self).plans_view().len() + 1
                && final(self).plans_view().len() == old(self).plans_view().len() + 1
                && (final(self).plans_view()[r.1 - 1] matches Some(p) && p@ == dec_plan(
                bytes@,
            )->Some_0),
    {
        self.last_error = Option::None;
        match decode_plan(bytes) {
            Option::None => {
                let st = self.fail(&BridgeError::PlanDecode("Invalid plan encoding".to_owned()));
                (st, 0)
            },
            Option::Some(plan) => {
                if plan.plan_version < MIN_PLAN_VERSION || plan.plan_version > MAX_PLAN_VERSION {
                    let st = self.fail(&BridgeError::PlanVersionUnsupported(plan.plan_version));
                    (st, 0)
                } else {
                    let h = self.plans.insert(plan);
                    (0, h)
                }
            },
        }
    }

    /// Frees a compiled plan. A zero handle is a no-op; a handle that is
    /// not live is reported instead of being undefined.
    pub fn free_plan(&mut self, h: u64) -> (r: i32)
        ensures
            final(self).tables_view() == old(self).tables_view(),
            (r == 0) <==> final(self).last_error_view() is None,
            r != 0 ==> (final(self).last_error_view() matches Some(m) && m.len() > 0),
            r != 0 ==> (exists|ev: ErrView|
                r == ev.code().spec_number() && final(self).last_error_view() == Option::Some(
                    #[trigger] slot_text(ev),
                )),
            h == 0 ==> r == 0 && final(self).plans_view() == old(self).plans_view(),
            h != 0 && old(self).plan_live(h) ==> r == 0
                && final(self).plans_view() == old(self).plans_view().update(
                h - 1,
                Option::None::<Plan>,
            ),
            h != 0 && !old(self).plan_live(h) ==> r == ErrorCode::InvalidArgument.spec_number()
                && final(self).plans_view() == old(self).plans_view(),
    {
        self.last_error = Option::None;
        if h == 0 {
            return 0;
        }
        if self.plans.free(h) {
            0
        } else {
            self.fail(&BridgeError::InvalidArgument("Unknown plan handle".to_owned()))
        }
    }

    /// Frees a result table. A zero handle is a no-op; a handle that is
    /// not live is reported instead of being undefined.
    pub fn free_table(&mut self, h: u64) -> (r: i32)
        ensures
            final(self).plans_view() == old(self).plans_view(),
            (r == 0) <==> final(self).last_error_view() is None,
            r != 0 ==> (final(self).last_error_view() matches Some(m) && m.len() > 0),
            r != 0 ==> (exists|ev: ErrView|
                r == ev.code().spec_number() && final(self).last_error_view() == Option::Some(
                    #[trigger] slot_text(ev),
                )),
            h == 0 ==> r == 0 && final(self).tables_view() == old(self).tables_view(),
            h != 0 && old(self).table_live(h) ==> r == 0
                && final(self).tables_view() == old(self).tables_view().update(
                h - 1,
                Option::None::<polars::prelude::DataFrame>,
            ),
            h != 0 && !old(self).table_live(h) ==> r == ErrorCode::InvalidArgument.spec_number()
                && final(self).tables_view() == old(self).tables_view(),
    {
        self.last_error = Option::None;
        if h == 0 {
            return 0;
        }
        if self.tables.free(h) {
            0
        } else {
            self.fail(&BridgeError::InvalidArgument("Unknown table handle".to_owned()))
        }
    }

    /// Stores a table built outside the interpreter — an imported one, or
    /// one assembled from columns — and issues its handle.
    pub fn register_table(&mut self, df: polars::prelude::DataFrame) -> (h: u64)
        requires
            old(self).tables_view().len() < u64::MAX,
        ensures
            final(self).plans_view() == old(self).plans_view(),
            final(self).last_error_view() == old(self).last_error_view(),
            final(self).tables_view() == old(self).tables_view().push(Option::Some(df)),
            h == old(self).tables_view().len() + 1,
            h != 0,
    {
        self.tables.insert(df)
    }

    /// Looks up a live table, for export across the boundary.
    pub fn get_table(&self, h: u64) -> (r: Option<&polars::prelude::DataFrame>)
        ensures
            r is Some <==> self.table_live(h),
    {
        self.tables.get(h)
    }

    /// Executes a compiled plan, optionally seeded with a stored table, and
    /// stores the materialized result under a fresh table handle. A flawed
    /// plan fails with its first flaw's code before any execution.
    pub fn execute_to_table(&mut self, plan_handle: u64, input_handle: u64) -> (r: (i32, u64))
        requires
            old(self).tables_view().len() < u64::MAX,
        ensures
            final(self).plans_view() == old(self).plans_view(),
            (r.0 == 0) <==> final(self).last_error_view() is None,
            r.0 != 0 ==> final(self).tables_view() == old(self).tables_view() && r.1 == 0 && (
            final(self).last_error_view() matches Some(m) && m.len() > 0),
            r.0 != 0 ==> (exists|ev: ErrView|
                r.0 == ev.code().spec_number() && final(self).last_error_view() == Option::Some(
                    #[trigger] slot_text(ev),
                )),
            r.0 == 0 ==> final(self).tables_view().len() == old(self).tables_view().len() + 1
                && r.1 == old(self).tables_view().len() + 1 && final(self).tables_view()[r.1
                - 1] is Some,
            !old(self).plan_live(plan_handle) ==> r.0 == ErrorCode::InvalidArgument.spec_number(),
            (old(self).plan_live(plan_handle) && (input_handle == 0 || old(self).table_live(
                input_handle,
            ))) ==> ({
                let p = old(self).plans_view()[plan_handle - 1]->Some_0;
                let has_seed = input_handle != 0;
                (!plan_has_csv(p@) && plan_flaw(p@, has_seed) is Some) ==> r.0 == plan_flaw(
                    p@,
                    has_seed,
                )->Some_0.code().spec_number() && final(self).last_error_view() == Option::Some(
                    slot_text(plan_flaw(p@, has_seed)->Some_0),
                )
            }),
    {
        self.last_error = Option::None;
        let seed: Option<polars::prelude::DataFrame> = if input_handle != 0 {
            match self.tables.get(input_handle) {
                Option::Some(df) => Option::Some(engine::df_clone(df)),
                Option::None => {
                    let st = self.fail(
                        &BridgeError::InvalidArgument("Unknown table handle".to_owned()),
                    );
                    return (st, 0);
                },
            }
        } else {
            Option::None
        };
        let result = match self.plans.get(plan_handle) {
            Option::Some(plan) => execute_plan_df(plan, seed.as_ref()),
            Option::None => {
                let st = self.fail(
                    &BridgeError::InvalidArgument("Unknown plan handle".to_owned()),
                );
                return (st, 0);
            },
        };
        match result {
            Result::Ok(df) => {
                let h = self.tables.insert(df);
                (0, h)
            },
            Result::Err(e) => {
                let st = self.fail(&e);
                (st, 0)
            },
        }
    }

    /// Executes a compiled plan without a seed and returns the result
    /// serialized in the binary columnar container.
    pub fn execute_to_serialized(&mut self, plan_handle: u64) -> (r: (i32, Vec<u8>))
        ensures
            final(self).plans_view() == old(self).plans_view(),
            final(self).tables_view() == old(self).tables_view(),
            (r.0 == 0) <==> final(self).last_error_view() is None,
            r.0 != 0 ==> (final(self).last_error_view() matches Some(m) && m.len() > 0),
            r.0 != 0 ==> (exists|ev: ErrView|
                r.0 == ev.code().spec_number() && final(self).last_error_view() == Option::Some(
                    #[trigger] slot_text(ev),
                )),
            !old(self).plan_live(plan_handle) ==> r.0 == ErrorCode::InvalidArgument.spec_number(),
            old(self).plan_live(plan_handle) ==> ({
                let p = old(self).plans_view()[plan_handle - 1]->Some_0;
                (!plan_has_csv(p@) && plan_flaw(p@, false) is Some) ==> r.0 == plan_flaw(
                    p@,
                    false,
                )->Some_0.code().spec_number() && final(self).last_error_view() == Option::Some(
                    slot_text(plan_flaw(p@, false)->Some_0),
                )
            }),
    {
        self.last_error = Option::None;
        let result = match self.plans.get(plan_handle) {
            Option::Some(plan) => execute_plan(plan),
            Option::None => {
                let st = self.fail(
                    &BridgeError::InvalidArgument("Unknown plan handle".to_owned()),
                );
                return (st, Vec::new());
            },
        };
        match result {
            Result::Ok(bytes) => (0, bytes),
            Result::Err(e) => {
                let st = self.fail(&e);
                (st, Vec::new())
            },
        }
    }

    /// Serializes a stored table into the binary columnar container.
    pub fn table_to_serialized(&mut self, table_handle: u64) -> (r: (i32, Vec<u8>))
        ensures
            final(self).plans_view() == old(self).plans_view(),
            final(self).tables_view() == old(self).tables_view(),
            (r.0 == 0) <==> final(self).last_error_view() is None,
            r.0 != 0 ==> (final(self).last_error_view() matches Some(m) && m.len() > 0),
            r.0 != 0 ==> (exists|ev: ErrView|
                r.0 == ev.code().spec_number() && final(self).last_error_view() == Option::Some(
                    #[trigger] slot_text(ev),
                )),
            !old(self).table_live(table_handle) ==> r.0
                == ErrorCode::InvalidArgument.spec_number(),
    {
        self.last_error = Option::None;
        let result = match self.tables.get(table_handle) {
            Option::Some(df) => df_to_ipc(df),
            Option::None => {
                let st = self.fail(
                    &BridgeError::InvalidArgument("Unknown table handle".to_owned()),
                );
                return (st, Vec::new());
            },
        };
        match result {
            Result::Ok(bytes) => (0, bytes),
            Result::Err(e) => {
                let st = self.fail(&e);
                (st, Vec::new())
            },
        }
    }
}

/// The capability manifest a caller reads before sending a plan. The
/// dtypes are cast targets; literals travel only in the listed scalar
/// forms, so a float reaches the engine through a cast, not a literal.
pub fn bridge_capabilities() -> (r: String)
    ensures
        r@ == capabilities_text(),
{
    "{\n            \"abi_version\": 1,\n            \"min_plan_version_supported\": 1,\n            \"max_plan_version_supported\": 1,\n            \"supported_nodes\": [\"MemoryScan\", \"Project\", \"Filter\", \"WithColumns\", \"Limit\"],\n            \"supported_exprs\": [\"Col\", \"Lit\", \"Binary\", \"Alias\", \"IsNull\", \"Not\", \"Wildcard\", \"Cast\", \"StrLenBytes\", \"StrLenChars\", \"StrContains\", \"StrStartsWith\", \"StrEndsWith\", \"StrExtract\", \"StrReplace\", \"StrReplaceAll\", \"StrToLowercase\", \"StrToUppercase\", \"StrStripChars\", \"StrSlice\", \"StrSplit\", \"StrPadStart\", \"StrPadEnd\"],\n            \"supported_dtypes\": [\"Int64\", \"Float64\", \"Bool\", \"Utf8\"],\n            \"supported_literals\": [\"Int\", \"Bool\", \"String\", \"Null\"],\n            \"execution_modes\": [\"collect\"],\n            \"copy_behavior\": \"copy_on_boundary\"\n        }".to_owned()
}

/// The exact capability text, for callers that reason about it.
pub open spec fn capabilities_text() -> Seq<char> {
    "{\n            \"abi_version\": 1,\n            \"min_plan_version_supported\": 1,\n            \"max_plan_version_supported\": 1,\n            \"supported_nodes\": [\"MemoryScan\", \"Project\", \"Filter\", \"WithColumns\", \"Limit\"],\n            \"supported_exprs\": [\"Col\", \"Lit\", \"Binary\", \"Alias\", \"IsNull\", \"Not\", \"Wildcard\", \"Cast\", \"StrLenBytes\", \"StrLenChars\", \"StrContains\", \"StrStartsWith\", \"StrEndsWith\", \"StrExtract\", \"StrReplace\", \"StrReplaceAll\", \"StrToLowercase\", \"StrToUppercase\", \"StrStripChars\", \"StrSlice\", \"StrSplit\", \"StrPadStart\", \"StrPadEnd\"],\n            \"supported_dtypes\": [\"Int64\", \"Float64\", \"Bool\", \"Utf8\"],\n            \"supported_literals\": [\"Int\", \"Bool\", \"String\", \"Null\"],\n            \"execution_modes\": [\"collect\"],\n            \"copy_behavior\": \"copy_on_boundary\"\n        }"@
}

/// The version of this bridge build, reported beside the ABI version.
pub fn bridge_engine_version() -> (r: String)
    ensures
        r@ == "0.1.0"@,
{
    "0.1.0".to_owned()
}

} // verus!
