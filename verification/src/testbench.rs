//! Bookkeeping for the theme-testbench workspace item.
//!
//! The testbench itself is a rendering surface (colour ramps and button
//! grids drawn from the active colour scheme); drawing and window plumbing
//! belong to the host application. What is modelled here is the item's
//! persistence bookkeeping: the testbench remembers the storage record it
//! was saved under, so that saving it again reuses that record instead of
//! creating another, and its persisted state carries nothing but a schema
//! version.

use vstd::prelude::*;

verus! {

/// One open theme-testbench item.
pub struct ThemeTestbench {
    record_id: Option<u64>,
}

impl ThemeTestbench {
    /// The storage record this item was saved under, if it ever was.
    pub closed spec fn saved_record(&self) -> Option<u64> {
        self.record_id
    }

    /// A freshly deployed testbench: never saved yet.
    pub fn new() -> (r: ThemeTestbench)
        ensures
            r.saved_record() is None,
    {
        ThemeTestbench { record_id: None }
    }

    /// The save decision: reuse this record if the item was saved before;
    /// only when nothing is returned must the host create a new record and
    /// report it back through `record_created`.
    pub fn record_to_reuse(&self) -> (r: Option<u64>)
        ensures
            r == self.saved_record(),
    {
        self.record_id
    }

    /// The host reports the record a first save created; later saves reuse
    /// it.
    pub fn record_created(&mut self, id: u64)
        ensures
            final(self).saved_record() == Some(id),
    {
        self.record_id = Some(id);
    }
}

/// The persisted state of a testbench item. The testbench is recreated from
/// the active theme alone, so nothing but the record's existence is stored.
pub struct ThemeTestbenchState {}

impl ThemeTestbenchState {
    /// The storage namespace testbench records live under.
    pub fn namespace() -> (r: &'static str)
        ensures
            r@ == "ThemeTestbenchState"@,
    {
        "ThemeTestbenchState"
    }

    /// The schema version of the persisted state.
    pub fn schema_version() -> (r: u64)
        ensures
            r == 0,
    {
        0
    }
}

} // verus!
