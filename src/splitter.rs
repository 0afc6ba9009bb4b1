//! Entries of a run timer that splits on zones, for timer integrations.

use vstd::prelude::*;

use crate::items::{GatherItem, ItemIdentifier};
use crate::zone::Zone;

verus! {

/// A point in time: whole seconds and nanoseconds since the Unix epoch.
#[derive(Debug, Clone, Copy, PartialEq, Eq, Structural)]
pub struct Timestamp {
    pub second: i64,
    pub nanosecond: i32,
}

/// What was found at a moment of a run: an item, a zone, or both.
#[derive(Debug, Clone)]
pub struct Record {
    pub time: Timestamp,
    pub item: Option<GatherItem>,
    pub zone: Option<Zone>,
}

/// One entry of a run timer.
#[derive(Debug, Clone)]
pub enum TimerEntry {
    Start,
    Zone(Zone),
    Custom(String),
    /// Zones that may be cleared in any order, and how the split is decided.
    Invariance(Vec<Zone>, InvarianceMethod),
    End,
}

/// How a split over several zones is decided.
#[derive(Debug, Clone, Copy, PartialEq, Eq, Structural)]
pub enum InvarianceMethod {
    /// Every zone is cleared.
    All,
    /// A number of zones, optionally only those holding an item kind, and
    /// optionally at most that many of the item.
    Any(u32, Option<ItemIdentifier>, Option<u32>),
    /// Every item of a kind is gathered.
    ByGatherable(ItemIdentifier),
}

impl Default for InvarianceMethod {
    fn default() -> (r: Self)
        ensures
            r == InvarianceMethod::All,
    {
        InvarianceMethod::All
    }
}

} // verus!
