use vstd::prelude::*;

use crate::reading::Reading;

verus! {

/// Holds the most recent reading, or nothing before the first successful fetch.
///
/// A write replaces the whole reading and a read hands out a whole copy, so no caller ever
/// sees fields of two different readings together. Where the cache is shared between tasks,
/// each call runs inside one short exclusive section.
pub struct StatusCache {
    current: Option<Reading>,
}

impl View for StatusCache {
    type V = Option<Reading>;

    closed spec fn view(&self) -> Option<Reading> {
        self.current
    }
}

impl StatusCache {
    /// An empty cache, as at process start.
    pub fn new() -> (c: StatusCache)
        ensures
            c@ is None,
    {
        StatusCache { current: None }
    }

    /// Replaces the held reading by `reading`; earlier readings are discarded.
    pub fn write(&mut self, reading: Reading)
        ensures
            final(self)@ == Some(reading),
    {
        self.current = Some(reading);
    }

    /// A copy of the held reading, or `None` when no fetch has succeeded yet.
    pub fn read(&self) -> (r: Option<Reading>)
        ensures
            r == self@,
    {
        self.current
    }
}

} // verus!
