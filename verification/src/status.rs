//! The holder of the most recent reading.

use vstd::prelude::*;
use crate::reading::Reading;

verus! {

/// The slot that holds the latest published [`Reading`].
///
/// It is empty until the first successful poll. Publishing replaces the
/// whole reading at once, so an observer sees either the previous reading or
/// the new one, never a mixture of both. To share the cell between the update
/// loop and its observers, put it behind a lock: `publish` needs exclusive
/// access, `read` does not.
#[derive(Clone, Copy, Debug)]
pub struct StatusCell {
    latest: Option<Reading>,
}

impl StatusCell {
    /// The reading an observer sees, if any was published yet.
    pub closed spec fn view(&self) -> Option<Reading> {
        self.latest
    }

    /// Creates the cell as it is before the first successful poll.
    pub fn new() -> (cell: Self)
        ensures
            cell@ is None,
    {
        StatusCell { latest: None }
    }

    /// Replaces whatever the cell holds by `reading`.
    pub fn publish(&mut self, reading: Reading)
        ensures
            final(self)@ == Some(reading),
    {
        self.latest = Some(reading);
    }

    /// Returns the latest published reading; `None` means "not ready yet".
    pub fn read(&self) -> (latest: Option<Reading>)
        ensures
            latest == self@,
    {
        self.latest
    }
}

} // verus!
