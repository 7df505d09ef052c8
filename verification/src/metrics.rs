//! A counter of audio batches for occasional diagnostics.

use vstd::prelude::*;

verus! {

/// Every how many batches the counter asks for a log line.
pub const REPORT_EVERY: usize = 10000;

/// Counts the batches that pass the bridge, written or read. The owner
/// decides where the count is shown.
pub struct BatchCounter {
    count: usize,
}

/// The count after one more batch; the largest count is followed by zero.
pub open spec fn count_after(count: usize) -> usize {
    if count == usize::MAX {
        0
    } else {
        (count + 1) as usize
    }
}

impl View for BatchCounter {
    type V = usize;

    /// The number of batches counted.
    closed spec fn view(&self) -> usize {
        self.count
    }
}

impl BatchCounter {
    /// A counter that has seen nothing.
    pub fn new() -> (counter: Self)
        ensures
            counter@ == 0,
    {
        BatchCounter { count: 0 }
    }

    /// The number of batches counted.
    pub fn count(&self) -> (count: usize)
        ensures
            count == self@,
    {
        self.count
    }

    /// Counts one batch and returns the count where it is a multiple of
    /// [`REPORT_EVERY`], which is when a line is due.
    pub fn record(&mut self) -> (due: Option<usize>)
        ensures
            final(self)@ == count_after(old(self)@),
            due == (if final(self)@ % REPORT_EVERY == 0 {
                Some(final(self)@)
            } else {
                None
            }),
    {
        self.count = if self.count == usize::MAX {
            0
        } else {
            self.count + 1
        };
        if self.count % REPORT_EVERY == 0 {
            Some(self.count)
        } else {
            None
        }
    }
}

} // verus!
