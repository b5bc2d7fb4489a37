//! Counters of messages sent, succeeded and failed.
use vstd::prelude::*;

verus! {

/// Counters of a run. Every counter wraps around at its type's limit.
#[derive(Debug, Clone, Copy)]
pub struct Metrics {
    pub total_sent: usize,
    pub total_success: usize,
    pub total_failed: usize,
    pub total_bytes: u64,
    pub error_count: usize,
}

impl Metrics {
    /// Every message counted is counted either as a success or as a failure, and
    /// every failure is counted as an error. `new` establishes it and both
    /// `record_*` methods keep it until the number sent reaches the counter's limit.
    pub open spec fn wf(&self) -> bool {
        &&& self.total_sent == self.total_success + self.total_failed
        &&& self.error_count == self.total_failed
    }

    /// Every counter is at zero.
    pub open spec fn is_zero(&self) -> bool {
        &&& self.total_sent == 0
        &&& self.total_success == 0
        &&& self.total_failed == 0
        &&& self.total_bytes == 0
        &&& self.error_count == 0
    }

    /// All counters at zero.
    pub fn new() -> (res: Self)
        ensures
            res.is_zero(),
            res.wf(),
    {
        Metrics { total_sent: 0, total_success: 0, total_failed: 0, total_bytes: 0, error_count: 0 }
    }

    /// Counts a message that was delivered with `bytes` bytes.
    pub fn record_success(&mut self, bytes: usize)
        ensures
            final(self).total_sent == vstd::wrapping::usize_specs::wrapping_add(
                old(self).total_sent,
                1,
            ),
            final(self).total_success == vstd::wrapping::usize_specs::wrapping_add(
                old(self).total_success,
                1,
            ),
            final(self).total_bytes == vstd::wrapping::u64_specs::wrapping_add(
                old(self).total_bytes,
                bytes as u64,
            ),
            final(self).total_failed == old(self).total_failed,
            final(self).error_count == old(self).error_count,
            old(self).wf() && old(self).total_sent < usize::MAX ==> final(self).wf(),
    {
        self.total_sent = self.total_sent.wrapping_add(1);
        self.total_success = self.total_success.wrapping_add(1);
        self.total_bytes = self.total_bytes.wrapping_add(bytes as u64);
    }

    /// Counts a message that could not be produced or delivered.
    pub fn record_failure(&mut self)
        ensures
            final(self).total_sent == vstd::wrapping::usize_specs::wrapping_add(
                old(self).total_sent,
                1,
            ),
            final(self).total_failed == vstd::wrapping::usize_specs::wrapping_add(
                old(self).total_failed,
                1,
            ),
            final(self).error_count == vstd::wrapping::usize_specs::wrapping_add(
                old(self).error_count,
                1,
            ),
            final(self).total_success == old(self).total_success,
            final(self).total_bytes == old(self).total_bytes,
            old(self).wf() && old(self).total_sent < usize::MAX ==> final(self).wf(),
    {
        self.total_sent = self.total_sent.wrapping_add(1);
        self.total_failed = self.total_failed.wrapping_add(1);
        self.error_count = self.error_count.wrapping_add(1);
    }
}

} // verus!
