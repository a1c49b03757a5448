//! Creation of the shared document and the request counters.
use vstd::prelude::*;
use crate::model::{initial_chain, ChainState, GatewayState, Metrics};

verus! {

/// Relies on `SystemTime::elapsed` of std, taken on the Unix epoch: whole
/// seconds since 1970-01-01 UTC, or none for a clock set before it. The value
/// depends on the machine's clock, so nothing is promised of it.
#[verifier::external_body]
pub(crate) fn unix_time_now() -> (r: Option<u64>) {
    match std::time::UNIX_EPOCH.elapsed() {
        Ok(d) => Some(d.as_secs()),
        Err(_) => None,
    }
}

impl GatewayState {
    /// A fresh document: both chains initializing, counters at zero.
    pub fn new(start_time: u64) -> (r: GatewayState)
        ensures
            r@.bitcoin == initial_chain(),
            r@.stacks == initial_chain(),
            r.metrics.total_requests == 0,
            r.metrics.verification_count == 0,
            r.start_time == start_time,
    {
        GatewayState {
            bitcoin: ChainState::initial(),
            stacks: ChainState::initial(),
            metrics: Metrics { total_requests: 0, verification_count: 0 },
            start_time,
        }
    }

    /// Counts one API request; the counter stops at `u64::MAX`.
    pub fn record_request(&mut self)
        ensures
            final(self).metrics.total_requests == if old(self).metrics.total_requests
                == u64::MAX {
                u64::MAX as int
            } else {
                old(self).metrics.total_requests + 1
            },
            final(self).metrics.verification_count == old(self).metrics.verification_count,
            final(self)@.bitcoin == old(self)@.bitcoin,
            final(self)@.stacks == old(self)@.stacks,
            final(self).start_time == old(self).start_time,
    {
        self.metrics.total_requests = self.metrics.total_requests.saturating_add(1);
    }

    /// Counts one verification request, which is also an API request; both
    /// counters stop at `u64::MAX`.
    pub fn record_verification(&mut self)
        ensures
            final(self).metrics.total_requests == if old(self).metrics.total_requests
                == u64::MAX {
                u64::MAX as int
            } else {
                old(self).metrics.total_requests + 1
            },
            final(self).metrics.verification_count == if old(
                self,
            ).metrics.verification_count == u64::MAX {
                u64::MAX as int
            } else {
                old(self).metrics.verification_count + 1
            },
            final(self)@.bitcoin == old(self)@.bitcoin,
            final(self)@.stacks == old(self)@.stacks,
            final(self).start_time == old(self).start_time,
    {
        self.record_request();
        self.metrics.verification_count = self.metrics.verification_count.saturating_add(1);
    }

    /// Seconds since the document was created, as seen at `now`; zero when
    /// `now` lies before the start.
    pub fn uptime_seconds(&self, now: u64) -> (r: u64)
        ensures
            r == if now >= self.start_time {
                now - self.start_time
            } else {
                0
            },
    {
        now.saturating_sub(self.start_time)
    }
}

impl Default for GatewayState {
    /// A fresh document that starts at the current time; a clock set before
    /// 1970 counts as time zero.
    fn default() -> (r: GatewayState)
        ensures
            r@.bitcoin == initial_chain(),
            r@.stacks == initial_chain(),
            r.metrics.total_requests == 0,
            r.metrics.verification_count == 0,
    {
        let start = match unix_time_now() {
            Some(t) => t,
            None => 0,
        };
        GatewayState::new(start)
    }
}

} // verus!
