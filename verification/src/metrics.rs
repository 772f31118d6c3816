use vstd::prelude::*;
use crate::{Offset, OFFSET_UNKNOWN};

verus! {

/// Operational counters and gauges kept by the mirror controller.
///
/// `loop_count`, `connect_count` and `connect_failure` wrap on overflow, as
/// hardware counters do.  `home_leo` is a gauge holding the last log-end
/// offset the home cluster reported, or `OFFSET_UNKNOWN` before the first
/// report of a process lifetime.
#[derive(Debug)]
pub struct MirrorControllerMetrics {
    pub loop_count: u64,
    pub connect_count: u64,
    pub connect_failure: u64,
    pub home_leo: Offset,
}

impl MirrorControllerMetrics {
    /// The gauge never leaves the set of valid offset slots.
    pub open spec fn wf(&self) -> bool {
        crate::valid_offset_slot(self.home_leo)
    }

    /// The same metrics with one more connect event counted.
    pub open spec fn spec_bump_conn(&self) -> MirrorControllerMetrics {
        MirrorControllerMetrics {
            connect_count: vstd::wrapping::u64_specs::wrapping_add(self.connect_count, 1),
            ..*self
        }
    }

    pub fn update_home_leo(&mut self, leo: Offset)
        requires
            leo >= 0,
        ensures
            final(self).home_leo == leo,
            final(self).loop_count == old(self).loop_count,
            final(self).connect_count == old(self).connect_count,
            final(self).connect_failure == old(self).connect_failure,
            final(self).wf(),
    {
        self.home_leo = leo;
    }

    pub fn get_home_leo(&self) -> (r: Offset)
        ensures
            r == self.home_leo,
    {
        self.home_leo
    }

    pub fn increase_loop_count(&mut self)
        ensures
            final(self).loop_count == vstd::wrapping::u64_specs::wrapping_add(
                old(self).loop_count,
                1,
            ),
            old(self).loop_count < u64::MAX ==> final(self).loop_count == old(self).loop_count + 1,
            final(self).connect_count == old(self).connect_count,
            final(self).connect_failure == old(self).connect_failure,
            final(self).home_leo == old(self).home_leo,
    {
        self.loop_count = self.loop_count.wrapping_add(1);
    }

    pub fn get_loop_count(&self) -> (r: u64)
        ensures
            r == self.loop_count,
    {
        self.loop_count
    }

    pub fn increase_conn_count(&mut self)
        ensures
            final(self).connect_count == vstd::wrapping::u64_specs::wrapping_add(
                old(self).connect_count,
                1,
            ),
            old(self).connect_count < u64::MAX ==> final(self).connect_count == old(self).connect_count + 1,
            final(self).loop_count == old(self).loop_count,
            final(self).connect_failure == old(self).connect_failure,
            final(self).home_leo == old(self).home_leo,
    {
        self.connect_count = self.connect_count.wrapping_add(1);
    }

    pub fn get_conn_count(&self) -> (r: u64)
        ensures
            r == self.connect_count,
    {
        self.connect_count
    }

    pub fn increase_conn_failure(&mut self)
        ensures
            final(self).connect_failure == vstd::wrapping::u64_specs::wrapping_add(
                old(self).connect_failure,
                1,
            ),
            old(self).connect_failure < u64::MAX ==> final(self).connect_failure == old(self).connect_failure + 1,
            final(self).loop_count == old(self).loop_count,
            final(self).connect_count == old(self).connect_count,
            final(self).home_leo == old(self).home_leo,
    {
        self.connect_failure = self.connect_failure.wrapping_add(1);
    }

    pub fn get_conn_failure(&self) -> (r: u64)
        ensures
            r == self.connect_failure,
    {
        self.connect_failure
    }
}

/// State of one mirror controller, observable by operators while the
/// controller runs.
#[derive(Debug)]
pub struct MirrorControllerState {
    pub metrics: MirrorControllerMetrics,
}

impl MirrorControllerState {
    pub open spec fn wf(&self) -> bool {
        self.metrics.wf()
    }

    /// All counters start at zero; the home offset starts unknown.
    pub fn new() -> (r: Self)
        ensures
            r.metrics.loop_count == 0,
            r.metrics.connect_count == 0,
            r.metrics.connect_failure == 0,
            r.metrics.home_leo == OFFSET_UNKNOWN,
            r.wf(),
    {
        Self {
            metrics: MirrorControllerMetrics {
                loop_count: 0,
                home_leo: OFFSET_UNKNOWN,
                connect_count: 0,
                connect_failure: 0,
            },
        }
    }

    pub fn get_metrics(&self) -> (r: &MirrorControllerMetrics)
        ensures
            r == self.metrics,
    {
        &self.metrics
    }

    pub fn metrics_mut(&mut self) -> (r: &mut MirrorControllerMetrics)
        ensures
            *r == old(self).metrics,
            final(self).metrics == *final(r),
    {
        &mut self.metrics
    }
}

} // verus!
