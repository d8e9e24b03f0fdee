//! Model inference duration.

use crate::query::Query;
use crate::sys::{RknnPerfRun, RKNN_QUERY_PERF_RUN};
use vstd::prelude::*;

verus! {

#[derive(Debug, Clone, Copy, PartialEq, Eq, Structural)]
pub struct PerfRun {
    pub inner: RknnPerfRun,
}

impl Query for PerfRun {
    const QUERY_TYPE: u32 = RKNN_QUERY_PERF_RUN;

    type Output = RknnPerfRun;

    open spec fn command() -> u32 {
        RKNN_QUERY_PERF_RUN
    }

    proof fn lemma_query_type() {
    }
}

impl From<RknnPerfRun> for PerfRun {
    fn from(value: RknnPerfRun) -> (run: Self) {
        PerfRun { inner: value }
    }
}

impl vstd::std_specs::convert::FromSpecImpl<RknnPerfRun> for PerfRun {
    open spec fn obeys_from_spec() -> bool {
        true
    }

    open spec fn from_spec(value: RknnPerfRun) -> PerfRun {
        PerfRun { inner: value }
    }
}

impl PerfRun {
    pub fn run_duration(&self) -> (duration: i64)
        ensures
            duration == self.inner.run_duration,
    {
        self.inner.run_duration
    }
}

} // verus!
