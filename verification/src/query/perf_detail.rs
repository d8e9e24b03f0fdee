//! Model inference performance details.

use crate::query::Query;
use crate::sys::{RknnPerfDetail, RKNN_QUERY_PERF_DETAIL};
use vstd::prelude::*;

verus! {

#[derive(Debug)]
pub struct PerfDetail {
    pub inner: RknnPerfDetail,
}

impl Query for PerfDetail {
    const QUERY_TYPE: u32 = RKNN_QUERY_PERF_DETAIL;

    type Output = RknnPerfDetail;

    open spec fn command() -> u32 {
        RKNN_QUERY_PERF_DETAIL
    }

    proof fn lemma_query_type() {
    }
}

impl From<RknnPerfDetail> for PerfDetail {
    fn from(inner: RknnPerfDetail) -> (detail: Self) {
        Self { inner }
    }
}

impl vstd::std_specs::convert::FromSpecImpl<RknnPerfDetail> for PerfDetail {
    open spec fn obeys_from_spec() -> bool {
        true
    }

    open spec fn from_spec(inner: RknnPerfDetail) -> PerfDetail {
        PerfDetail { inner }
    }
}

impl PerfDetail {
    /// The text of the report: empty where the runtime reports a length of
    /// zero or gave no text at all.
    pub open spec fn spec_details(&self) -> Seq<char> {
        if self.inner.data_len == 0 {
            Seq::<char>::empty()
        } else {
            match self.inner.perf_data {
                Some(text) => text@,
                None => Seq::<char>::empty(),
            }
        }
    }

    pub fn details(&self) -> (text: &str)
        ensures
            text@ == self.spec_details(),
    {
        proof {
            reveal_strlit("");
        }
        if self.inner.data_len == 0 {
            return "";
        }
        match &self.inner.perf_data {
            Some(text) => text.as_str(),
            None => "",
        }
    }
}

} // verus!
