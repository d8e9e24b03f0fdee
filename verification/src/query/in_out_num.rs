//! # of inputs and outputs in a model.

use crate::query::Query;
use crate::sys::{RknnInputOutputNum, RKNN_QUERY_IN_OUT_NUM};
use vstd::prelude::*;

verus! {

/// Query the number of inputs and outputs in a model.
#[derive(Debug, Clone, Copy, PartialEq, Eq, Structural)]
pub struct InputOutputNum {
    pub inner: RknnInputOutputNum,
}

impl InputOutputNum {
    /// Number of inputs in the model.
    pub fn input_num(&self) -> (n: u32)
        ensures
            n == self.inner.n_input,
    {
        self.inner.n_input
    }

    /// Number of outputs in the model.
    pub fn output_num(&self) -> (n: u32)
        ensures
            n == self.inner.n_output,
    {
        self.inner.n_output
    }
}

impl Query for InputOutputNum {
    const QUERY_TYPE: u32 = RKNN_QUERY_IN_OUT_NUM;

    type Output = RknnInputOutputNum;

    open spec fn command() -> u32 {
        RKNN_QUERY_IN_OUT_NUM
    }

    proof fn lemma_query_type() {
    }
}

impl From<RknnInputOutputNum> for InputOutputNum {
    fn from(value: RknnInputOutputNum) -> (num: Self) {
        InputOutputNum { inner: value }
    }
}

impl vstd::std_specs::convert::FromSpecImpl<RknnInputOutputNum> for InputOutputNum {
    open spec fn obeys_from_spec() -> bool {
        true
    }

    open spec fn from_spec(value: RknnInputOutputNum) -> InputOutputNum {
        InputOutputNum { inner: value }
    }
}

} // verus!
