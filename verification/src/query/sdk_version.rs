//! Sdk and driver version information.

use crate::query::Query;
use crate::sys::{RknnSdkVersion, RKNN_QUERY_SDK_VERSION};
use crate::text::{c_str, decode_lossy, until_nul, utf8_lossy};
use vstd::prelude::*;

verus! {

#[derive(Debug, Clone, Copy)]
pub struct SdkVersion {
    pub inner: RknnSdkVersion,
}

impl SdkVersion {
    /// The version of the runtime: the bytes before the first zero byte,
    /// decoded as UTF-8, lossily where they are not valid.
    pub fn api_version(&self) -> (version: String)
        ensures
            version@ == utf8_lossy(c_str(self.inner.api_version@)),
    {
        decode_lossy(until_nul(self.inner.api_version.as_slice()))
    }

    /// The version of the driver, decoded in the same way.
    pub fn driver_version(&self) -> (version: String)
        ensures
            version@ == utf8_lossy(c_str(self.inner.drv_version@)),
    {
        decode_lossy(until_nul(self.inner.drv_version.as_slice()))
    }
}

impl Query for SdkVersion {
    const QUERY_TYPE: u32 = RKNN_QUERY_SDK_VERSION;

    type Output = RknnSdkVersion;

    open spec fn command() -> u32 {
        RKNN_QUERY_SDK_VERSION
    }

    proof fn lemma_query_type() {
    }
}

impl From<RknnSdkVersion> for SdkVersion {
    fn from(value: RknnSdkVersion) -> (version: Self) {
        SdkVersion { inner: value }
    }
}

impl vstd::std_specs::convert::FromSpecImpl<RknnSdkVersion> for SdkVersion {
    open spec fn obeys_from_spec() -> bool {
        true
    }

    open spec fn from_spec(value: RknnSdkVersion) -> SdkVersion {
        SdkVersion { inner: value }
    }
}

} // verus!
