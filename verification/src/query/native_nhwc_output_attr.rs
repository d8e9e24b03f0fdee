//! Query an output's attributes in the native NHWC layout.

use crate::query::{Io, QueryWithInput, TensorAttrView};
use crate::sys::{RknnTensorAttr, RKNN_QUERY_NATIVE_NHWC_OUTPUT_ATTR};
use crate::tensor::{DataTypeKind, F32Bits, QuantTypeKind, TensorFormatKind};
use vstd::prelude::*;

verus! {

/// Query an output's attributes in the native NHWC layout.
#[derive(Debug, Clone, Copy)]
pub struct NativeNHWCOutputAttr {
    pub inner: RknnTensorAttr,
}

impl QueryWithInput for NativeNHWCOutputAttr {
    const QUERY_TYPE: u32 = RKNN_QUERY_NATIVE_NHWC_OUTPUT_ATTR;

    type Output = RknnTensorAttr;

    open spec fn command() -> u32 {
        RKNN_QUERY_NATIVE_NHWC_OUTPUT_ATTR
    }

    proof fn lemma_query_type() {
    }

    type Input = u32;

    open spec fn prepared(input: u32, output: RknnTensorAttr) -> RknnTensorAttr {
        output.with_index(input)
    }

    fn prepare(input: Self::Input, output: &mut Self::Output) {
        output.index = input;
    }
}

impl From<RknnTensorAttr> for NativeNHWCOutputAttr {
    fn from(attr: RknnTensorAttr) -> (view: Self) {
        Self { inner: attr }
    }
}

impl vstd::std_specs::convert::FromSpecImpl<RknnTensorAttr> for NativeNHWCOutputAttr {
    open spec fn obeys_from_spec() -> bool {
        true
    }

    open spec fn from_spec(attr: RknnTensorAttr) -> NativeNHWCOutputAttr {
        NativeNHWCOutputAttr { inner: attr }
    }
}

impl TensorAttrView for NativeNHWCOutputAttr {
    open spec fn attr(&self) -> RknnTensorAttr {
        self.inner
    }

    open spec fn spec_io(&self) -> Io {
        Io::Output
    }

    fn io(&self) -> (io: Io) {
        Io::Output
    }

    fn index(&self) -> (index: u32) {
        self.inner.index
    }

    fn num_dims(&self) -> (n: u32) {
        self.inner.n_dims
    }

    fn dims(&self) -> (dims: &[u32]) {
        self.inner.dims_in_use()
    }

    fn name(&self) -> (name: String) {
        self.inner.name_text()
    }

    fn num_elements(&self) -> (n: u32) {
        self.inner.n_elems
    }

    fn size(&self) -> (size: u32) {
        self.inner.size
    }

    fn format(&self) -> (format: TensorFormatKind) {
        self.inner.fmt.into()
    }

    fn dtype(&self) -> (dtype: DataTypeKind) {
        self.inner.type_.into()
    }

    fn qnt_type(&self) -> (qnt_type: QuantTypeKind) {
        self.inner.qnt_type.into()
    }

    fn fl(&self) -> (fl: i8) {
        self.inner.fl
    }

    fn scale(&self) -> (scale: F32Bits) {
        F32Bits(self.inner.scale)
    }

    fn zero_point(&self) -> (zp: i32) {
        self.inner.zp
    }

    fn h_stride(&self) -> (stride: u32) {
        self.inner.h_stride
    }

    fn w_stride(&self) -> (stride: u32) {
        self.inner.w_stride
    }

    fn size_with_stride(&self) -> (size: u32) {
        self.inner.size_with_stride
    }
}

} // verus!
