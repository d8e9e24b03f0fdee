//! Query an output's attributes in the native NC1HWC2 layout.

use crate::query::QueryWithInput;
use crate::sys::{RknnTensorAttr, RKNN_QUERY_NATIVE_NC1HWC2_OUTPUT_ATTR};
use crate::tensor::{DataTypeKind, F32Bits, QuantTypeKind, TensorFormatKind};
use vstd::prelude::*;

verus! {

/// Query an output's attributes in the native NC1HWC2 layout.
#[derive(Debug, Clone, Copy)]
pub struct NativeNC1HWC2OutputAttr {
    pub inner: RknnTensorAttr,
}

impl QueryWithInput for NativeNC1HWC2OutputAttr {
    const QUERY_TYPE: u32 = RKNN_QUERY_NATIVE_NC1HWC2_OUTPUT_ATTR;

    type Output = RknnTensorAttr;

    open spec fn command() -> u32 {
        RKNN_QUERY_NATIVE_NC1HWC2_OUTPUT_ATTR
    }

    proof fn lemma_query_type() {
    }

    type Input = u32;

    open spec fn prepared(input: u32, output: RknnTensorAttr) -> RknnTensorAttr {
        output.with_index(input)
    }

    fn prepare(input: Self::Input, output: &mut Self::Output) {
        output.index = input;
    }
}

impl From<RknnTensorAttr> for NativeNC1HWC2OutputAttr {
    fn from(attr: RknnTensorAttr) -> (view: Self) {
        Self { inner: attr }
    }
}

impl vstd::std_specs::convert::FromSpecImpl<RknnTensorAttr> for NativeNC1HWC2OutputAttr {
    open spec fn obeys_from_spec() -> bool {
        true
    }

    open spec fn from_spec(attr: RknnTensorAttr) -> NativeNC1HWC2OutputAttr {
        NativeNC1HWC2OutputAttr { inner: attr }
    }
}

impl NativeNC1HWC2OutputAttr {
    /// Index of the output tensor.
    pub fn index(&self) -> (index: u32)
        ensures
            index == self.inner.index,
    {
        self.inner.index
    }

    /// Number of dimensions of the output tensor.
    pub fn num_dims(&self) -> (n: u32)
        ensures
            n == self.inner.n_dims,
    {
        self.inner.n_dims
    }

    /// Dimensions of the output tensor.
    pub fn dims(&self) -> (dims: &[u32])
        requires
            self.inner.dims_valid(),
        ensures
            dims@ == self.inner.spec_dims(),
    {
        self.inner.dims_in_use()
    }

    /// Name of the output tensor.
    pub fn name(&self) -> (name: String)
        ensures
            name@ == self.inner.spec_name(),
    {
        self.inner.name_text()
    }

    /// Number of elements in the output tensor.
    pub fn num_elements(&self) -> (n: u32)
        ensures
            n == self.inner.n_elems,
    {
        self.inner.n_elems
    }

    /// Size of the output tensor in bytes.
    pub fn size(&self) -> (size: u32)
        ensures
            size == self.inner.size,
    {
        self.inner.size
    }

    /// Format (Layout) of the output tensor.
    pub fn format(&self) -> (format: TensorFormatKind)
        ensures
            format == TensorFormatKind::of_tag(self.inner.fmt),
    {
        self.inner.fmt.into()
    }

    /// Data type of the output tensor.
    pub fn dtype(&self) -> (dtype: DataTypeKind)
        ensures
            dtype == DataTypeKind::of_tag(self.inner.type_),
    {
        self.inner.type_.into()
    }

    /// Quantization type of the output tensor.
    pub fn qnt_type(&self) -> (qnt_type: QuantTypeKind)
        ensures
            qnt_type == QuantTypeKind::of_tag(self.inner.qnt_type),
    {
        self.inner.qnt_type.into()
    }

    /// Fixed-point parameters of the output tensor.
    pub fn dfp_param(&self) -> (fl: i8)
        ensures
            fl == self.inner.fl,
    {
        self.inner.fl
    }

    /// Affine asymmetric parameters of the output tensor: the scale, as the
    /// bit pattern of a 32-bit float.
    pub fn affine_asymmetric_param(&self) -> (scale: F32Bits)
        ensures
            scale == F32Bits(self.inner.scale),
    {
        F32Bits(self.inner.scale)
    }

    pub fn w_stride(&self) -> (stride: u32)
        ensures
            stride == self.inner.w_stride,
    {
        self.inner.w_stride
    }

    pub fn size_with_stride(&self) -> (size: u32)
        ensures
            size == self.inner.size_with_stride,
    {
        self.inner.size_with_stride
    }
}

} // verus!
