//! Query types for the query associated function, and the views of what
//! the runtime answers.

use crate::sys::{RknnTensorAttr, RKNN_QUERY_INPUT_ATTR, RKNN_QUERY_OUTPUT_ATTR};
use crate::tensor::{DataTypeKind, F32Bits, QuantTypeKind, TensorFormatKind};
use crate::text::{c_str, decode_lossy, until_nul, utf8_lossy};
use vstd::prelude::*;
use vstd::slice::slice_subrange;

pub mod in_out_num;
pub mod input_attr;
pub mod native_input_attr;
pub mod native_nc1hwc2_input_attr;
pub mod native_nc1hwc2_output_attr;
pub mod native_nhwc_input_attr;
pub mod native_nhwc_output_attr;
pub mod native_output_attr;
pub mod output_attr;
pub mod perf_detail;
pub mod perf_run;
pub mod sdk_version;

pub use in_out_num::InputOutputNum;
pub use input_attr::InputAttr;
pub use native_input_attr::NativeInputAttr;
pub use native_nc1hwc2_input_attr::NativeNC1HWC2InputAttr;
pub use native_nc1hwc2_output_attr::NativeNC1HWC2OutputAttr;
pub use native_nhwc_input_attr::NativeNHWCInputAttr;
pub use native_nhwc_output_attr::NativeNHWCOutputAttr;
pub use native_output_attr::NativeOutputAttr;
pub use output_attr::OutputAttr;
pub use perf_detail::PerfDetail;
pub use perf_run::PerfRun;
pub use sdk_version::SdkVersion;

verus! {

/// A query without a parameter: the command that asks it, and the record
/// that the runtime fills as its answer. The answer is converted into the
/// query type, and only after the runtime has reported success.
pub trait Query: From<Self::Output> + Sized {
    const QUERY_TYPE: u32;

    type Output;

    /// The command that asks the query.
    spec fn command() -> u32;

    /// `QUERY_TYPE` is the command that asks the query.
    proof fn lemma_query_type()
        ensures
            Self::QUERY_TYPE == Self::command(),
    ;
}

/// A query with a parameter, which is written into the record before the
/// runtime is asked.
pub trait QueryWithInput: From<Self::Output> + Sized {
    const QUERY_TYPE: u32;

    type Output;

    type Input;

    /// The command that asks the query.
    spec fn command() -> u32;

    /// `QUERY_TYPE` is the command that asks the query.
    proof fn lemma_query_type()
        ensures
            Self::QUERY_TYPE == Self::command(),
    ;

    /// The record as it is handed to the runtime: `output` with the
    /// parameter `input` written into it.
    spec fn prepared(input: Self::Input, output: Self::Output) -> Self::Output;

    fn prepare(input: Self::Input, output: &mut Self::Output)
        ensures
            *final(output) == Self::prepared(input, *old(output)),
    ;
}

#[derive(Debug, Clone, Copy, PartialEq, Eq, Structural)]
pub enum Io {
    Input,
    Output,
}

impl Io {
    pub fn is_input(&self) -> (r: bool)
        ensures
            r == (*self == Io::Input),
    {
        matches!(self, Io::Input)
    }

    pub fn is_output(&self) -> (r: bool)
        ensures
            r == (*self == Io::Output),
    {
        matches!(self, Io::Output)
    }

    /// The command that asks for the attributes of an input or output of
    /// this direction.
    pub open spec fn spec_attr_query(self) -> u32 {
        match self {
            Io::Input => RKNN_QUERY_INPUT_ATTR,
            Io::Output => RKNN_QUERY_OUTPUT_ATTR,
        }
    }

    /// The command that asks for the attributes of an input or output of
    /// this direction, as they stand now. Memory is bound to a slot with the
    /// attributes that this command has just answered.
    pub fn attr_query(&self) -> (command: u32)
        ensures
            command == self.spec_attr_query(),
    {
        match self {
            Io::Input => RKNN_QUERY_INPUT_ATTR,
            Io::Output => RKNN_QUERY_OUTPUT_ATTR,
        }
    }

    /// The name of the direction.
    pub open spec fn text(self) -> Seq<char> {
        match self {
            Io::Input => "Input"@,
            Io::Output => "Output"@,
        }
    }

    /// Renders the direction as its name.
    pub fn to_string(&self) -> (text: String)
        ensures
            text@ == self.text(),
    {
        match self {
            Io::Input => String::from_str("Input"),
            Io::Output => String::from_str("Output"),
        }
    }
}

impl RknnTensorAttr {
    /// Whether the number of dimensions fits the array that holds them.
    pub open spec fn dims_valid(&self) -> bool {
        self.n_dims <= self.dims@.len()
    }

    /// What holds of every record that the runtime fills: the dimensions in
    /// use fit their array, and the size with stride padding is not below
    /// the size without.
    pub open spec fn wf(&self) -> bool {
        self.dims_valid() && self.size_with_stride >= self.size
    }

    /// The dimensions in use.
    pub open spec fn spec_dims(&self) -> Seq<u32> {
        self.dims@.take(self.n_dims as int)
    }

    /// The name: the bytes before the first zero byte, decoded as UTF-8,
    /// lossily where they are not valid.
    pub open spec fn spec_name(&self) -> Seq<char> {
        utf8_lossy(c_str(self.name@))
    }

    /// The record with `index` as the index asked for.
    pub open spec fn with_index(self, index: u32) -> RknnTensorAttr {
        RknnTensorAttr { index, ..self }
    }

    /// Tells whether the number of dimensions fits the array that holds
    /// them.
    pub fn has_valid_dims(&self) -> (r: bool)
        ensures
            r == self.dims_valid(),
    {
        self.n_dims as usize <= self.dims.len()
    }

    /// Tells whether the record is as the runtime fills it.
    pub fn is_wf(&self) -> (r: bool)
        ensures
            r == self.wf(),
    {
        self.has_valid_dims() && self.size_with_stride >= self.size
    }

    /// The dimensions in use.
    pub fn dims_in_use(&self) -> (dims: &[u32])
        requires
            self.dims_valid(),
        ensures
            dims@ == self.spec_dims(),
    {
        slice_subrange(self.dims.as_slice(), 0, self.n_dims as usize)
    }

    /// The name as text.
    pub fn name_text(&self) -> (name: String)
        ensures
            name@ == self.spec_name(),
    {
        decode_lossy(until_nul(self.name.as_slice()))
    }
}

/// Tensor attribute view trait
pub trait TensorAttrView {
    /// The record that is viewed.
    spec fn attr(&self) -> RknnTensorAttr;

    /// The direction of the tensor.
    spec fn spec_io(&self) -> Io;

    fn io(&self) -> (io: Io)
        ensures
            io == self.spec_io(),
    ;

    /// Tensor index
    fn index(&self) -> (index: u32)
        ensures
            index == self.attr().index,
    ;

    /// Tensor name
    fn name(&self) -> (name: String)
        ensures
            name@ == self.attr().spec_name(),
    ;

    /// Tensor data type
    fn dtype(&self) -> (dtype: DataTypeKind)
        ensures
            dtype == DataTypeKind::of_tag(self.attr().type_),
    ;

    /// Number of dimensions
    fn num_dims(&self) -> (n: u32)
        ensures
            n == self.attr().n_dims,
    ;

    /// Tensor dimensions
    fn dims(&self) -> (dims: &[u32])
        requires
            self.attr().dims_valid(),
        ensures
            dims@ == self.attr().spec_dims(),
    ;

    /// Tensor format
    fn format(&self) -> (format: TensorFormatKind)
        ensures
            format == TensorFormatKind::of_tag(self.attr().fmt),
    ;

    /// Quantization type
    fn qnt_type(&self) -> (qnt_type: QuantTypeKind)
        ensures
            qnt_type == QuantTypeKind::of_tag(self.attr().qnt_type),
    ;

    /// Number of elements
    fn num_elements(&self) -> (n: u32)
        ensures
            n == self.attr().n_elems,
    ;

    /// Scale factor, as the bit pattern of a 32-bit float
    fn scale(&self) -> (scale: F32Bits)
        ensures
            scale == F32Bits(self.attr().scale),
    ;

    /// Zero point
    fn zero_point(&self) -> (zp: i32)
        ensures
            zp == self.attr().zp,
    ;

    /// Fractional length
    fn fl(&self) -> (fl: i8)
        ensures
            fl == self.attr().fl,
    ;

    /// pixels per row (width + padding), unit: pixel
    fn w_stride(&self) -> (stride: u32)
        ensures
            stride == self.attr().w_stride,
    ;

    /// rows per image (height + padding), unit: pixel; 0 => same as H
    fn h_stride(&self) -> (stride: u32)
        ensures
            stride == self.attr().h_stride,
    ;

    /// Size in bytes
    fn size(&self) -> (size: u32)
        ensures
            size == self.attr().size,
    ;

    /// Size in bytes, stride padding included
    fn size_with_stride(&self) -> (size: u32)
        ensures
            size == self.attr().size_with_stride,
    ;
}

} // verus!
