//! Tensor types, tensors, and utilities

use crate::sys::{
    RKNN_TENSOR_BFLOAT16, RKNN_TENSOR_BOOL, RKNN_TENSOR_FLOAT16, RKNN_TENSOR_FLOAT32,
    RKNN_TENSOR_FORMAT_MAX, RKNN_TENSOR_INT16, RKNN_TENSOR_INT32, RKNN_TENSOR_INT4,
    RKNN_TENSOR_INT64, RKNN_TENSOR_INT8, RKNN_TENSOR_NC1HWC2, RKNN_TENSOR_NCHW, RKNN_TENSOR_NHWC,
    RKNN_TENSOR_QNT_AFFINE_ASYMMETRIC, RKNN_TENSOR_QNT_DFP, RKNN_TENSOR_QNT_NONE,
    RKNN_TENSOR_TYPE_MAX, RKNN_TENSOR_UINT16, RKNN_TENSOR_UINT32, RKNN_TENSOR_UINT8,
    RKNN_TENSOR_UNDEFINED,
};
use crate::sys::{RknnInput, RknnOutput};
use crate::tensor::tensor::Tensor;
use vstd::prelude::*;

pub mod builder;
pub mod tensor;

verus! {

/// The tags of the tensor formats.
#[derive(Debug)]
pub struct TensorFormat;

impl TensorFormat {
    pub const NCHW: u32 = RKNN_TENSOR_NCHW;

    pub const NHWC: u32 = RKNN_TENSOR_NHWC;

    pub const NC1HWC2: u32 = RKNN_TENSOR_NC1HWC2;

    pub const UNDEFINED: u32 = RKNN_TENSOR_UNDEFINED;

    pub const MAX: u32 = RKNN_TENSOR_FORMAT_MAX;
}

/// A tensor format, decoded from its tag. Every variant carries the tag it
/// was decoded from.
#[derive(Debug, PartialEq, Eq, Clone, Copy, Structural)]
pub enum TensorFormatKind {
    NCHW(u32),
    NHWC(u32),
    NC1HWC2(u32),
    UNDEFINED(u32),
    Max(u32),
    Other(u32),
}

impl TensorFormatKind {
    /// The format that a tag stands for.
    pub open spec fn of_tag(format: u32) -> TensorFormatKind {
        if format == RKNN_TENSOR_NCHW {
            TensorFormatKind::NCHW(format)
        } else if format == RKNN_TENSOR_NHWC {
            TensorFormatKind::NHWC(format)
        } else if format == RKNN_TENSOR_NC1HWC2 {
            TensorFormatKind::NC1HWC2(format)
        } else if format == RKNN_TENSOR_UNDEFINED {
            TensorFormatKind::UNDEFINED(format)
        } else if format == RKNN_TENSOR_FORMAT_MAX {
            TensorFormatKind::Max(format)
        } else {
            TensorFormatKind::Other(format)
        }
    }

    /// The tag of a format: that of the variant, whatever it carries, and for
    /// an unknown format the tag carried.
    pub open spec fn tag(self) -> u32 {
        match self {
            TensorFormatKind::NCHW(_) => RKNN_TENSOR_NCHW,
            TensorFormatKind::NHWC(_) => RKNN_TENSOR_NHWC,
            TensorFormatKind::NC1HWC2(_) => RKNN_TENSOR_NC1HWC2,
            TensorFormatKind::UNDEFINED(_) => RKNN_TENSOR_UNDEFINED,
            TensorFormatKind::Max(_) => RKNN_TENSOR_FORMAT_MAX,
            TensorFormatKind::Other(a) => a,
        }
    }

    /// Decoding a tag and taking the tag of the result gives the tag back.
    pub proof fn lemma_tag_round_trip(format: u32)
        ensures
            TensorFormatKind::of_tag(format).tag() == format,
    {
    }
}

impl From<u32> for TensorFormatKind {
    fn from(format: u32) -> (kind: Self) {
        if format == RKNN_TENSOR_NCHW {
            TensorFormatKind::NCHW(format)
        } else if format == RKNN_TENSOR_NHWC {
            TensorFormatKind::NHWC(format)
        } else if format == RKNN_TENSOR_NC1HWC2 {
            TensorFormatKind::NC1HWC2(format)
        } else if format == RKNN_TENSOR_UNDEFINED {
            TensorFormatKind::UNDEFINED(format)
        } else if format == RKNN_TENSOR_FORMAT_MAX {
            TensorFormatKind::Max(format)
        } else {
            TensorFormatKind::Other(format)
        }
    }
}

impl vstd::std_specs::convert::FromSpecImpl<u32> for TensorFormatKind {
    open spec fn obeys_from_spec() -> bool {
        true
    }

    open spec fn from_spec(format: u32) -> TensorFormatKind {
        TensorFormatKind::of_tag(format)
    }
}

impl From<TensorFormatKind> for u32 {
    fn from(format: TensorFormatKind) -> (tag: Self) {
        match format {
            TensorFormatKind::NCHW(_) => RKNN_TENSOR_NCHW,
            TensorFormatKind::NHWC(_) => RKNN_TENSOR_NHWC,
            TensorFormatKind::NC1HWC2(_) => RKNN_TENSOR_NC1HWC2,
            TensorFormatKind::UNDEFINED(_) => RKNN_TENSOR_UNDEFINED,
            TensorFormatKind::Max(_) => RKNN_TENSOR_FORMAT_MAX,
            TensorFormatKind::Other(a) => a,
        }
    }
}

impl vstd::std_specs::convert::FromSpecImpl<TensorFormatKind> for u32 {
    open spec fn obeys_from_spec() -> bool {
        true
    }

    open spec fn from_spec(format: TensorFormatKind) -> u32 {
        format.tag()
    }
}

/// The tags of the element types.
pub struct DataType;

impl DataType {
    pub const FLOAT32: u32 = RKNN_TENSOR_FLOAT32;

    pub const FLOAT16: u32 = RKNN_TENSOR_FLOAT16;

    pub const BFLOAT16: u32 = RKNN_TENSOR_BFLOAT16;

    pub const INT4: u32 = RKNN_TENSOR_INT4;

    pub const INT8: u32 = RKNN_TENSOR_INT8;

    pub const UINT8: u32 = RKNN_TENSOR_UINT8;

    pub const INT16: u32 = RKNN_TENSOR_INT16;

    pub const UINT16: u32 = RKNN_TENSOR_UINT16;

    pub const INT32: u32 = RKNN_TENSOR_INT32;

    pub const UINT32: u32 = RKNN_TENSOR_UINT32;

    pub const INT64: u32 = RKNN_TENSOR_INT64;

    pub const BOOL: u32 = RKNN_TENSOR_BOOL;

    pub const MAX: u32 = RKNN_TENSOR_TYPE_MAX;
}

/// An element type, decoded from its tag.
#[derive(Debug, PartialEq, Eq, Clone, Copy, Structural)]
pub enum DataTypeKind {
    Float32(u32),
    Float16(u32),
    BFloat16(u32),
    Int4(u32),
    Int8(u32),
    UInt8(u32),
    Int16(u32),
    UInt16(u32),
    Int32(u32),
    UInt32(u32),
    Int64(u32),
    Bool(u32),
    Max(u32),
    Other(u32),
}

impl DataTypeKind {
    /// The element type that a tag stands for.
    pub open spec fn of_tag(data_type: u32) -> DataTypeKind {
        if data_type == RKNN_TENSOR_FLOAT32 {
            DataTypeKind::Float32(RKNN_TENSOR_FLOAT32)
        } else if data_type == RKNN_TENSOR_FLOAT16 {
            DataTypeKind::Float16(RKNN_TENSOR_FLOAT16)
        } else if data_type == RKNN_TENSOR_BFLOAT16 {
            DataTypeKind::BFloat16(RKNN_TENSOR_BFLOAT16)
        } else if data_type == RKNN_TENSOR_INT4 {
            DataTypeKind::Int4(RKNN_TENSOR_INT4)
        } else if data_type == RKNN_TENSOR_INT8 {
            DataTypeKind::Int8(RKNN_TENSOR_INT8)
        } else if data_type == RKNN_TENSOR_UINT8 {
            DataTypeKind::UInt8(RKNN_TENSOR_UINT8)
        } else if data_type == RKNN_TENSOR_INT16 {
            DataTypeKind::Int16(RKNN_TENSOR_INT16)
        } else if data_type == RKNN_TENSOR_UINT16 {
            DataTypeKind::UInt16(RKNN_TENSOR_UINT16)
        } else if data_type == RKNN_TENSOR_INT32 {
            DataTypeKind::Int32(RKNN_TENSOR_INT32)
        } else if data_type == RKNN_TENSOR_UINT32 {
            DataTypeKind::UInt32(RKNN_TENSOR_UINT32)
        } else if data_type == RKNN_TENSOR_INT64 {
            DataTypeKind::Int64(RKNN_TENSOR_INT64)
        } else if data_type == RKNN_TENSOR_BOOL {
            DataTypeKind::Bool(RKNN_TENSOR_BOOL)
        } else if data_type == RKNN_TENSOR_TYPE_MAX {
            DataTypeKind::Max(RKNN_TENSOR_TYPE_MAX)
        } else {
            DataTypeKind::Other(data_type)
        }
    }

    /// The tag of an element type: that of the variant, whatever it carries,
    /// and for an unknown type the tag carried.
    pub open spec fn tag(self) -> u32 {
        match self {
            DataTypeKind::Float32(_) => RKNN_TENSOR_FLOAT32,
            DataTypeKind::Float16(_) => RKNN_TENSOR_FLOAT16,
            DataTypeKind::BFloat16(_) => RKNN_TENSOR_BFLOAT16,
            DataTypeKind::Int4(_) => RKNN_TENSOR_INT4,
            DataTypeKind::Int8(_) => RKNN_TENSOR_INT8,
            DataTypeKind::UInt8(_) => RKNN_TENSOR_UINT8,
            DataTypeKind::Int16(_) => RKNN_TENSOR_INT16,
            DataTypeKind::UInt16(_) => RKNN_TENSOR_UINT16,
            DataTypeKind::Int32(_) => RKNN_TENSOR_INT32,
            DataTypeKind::UInt32(_) => RKNN_TENSOR_UINT32,
            DataTypeKind::Int64(_) => RKNN_TENSOR_INT64,
            DataTypeKind::Bool(_) => RKNN_TENSOR_BOOL,
            DataTypeKind::Max(_) => RKNN_TENSOR_TYPE_MAX,
            DataTypeKind::Other(a) => a,
        }
    }

    /// Decoding a tag and taking the tag of the result gives the tag back.
    pub proof fn lemma_tag_round_trip(data_type: u32)
        ensures
            DataTypeKind::of_tag(data_type).tag() == data_type,
    {
    }
}

impl From<u32> for DataTypeKind {
    fn from(data_type: u32) -> (kind: Self) {
        if data_type == RKNN_TENSOR_FLOAT32 {
            DataTypeKind::Float32(RKNN_TENSOR_FLOAT32)
        } else if data_type == RKNN_TENSOR_FLOAT16 {
            DataTypeKind::Float16(RKNN_TENSOR_FLOAT16)
        } else if data_type == RKNN_TENSOR_BFLOAT16 {
            DataTypeKind::BFloat16(RKNN_TENSOR_BFLOAT16)
        } else if data_type == RKNN_TENSOR_INT4 {
            DataTypeKind::Int4(RKNN_TENSOR_INT4)
        } else if data_type == RKNN_TENSOR_INT8 {
            DataTypeKind::Int8(RKNN_TENSOR_INT8)
        } else if data_type == RKNN_TENSOR_UINT8 {
            DataTypeKind::UInt8(RKNN_TENSOR_UINT8)
        } else if data_type == RKNN_TENSOR_INT16 {
            DataTypeKind::Int16(RKNN_TENSOR_INT16)
        } else if data_type == RKNN_TENSOR_UINT16 {
            DataTypeKind::UInt16(RKNN_TENSOR_UINT16)
        } else if data_type == RKNN_TENSOR_INT32 {
            DataTypeKind::Int32(RKNN_TENSOR_INT32)
        } else if data_type == RKNN_TENSOR_UINT32 {
            DataTypeKind::UInt32(RKNN_TENSOR_UINT32)
        } else if data_type == RKNN_TENSOR_INT64 {
            DataTypeKind::Int64(RKNN_TENSOR_INT64)
        } else if data_type == RKNN_TENSOR_BOOL {
            DataTypeKind::Bool(RKNN_TENSOR_BOOL)
        } else if data_type == RKNN_TENSOR_TYPE_MAX {
            DataTypeKind::Max(RKNN_TENSOR_TYPE_MAX)
        } else {
            DataTypeKind::Other(data_type)
        }
    }
}

impl vstd::std_specs::convert::FromSpecImpl<u32> for DataTypeKind {
    open spec fn obeys_from_spec() -> bool {
        true
    }

    open spec fn from_spec(data_type: u32) -> DataTypeKind {
        DataTypeKind::of_tag(data_type)
    }
}

impl From<DataTypeKind> for u32 {
    fn from(data_type: DataTypeKind) -> (tag: Self) {
        match data_type {
            DataTypeKind::Float32(_) => RKNN_TENSOR_FLOAT32,
            DataTypeKind::Float16(_) => RKNN_TENSOR_FLOAT16,
            DataTypeKind::BFloat16(_) => RKNN_TENSOR_BFLOAT16,
            DataTypeKind::Int4(_) => RKNN_TENSOR_INT4,
            DataTypeKind::Int8(_) => RKNN_TENSOR_INT8,
            DataTypeKind::UInt8(_) => RKNN_TENSOR_UINT8,
            DataTypeKind::Int16(_) => RKNN_TENSOR_INT16,
            DataTypeKind::UInt16(_) => RKNN_TENSOR_UINT16,
            DataTypeKind::Int32(_) => RKNN_TENSOR_INT32,
            DataTypeKind::UInt32(_) => RKNN_TENSOR_UINT32,
            DataTypeKind::Int64(_) => RKNN_TENSOR_INT64,
            DataTypeKind::Bool(_) => RKNN_TENSOR_BOOL,
            DataTypeKind::Max(_) => RKNN_TENSOR_TYPE_MAX,
            DataTypeKind::Other(a) => a,
        }
    }
}

impl vstd::std_specs::convert::FromSpecImpl<DataTypeKind> for u32 {
    open spec fn obeys_from_spec() -> bool {
        true
    }

    open spec fn from_spec(data_type: DataTypeKind) -> u32 {
        data_type.tag()
    }
}

/// The tags of the quantization kinds.
#[derive(Debug)]
pub struct QuantType;

impl QuantType {
    pub const QNT_NONE: u32 = RKNN_TENSOR_QNT_NONE;

    pub const QNT_DFP: u32 = RKNN_TENSOR_QNT_DFP;

    pub const QNT_AFFINE_ASYMMETRIC: u32 = RKNN_TENSOR_QNT_AFFINE_ASYMMETRIC;
}

/// A quantization kind, decoded from its tag.
#[derive(Debug, Clone, Copy, PartialEq, Eq, Structural)]
pub enum QuantTypeKind {
    QntNone(u32),
    Dfp(u32),
    AffineAsymmetric(u32),
    Other(u32),
}

impl QuantTypeKind {
    /// The quantization kind that a tag stands for.
    pub open spec fn of_tag(quant_type: u32) -> QuantTypeKind {
        if quant_type == RKNN_TENSOR_QNT_NONE {
            QuantTypeKind::QntNone(RKNN_TENSOR_QNT_NONE)
        } else if quant_type == RKNN_TENSOR_QNT_DFP {
            QuantTypeKind::Dfp(RKNN_TENSOR_QNT_DFP)
        } else if quant_type == RKNN_TENSOR_QNT_AFFINE_ASYMMETRIC {
            QuantTypeKind::AffineAsymmetric(RKNN_TENSOR_QNT_AFFINE_ASYMMETRIC)
        } else {
            QuantTypeKind::Other(quant_type)
        }
    }

    /// The tag of a quantization kind: that of the variant, whatever it
    /// carries, and for an unknown kind the tag carried.
    pub open spec fn tag(self) -> u32 {
        match self {
            QuantTypeKind::QntNone(_) => RKNN_TENSOR_QNT_NONE,
            QuantTypeKind::Dfp(_) => RKNN_TENSOR_QNT_DFP,
            QuantTypeKind::AffineAsymmetric(_) => RKNN_TENSOR_QNT_AFFINE_ASYMMETRIC,
            QuantTypeKind::Other(a) => a,
        }
    }

    /// Decoding a tag and taking the tag of the result gives the tag back.
    pub proof fn lemma_tag_round_trip(quant_type: u32)
        ensures
            QuantTypeKind::of_tag(quant_type).tag() == quant_type,
    {
    }
}

impl From<QuantTypeKind> for u32 {
    fn from(quant_type: QuantTypeKind) -> (tag: Self) {
        match quant_type {
            QuantTypeKind::QntNone(_) => RKNN_TENSOR_QNT_NONE,
            QuantTypeKind::Dfp(_) => RKNN_TENSOR_QNT_DFP,
            QuantTypeKind::AffineAsymmetric(_) => RKNN_TENSOR_QNT_AFFINE_ASYMMETRIC,
            QuantTypeKind::Other(a) => a,
        }
    }
}

impl vstd::std_specs::convert::FromSpecImpl<QuantTypeKind> for u32 {
    open spec fn obeys_from_spec() -> bool {
        true
    }

    open spec fn from_spec(quant_type: QuantTypeKind) -> u32 {
        quant_type.tag()
    }
}

impl From<u32> for QuantTypeKind {
    fn from(quant_type: u32) -> (kind: Self) {
        if quant_type == RKNN_TENSOR_QNT_NONE {
            QuantTypeKind::QntNone(RKNN_TENSOR_QNT_NONE)
        } else if quant_type == RKNN_TENSOR_QNT_DFP {
            QuantTypeKind::Dfp(RKNN_TENSOR_QNT_DFP)
        } else if quant_type == RKNN_TENSOR_QNT_AFFINE_ASYMMETRIC {
            QuantTypeKind::AffineAsymmetric(RKNN_TENSOR_QNT_AFFINE_ASYMMETRIC)
        } else {
            QuantTypeKind::Other(quant_type)
        }
    }
}

impl vstd::std_specs::convert::FromSpecImpl<u32> for QuantTypeKind {
    open spec fn obeys_from_spec() -> bool {
        true
    }

    open spec fn from_spec(quant_type: u32) -> QuantTypeKind {
        QuantTypeKind::of_tag(quant_type)
    }
}

/// A 32-bit float, held as its bit pattern.
#[derive(Debug, Clone, Copy, PartialEq, Eq, Structural)]
pub struct F32Bits(pub u32);

/// A 16-bit float, held as its bit pattern.
#[derive(Debug, Clone, Copy, PartialEq, Eq, Structural)]
pub struct F16Bits(pub u16);

/// A 16-bit brain float, held as its bit pattern.
#[derive(Debug, Clone, Copy, PartialEq, Eq, Structural)]
pub struct BF16Bits(pub u16);

impl Default for F32Bits {
    fn default() -> (zero: Self)
        ensures
            zero == F32Bits(0),
    {
        F32Bits(0)
    }
}

impl Default for F16Bits {
    fn default() -> (zero: Self)
        ensures
            zero == F16Bits(0),
    {
        F16Bits(0)
    }
}

impl Default for BF16Bits {
    fn default() -> (zero: Self)
        ensures
            zero == BF16Bits(0),
    {
        BF16Bits(0)
    }
}

/// The types that a tensor's elements can have, each with its tag.
pub trait TensorType: Sized + Default {
    const TYPE: u32;

    /// The tag of the element type.
    spec fn tag() -> u32;

    /// `TYPE` is the tag of the element type.
    proof fn lemma_type()
        ensures
            Self::TYPE == Self::tag(),
    ;
}

impl TensorType for F32Bits {
    const TYPE: u32 = RKNN_TENSOR_FLOAT32;

    open spec fn tag() -> u32 {
        RKNN_TENSOR_FLOAT32
    }

    proof fn lemma_type() {
    }
}

impl TensorType for F16Bits {
    const TYPE: u32 = RKNN_TENSOR_FLOAT16;

    open spec fn tag() -> u32 {
        RKNN_TENSOR_FLOAT16
    }

    proof fn lemma_type() {
    }
}

impl TensorType for BF16Bits {
    const TYPE: u32 = RKNN_TENSOR_BFLOAT16;

    open spec fn tag() -> u32 {
        RKNN_TENSOR_BFLOAT16
    }

    proof fn lemma_type() {
    }
}

impl TensorType for u8 {
    const TYPE: u32 = RKNN_TENSOR_UINT8;

    open spec fn tag() -> u32 {
        RKNN_TENSOR_UINT8
    }

    proof fn lemma_type() {
    }
}

impl TensorType for i8 {
    const TYPE: u32 = RKNN_TENSOR_INT8;

    open spec fn tag() -> u32 {
        RKNN_TENSOR_INT8
    }

    proof fn lemma_type() {
    }
}

impl TensorType for i32 {
    const TYPE: u32 = RKNN_TENSOR_INT32;

    open spec fn tag() -> u32 {
        RKNN_TENSOR_INT32
    }

    proof fn lemma_type() {
    }
}

impl TensorType for u32 {
    const TYPE: u32 = RKNN_TENSOR_UINT32;

    open spec fn tag() -> u32 {
        RKNN_TENSOR_UINT32
    }

    proof fn lemma_type() {
    }
}

impl TensorType for i16 {
    const TYPE: u32 = RKNN_TENSOR_INT16;

    open spec fn tag() -> u32 {
        RKNN_TENSOR_INT16
    }

    proof fn lemma_type() {
    }
}

impl TensorType for u16 {
    const TYPE: u32 = RKNN_TENSOR_UINT16;

    open spec fn tag() -> u32 {
        RKNN_TENSOR_UINT16
    }

    proof fn lemma_type() {
    }
}

impl TensorType for i64 {
    const TYPE: u32 = RKNN_TENSOR_INT64;

    open spec fn tag() -> u32 {
        RKNN_TENSOR_INT64
    }

    proof fn lemma_type() {
    }
}

/// A tensor of any of the element types.
#[derive(Debug)]
pub enum TensorT {
    Float32(Tensor<F32Bits>),
    Float16(Tensor<F16Bits>),
    BFloat16(Tensor<BF16Bits>),
    UInt8(Tensor<u8>),
    Int8(Tensor<i8>),
    Int32(Tensor<i32>),
    UInt32(Tensor<u32>),
    Int16(Tensor<i16>),
    UInt16(Tensor<u16>),
    Int64(Tensor<i64>),
}

impl TensorT {
    /// The native input descriptor of the tensor held.
    pub open spec fn sys_input(&self) -> RknnInput {
        match self {
            TensorT::Float32(tensor) => tensor.sys_input(),
            TensorT::Float16(tensor) => tensor.sys_input(),
            TensorT::BFloat16(tensor) => tensor.sys_input(),
            TensorT::UInt8(tensor) => tensor.sys_input(),
            TensorT::Int8(tensor) => tensor.sys_input(),
            TensorT::Int32(tensor) => tensor.sys_input(),
            TensorT::UInt32(tensor) => tensor.sys_input(),
            TensorT::Int16(tensor) => tensor.sys_input(),
            TensorT::UInt16(tensor) => tensor.sys_input(),
            TensorT::Int64(tensor) => tensor.sys_input(),
        }
    }

    /// The native output descriptor of the tensor held.
    pub open spec fn sys_output(&self) -> RknnOutput {
        match self {
            TensorT::Float32(tensor) => tensor.sys_output(),
            TensorT::Float16(tensor) => tensor.sys_output(),
            TensorT::BFloat16(tensor) => tensor.sys_output(),
            TensorT::UInt8(tensor) => tensor.sys_output(),
            TensorT::Int8(tensor) => tensor.sys_output(),
            TensorT::Int32(tensor) => tensor.sys_output(),
            TensorT::UInt32(tensor) => tensor.sys_output(),
            TensorT::Int16(tensor) => tensor.sys_output(),
            TensorT::UInt16(tensor) => tensor.sys_output(),
            TensorT::Int64(tensor) => tensor.sys_output(),
        }
    }

    pub fn as_input(&self) -> (sys: RknnInput)
        ensures
            sys == self.sys_input(),
    {
        match self {
            TensorT::Float32(tensor) => tensor.as_input(),
            TensorT::Float16(tensor) => tensor.as_input(),
            TensorT::BFloat16(tensor) => tensor.as_input(),
            TensorT::UInt8(tensor) => tensor.as_input(),
            TensorT::Int8(tensor) => tensor.as_input(),
            TensorT::Int32(tensor) => tensor.as_input(),
            TensorT::UInt32(tensor) => tensor.as_input(),
            TensorT::Int16(tensor) => tensor.as_input(),
            TensorT::UInt16(tensor) => tensor.as_input(),
            TensorT::Int64(tensor) => tensor.as_input(),
        }
    }

    pub fn as_output(&mut self) -> (sys: RknnOutput)
        ensures
            sys == old(self).sys_output(),
            *final(self) == *old(self),
    {
        match self {
            TensorT::Float32(tensor) => tensor.as_output(),
            TensorT::Float16(tensor) => tensor.as_output(),
            TensorT::BFloat16(tensor) => tensor.as_output(),
            TensorT::UInt8(tensor) => tensor.as_output(),
            TensorT::Int8(tensor) => tensor.as_output(),
            TensorT::Int32(tensor) => tensor.as_output(),
            TensorT::UInt32(tensor) => tensor.as_output(),
            TensorT::Int16(tensor) => tensor.as_output(),
            TensorT::UInt16(tensor) => tensor.as_output(),
            TensorT::Int64(tensor) => tensor.as_output(),
        }
    }
}

/// The elements of `v` in the opposite order.
fn reversed<T>(v: Vec<T>) -> (r: Vec<T>)
    ensures
        r@.len() == v@.len(),
        forall|i: int| 0 <= i < v@.len() ==> r@[i] == v@[v@.len() - 1 - i],
{
    let mut rest = v;
    let mut r: Vec<T> = Vec::new();
    while rest.len() > 0
        invariant
            r@.len() + rest@.len() == v@.len(),
            forall|i: int| 0 <= i < rest@.len() ==> rest@[i] == v@[i],
            forall|i: int| 0 <= i < r@.len() ==> r@[i] == v@[v@.len() - 1 - i],
        decreases rest@.len(),
    {
        match rest.pop() {
            Some(t) => {
                r.push(t);
            },
            None => {},
        }
    }
    r
}

impl TensorT {
    /// Whether `self` is what a clone of `source` can be: a tensor of the
    /// same element type that is a clone of the tensor that `source` holds.
    pub open spec fn is_clone_of(&self, source: &TensorT) -> bool {
        match (*self, *source) {
            (TensorT::Float32(a), TensorT::Float32(b)) => a.is_clone_of(&b),
            (TensorT::Float16(a), TensorT::Float16(b)) => a.is_clone_of(&b),
            (TensorT::BFloat16(a), TensorT::BFloat16(b)) => a.is_clone_of(&b),
            (TensorT::UInt8(a), TensorT::UInt8(b)) => a.is_clone_of(&b),
            (TensorT::Int8(a), TensorT::Int8(b)) => a.is_clone_of(&b),
            (TensorT::Int32(a), TensorT::Int32(b)) => a.is_clone_of(&b),
            (TensorT::UInt32(a), TensorT::UInt32(b)) => a.is_clone_of(&b),
            (TensorT::Int16(a), TensorT::Int16(b)) => a.is_clone_of(&b),
            (TensorT::UInt16(a), TensorT::UInt16(b)) => a.is_clone_of(&b),
            (TensorT::Int64(a), TensorT::Int64(b)) => a.is_clone_of(&b),
            _ => false,
        }
    }

    /// A clone goes to the runtime as the tensor it was cloned from does.
    pub proof fn lemma_clone_descriptors(&self, source: &TensorT)
        requires
            self.is_clone_of(source),
        ensures
            self.sys_input() == source.sys_input(),
            self.sys_output() == source.sys_output(),
    {
    }
}

/// A clone holds a clone of the tensor held: a tensor of the same element
/// type, for the same input or output, with storage of its own and a clone
/// of every element where the tensor owns its storage.
impl Clone for TensorT {
    fn clone(&self) -> (res: Self)
        ensures
            res.is_clone_of(self),
    {
        match self {
            TensorT::Float32(tensor) => TensorT::Float32(tensor.clone()),
            TensorT::Float16(tensor) => TensorT::Float16(tensor.clone()),
            TensorT::BFloat16(tensor) => TensorT::BFloat16(tensor.clone()),
            TensorT::UInt8(tensor) => TensorT::UInt8(tensor.clone()),
            TensorT::Int8(tensor) => TensorT::Int8(tensor.clone()),
            TensorT::Int32(tensor) => TensorT::Int32(tensor.clone()),
            TensorT::UInt32(tensor) => TensorT::UInt32(tensor.clone()),
            TensorT::Int16(tensor) => TensorT::Int16(tensor.clone()),
            TensorT::UInt16(tensor) => TensorT::UInt16(tensor.clone()),
            TensorT::Int64(tensor) => TensorT::Int64(tensor.clone()),
        }
    }
}

pub type Inputs = Vec<TensorT>;

/// What can be handed to the runtime as the input tensors of one call.
pub trait IntoInputs: Sized {
    /// Whether `inputs` are the tensors that `self` stands for, in order.
    /// What is handed over by value yields its own tensors; what is handed
    /// over by reference yields a clone of each.
    spec fn yields(self, inputs: Seq<TensorT>) -> bool;

    fn into_inputs(self) -> (inputs: Inputs)
        ensures
            self.yields(inputs@),
    ;
}

/// Whether `inputs` holds, position by position, a clone of each of
/// `tensors`.
pub open spec fn clones_of(inputs: Seq<TensorT>, tensors: Seq<TensorT>) -> bool {
    &&& inputs.len() == tensors.len()
    &&& forall|i: int| 0 <= i < tensors.len() ==> (#[trigger] inputs[i]).is_clone_of(&tensors[i])
}

// for Inputs itself
impl IntoInputs for Inputs {
    open spec fn yields(self, inputs: Seq<TensorT>) -> bool {
        inputs == self@
    }

    fn into_inputs(self) -> (inputs: Inputs) {
        self
    }
}

// &Inputs too
impl<'a> IntoInputs for &'a [TensorT] {
    open spec fn yields(self, inputs: Seq<TensorT>) -> bool {
        clones_of(inputs, self@)
    }

    fn into_inputs(self) -> (inputs: Inputs) {
        let mut inputs: Vec<TensorT> = Vec::new();
        let mut i: usize = 0;
        while i < self.len()
            invariant
                i <= self.len(),
                clones_of(inputs@, self@.take(i as int)),
            decreases self.len() - i,
        {
            inputs.push(self[i].clone());
            i += 1;
        }
        assert(self@.take(i as int) =~= self@);
        inputs
    }
}

/// A clone of each of `tensors`, in order.
fn cloned_tensors<T: Clone>(tensors: &[Tensor<T>]) -> (clones: Vec<Tensor<T>>)
    ensures
        clones@.len() == tensors@.len(),
        forall|i: int| 0 <= i < tensors@.len() ==> (#[trigger] clones@[i]).is_clone_of(&tensors@[i]),
{
    let mut clones: Vec<Tensor<T>> = Vec::new();
    let mut i: usize = 0;
    while i < tensors.len()
        invariant
            i <= tensors.len(),
            clones@.len() == i,
            forall|k: int| 0 <= k < i ==> (#[trigger] clones@[k]).is_clone_of(&tensors@[k]),
        decreases tensors.len() - i,
    {
        clones.push(tensors[i].clone());
        i += 1;
    }
    clones
}

/// The tensors of `tensors`, moved out of the array, in order.
fn taken<T, const N: usize>(tensors: [Tensor<T>; N]) -> (moved: Vec<Tensor<T>>)
    ensures
        moved@ == tensors@,
{
    let mut rest = tensors;
    let mut moved: Vec<Tensor<T>> = Vec::new();
    let mut i: usize = 0;
    while i < N
        invariant
            i <= N,
            moved@ == tensors@.take(i as int),
            forall|k: int| i <= k < N ==> rest@[k] == tensors@[k],
        decreases N - i,
    {
        // an empty tensor takes the place of the one that leaves
        let mut t: Tensor<T> = Tensor::owned(
            Vec::new(),
            0,
            TensorFormatKind::UNDEFINED(RKNN_TENSOR_UNDEFINED),
            false,
            None,
        );
        core::mem::swap(&mut rest[i], &mut t);
        moved.push(t);
        assert(moved@ =~= tensors@.take(i + 1));
        i += 1;
    }
    assert(tensors@.take(N as int) =~= tensors@);
    moved
}

impl From<Tensor<u8>> for TensorT {
    fn from(t: Tensor<u8>) -> (tensor: Self) {
        TensorT::UInt8(t)
    }
}

impl vstd::std_specs::convert::FromSpecImpl<Tensor<u8>> for TensorT {
    open spec fn obeys_from_spec() -> bool {
        true
    }

    open spec fn from_spec(t: Tensor<u8>) -> TensorT {
        TensorT::UInt8(t)
    }
}

impl IntoInputs for Vec<Tensor<u8>> {
    open spec fn yields(self, inputs: Seq<TensorT>) -> bool {
        inputs == self@.map_values(|t: Tensor<u8>| TensorT::UInt8(t))
    }

    fn into_inputs(self) -> (inputs: Inputs) {
        let ghost all = self@;
        let mut rest = reversed(self);
        let mut inputs: Vec<TensorT> = Vec::new();
        while rest.len() > 0
            invariant
                inputs@.len() + rest@.len() == all.len(),
                forall|i: int| 0 <= i < inputs@.len() ==> inputs@[i] == TensorT::UInt8(all[i]),
                forall|i: int| 0 <= i < rest@.len() ==> rest@[i] == all[all.len() - 1 - i],
            decreases rest@.len(),
        {
            match rest.pop() {
                Some(t) => {
                    inputs.push(TensorT::UInt8(t));
                },
                None => {},
            }
        }
        assert(inputs@ =~= all.map_values(|t: Tensor<u8>| TensorT::UInt8(t)));
        inputs
    }
}

impl<'a> IntoInputs for &'a [Tensor<u8>] {
    open spec fn yields(self, inputs: Seq<TensorT>) -> bool {
        clones_of(inputs, self@.map_values(|t: Tensor<u8>| TensorT::UInt8(t)))
    }

    fn into_inputs(self) -> (inputs: Inputs) {
        cloned_tensors(self).into_inputs()
    }
}

impl<'a, const N: usize> IntoInputs for &'a [Tensor<u8>; N] {
    open spec fn yields(self, inputs: Seq<TensorT>) -> bool {
        clones_of(inputs, self@.map_values(|t: Tensor<u8>| TensorT::UInt8(t)))
    }

    fn into_inputs(self) -> (inputs: Inputs) {
        cloned_tensors(self.as_slice()).into_inputs()
    }
}

impl<const N: usize> IntoInputs for [Tensor<u8>; N] {
    open spec fn yields(self, inputs: Seq<TensorT>) -> bool {
        inputs == self@.map_values(|t: Tensor<u8>| TensorT::UInt8(t))
    }

    fn into_inputs(self) -> (inputs: Inputs) {
        taken(self).into_inputs()
    }
}

impl TryFrom<TensorT> for Tensor<u8> {
    type Error = &'static str;

    fn try_from(t: TensorT) -> (r: Result<Self, Self::Error>) {
        match t {
            TensorT::UInt8(inner) => Ok(inner),
            _ => Err("TensorT is not UInt8"),
        }
    }
}

impl vstd::std_specs::convert::TryFromSpecImpl<TensorT> for Tensor<u8> {
    open spec fn obeys_try_from_spec() -> bool {
        true
    }

    open spec fn try_from_spec(t: TensorT) -> Result<Self, &'static str> {
        match t {
            TensorT::UInt8(inner) => Ok(inner),
            _ => Err("TensorT is not UInt8"),
        }
    }
}

impl From<Tensor<i8>> for TensorT {
    fn from(t: Tensor<i8>) -> (tensor: Self) {
        TensorT::Int8(t)
    }
}

impl vstd::std_specs::convert::FromSpecImpl<Tensor<i8>> for TensorT {
    open spec fn obeys_from_spec() -> bool {
        true
    }

    open spec fn from_spec(t: Tensor<i8>) -> TensorT {
        TensorT::Int8(t)
    }
}

impl IntoInputs for Vec<Tensor<i8>> {
    open spec fn yields(self, inputs: Seq<TensorT>) -> bool {
        inputs == self@.map_values(|t: Tensor<i8>| TensorT::Int8(t))
    }

    fn into_inputs(self) -> (inputs: Inputs) {
        let ghost all = self@;
        let mut rest = reversed(self);
        let mut inputs: Vec<TensorT> = Vec::new();
        while rest.len() > 0
            invariant
                inputs@.len() + rest@.len() == all.len(),
                forall|i: int| 0 <= i < inputs@.len() ==> inputs@[i] == TensorT::Int8(all[i]),
                forall|i: int| 0 <= i < rest@.len() ==> rest@[i] == all[all.len() - 1 - i],
            decreases rest@.len(),
        {
            match rest.pop() {
                Some(t) => {
                    inputs.push(TensorT::Int8(t));
                },
                None => {},
            }
        }
        assert(inputs@ =~= all.map_values(|t: Tensor<i8>| TensorT::Int8(t)));
        inputs
    }
}

impl<'a> IntoInputs for &'a [Tensor<i8>] {
    open spec fn yields(self, inputs: Seq<TensorT>) -> bool {
        clones_of(inputs, self@.map_values(|t: Tensor<i8>| TensorT::Int8(t)))
    }

    fn into_inputs(self) -> (inputs: Inputs) {
        cloned_tensors(self).into_inputs()
    }
}

impl<'a, const N: usize> IntoInputs for &'a [Tensor<i8>; N] {
    open spec fn yields(self, inputs: Seq<TensorT>) -> bool {
        clones_of(inputs, self@.map_values(|t: Tensor<i8>| TensorT::Int8(t)))
    }

    fn into_inputs(self) -> (inputs: Inputs) {
        cloned_tensors(self.as_slice()).into_inputs()
    }
}

impl<const N: usize> IntoInputs for [Tensor<i8>; N] {
    open spec fn yields(self, inputs: Seq<TensorT>) -> bool {
        inputs == self@.map_values(|t: Tensor<i8>| TensorT::Int8(t))
    }

    fn into_inputs(self) -> (inputs: Inputs) {
        taken(self).into_inputs()
    }
}

impl TryFrom<TensorT> for Tensor<i8> {
    type Error = &'static str;

    fn try_from(t: TensorT) -> (r: Result<Self, Self::Error>) {
        match t {
            TensorT::Int8(inner) => Ok(inner),
            _ => Err("TensorT is not Int8"),
        }
    }
}

impl vstd::std_specs::convert::TryFromSpecImpl<TensorT> for Tensor<i8> {
    open spec fn obeys_try_from_spec() -> bool {
        true
    }

    open spec fn try_from_spec(t: TensorT) -> Result<Self, &'static str> {
        match t {
            TensorT::Int8(inner) => Ok(inner),
            _ => Err("TensorT is not Int8"),
        }
    }
}

impl From<Tensor<i32>> for TensorT {
    fn from(t: Tensor<i32>) -> (tensor: Self) {
        TensorT::Int32(t)
    }
}

impl vstd::std_specs::convert::FromSpecImpl<Tensor<i32>> for TensorT {
    open spec fn obeys_from_spec() -> bool {
        true
    }

    open spec fn from_spec(t: Tensor<i32>) -> TensorT {
        TensorT::Int32(t)
    }
}

impl IntoInputs for Vec<Tensor<i32>> {
    open spec fn yields(self, inputs: Seq<TensorT>) -> bool {
        inputs == self@.map_values(|t: Tensor<i32>| TensorT::Int32(t))
    }

    fn into_inputs(self) -> (inputs: Inputs) {
        let ghost all = self@;
        let mut rest = reversed(self);
        let mut inputs: Vec<TensorT> = Vec::new();
        while rest.len() > 0
            invariant
                inputs@.len() + rest@.len() == all.len(),
                forall|i: int| 0 <= i < inputs@.len() ==> inputs@[i] == TensorT::Int32(all[i]),
                forall|i: int| 0 <= i < rest@.len() ==> rest@[i] == all[all.len() - 1 - i],
            decreases rest@.len(),
        {
            match rest.pop() {
                Some(t) => {
                    inputs.push(TensorT::Int32(t));
                },
                None => {},
            }
        }
        assert(inputs@ =~= all.map_values(|t: Tensor<i32>| TensorT::Int32(t)));
        inputs
    }
}

impl<'a> IntoInputs for &'a [Tensor<i32>] {
    open spec fn yields(self, inputs: Seq<TensorT>) -> bool {
        clones_of(inputs, self@.map_values(|t: Tensor<i32>| TensorT::Int32(t)))
    }

    fn into_inputs(self) -> (inputs: Inputs) {
        cloned_tensors(self).into_inputs()
    }
}

impl<'a, const N: usize> IntoInputs for &'a [Tensor<i32>; N] {
    open spec fn yields(self, inputs: Seq<TensorT>) -> bool {
        clones_of(inputs, self@.map_values(|t: Tensor<i32>| TensorT::Int32(t)))
    }

    fn into_inputs(self) -> (inputs: Inputs) {
        cloned_tensors(self.as_slice()).into_inputs()
    }
}

impl<const N: usize> IntoInputs for [Tensor<i32>; N] {
    open spec fn yields(self, inputs: Seq<TensorT>) -> bool {
        inputs == self@.map_values(|t: Tensor<i32>| TensorT::Int32(t))
    }

    fn into_inputs(self) -> (inputs: Inputs) {
        taken(self).into_inputs()
    }
}

impl TryFrom<TensorT> for Tensor<i32> {
    type Error = &'static str;

    fn try_from(t: TensorT) -> (r: Result<Self, Self::Error>) {
        match t {
            TensorT::Int32(inner) => Ok(inner),
            _ => Err("TensorT is not Int32"),
        }
    }
}

impl vstd::std_specs::convert::TryFromSpecImpl<TensorT> for Tensor<i32> {
    open spec fn obeys_try_from_spec() -> bool {
        true
    }

    open spec fn try_from_spec(t: TensorT) -> Result<Self, &'static str> {
        match t {
            TensorT::Int32(inner) => Ok(inner),
            _ => Err("TensorT is not Int32"),
        }
    }
}

impl From<Tensor<u32>> for TensorT {
    fn from(t: Tensor<u32>) -> (tensor: Self) {
        TensorT::UInt32(t)
    }
}

impl vstd::std_specs::convert::FromSpecImpl<Tensor<u32>> for TensorT {
    open spec fn obeys_from_spec() -> bool {
        true
    }

    open spec fn from_spec(t: Tensor<u32>) -> TensorT {
        TensorT::UInt32(t)
    }
}

impl IntoInputs for Vec<Tensor<u32>> {
    open spec fn yields(self, inputs: Seq<TensorT>) -> bool {
        inputs == self@.map_values(|t: Tensor<u32>| TensorT::UInt32(t))
    }

    fn into_inputs(self) -> (inputs: Inputs) {
        let ghost all = self@;
        let mut rest = reversed(self);
        let mut inputs: Vec<TensorT> = Vec::new();
        while rest.len() > 0
            invariant
                inputs@.len() + rest@.len() == all.len(),
                forall|i: int| 0 <= i < inputs@.len() ==> inputs@[i] == TensorT::UInt32(all[i]),
                forall|i: int| 0 <= i < rest@.len() ==> rest@[i] == all[all.len() - 1 - i],
            decreases rest@.len(),
        {
            match rest.pop() {
                Some(t) => {
                    inputs.push(TensorT::UInt32(t));
                },
                None => {},
            }
        }
        assert(inputs@ =~= all.map_values(|t: Tensor<u32>| TensorT::UInt32(t)));
        inputs
    }
}

impl<'a> IntoInputs for &'a [Tensor<u32>] {
    open spec fn yields(self, inputs: Seq<TensorT>) -> bool {
        clones_of(inputs, self@.map_values(|t: Tensor<u32>| TensorT::UInt32(t)))
    }

    fn into_inputs(self) -> (inputs: Inputs) {
        cloned_tensors(self).into_inputs()
    }
}

impl<'a, const N: usize> IntoInputs for &'a [Tensor<u32>; N] {
    open spec fn yields(self, inputs: Seq<TensorT>) -> bool {
        clones_of(inputs, self@.map_values(|t: Tensor<u32>| TensorT::UInt32(t)))
    }

    fn into_inputs(self) -> (inputs: Inputs) {
        cloned_tensors(self.as_slice()).into_inputs()
    }
}

impl<const N: usize> IntoInputs for [Tensor<u32>; N] {
    open spec fn yields(self, inputs: Seq<TensorT>) -> bool {
        inputs == self@.map_values(|t: Tensor<u32>| TensorT::UInt32(t))
    }

    fn into_inputs(self) -> (inputs: Inputs) {
        taken(self).into_inputs()
    }
}

impl TryFrom<TensorT> for Tensor<u32> {
    type Error = &'static str;

    fn try_from(t: TensorT) -> (r: Result<Self, Self::Error>) {
        match t {
            TensorT::UInt32(inner) => Ok(inner),
            _ => Err("TensorT is not UInt32"),
        }
    }
}

impl vstd::std_specs::convert::TryFromSpecImpl<TensorT> for Tensor<u32> {
    open spec fn obeys_try_from_spec() -> bool {
        true
    }

    open spec fn try_from_spec(t: TensorT) -> Result<Self, &'static str> {
        match t {
            TensorT::UInt32(inner) => Ok(inner),
            _ => Err("TensorT is not UInt32"),
        }
    }
}

impl From<Tensor<i16>> for TensorT {
    fn from(t: Tensor<i16>) -> (tensor: Self) {
        TensorT::Int16(t)
    }
}

impl vstd::std_specs::convert::FromSpecImpl<Tensor<i16>> for TensorT {
    open spec fn obeys_from_spec() -> bool {
        true
    }

    open spec fn from_spec(t: Tensor<i16>) -> TensorT {
        TensorT::Int16(t)
    }
}

impl IntoInputs for Vec<Tensor<i16>> {
    open spec fn yields(self, inputs: Seq<TensorT>) -> bool {
        inputs == self@.map_values(|t: Tensor<i16>| TensorT::Int16(t))
    }

    fn into_inputs(self) -> (inputs: Inputs) {
        let ghost all = self@;
        let mut rest = reversed(self);
        let mut inputs: Vec<TensorT> = Vec::new();
        while rest.len() > 0
            invariant
                inputs@.len() + rest@.len() == all.len(),
                forall|i: int| 0 <= i < inputs@.len() ==> inputs@[i] == TensorT::Int16(all[i]),
                forall|i: int| 0 <= i < rest@.len() ==> rest@[i] == all[all.len() - 1 - i],
            decreases rest@.len(),
        {
            match rest.pop() {
                Some(t) => {
                    inputs.push(TensorT::Int16(t));
                },
                None => {},
            }
        }
        assert(inputs@ =~= all.map_values(|t: Tensor<i16>| TensorT::Int16(t)));
        inputs
    }
}

impl<'a> IntoInputs for &'a [Tensor<i16>] {
    open spec fn yields(self, inputs: Seq<TensorT>) -> bool {
        clones_of(inputs, self@.map_values(|t: Tensor<i16>| TensorT::Int16(t)))
    }

    fn into_inputs(self) -> (inputs: Inputs) {
        cloned_tensors(self).into_inputs()
    }
}

impl<'a, const N: usize> IntoInputs for &'a [Tensor<i16>; N] {
    open spec fn yields(self, inputs: Seq<TensorT>) -> bool {
        clones_of(inputs, self@.map_values(|t: Tensor<i16>| TensorT::Int16(t)))
    }

    fn into_inputs(self) -> (inputs: Inputs) {
        cloned_tensors(self.as_slice()).into_inputs()
    }
}

impl<const N: usize> IntoInputs for [Tensor<i16>; N] {
    open spec fn yields(self, inputs: Seq<TensorT>) -> bool {
        inputs == self@.map_values(|t: Tensor<i16>| TensorT::Int16(t))
    }

    fn into_inputs(self) -> (inputs: Inputs) {
        taken(self).into_inputs()
    }
}

impl TryFrom<TensorT> for Tensor<i16> {
    type Error = &'static str;

    fn try_from(t: TensorT) -> (r: Result<Self, Self::Error>) {
        match t {
            TensorT::Int16(inner) => Ok(inner),
            _ => Err("TensorT is not Int16"),
        }
    }
}

impl vstd::std_specs::convert::TryFromSpecImpl<TensorT> for Tensor<i16> {
    open spec fn obeys_try_from_spec() -> bool {
        true
    }

    open spec fn try_from_spec(t: TensorT) -> Result<Self, &'static str> {
        match t {
            TensorT::Int16(inner) => Ok(inner),
            _ => Err("TensorT is not Int16"),
        }
    }
}

impl From<Tensor<u16>> for TensorT {
    fn from(t: Tensor<u16>) -> (tensor: Self) {
        TensorT::UInt16(t)
    }
}

impl vstd::std_specs::convert::FromSpecImpl<Tensor<u16>> for TensorT {
    open spec fn obeys_from_spec() -> bool {
        true
    }

    open spec fn from_spec(t: Tensor<u16>) -> TensorT {
        TensorT::UInt16(t)
    }
}

impl IntoInputs for Vec<Tensor<u16>> {
    open spec fn yields(self, inputs: Seq<TensorT>) -> bool {
        inputs == self@.map_values(|t: Tensor<u16>| TensorT::UInt16(t))
    }

    fn into_inputs(self) -> (inputs: Inputs) {
        let ghost all = self@;
        let mut rest = reversed(self);
        let mut inputs: Vec<TensorT> = Vec::new();
        while rest.len() > 0
            invariant
                inputs@.len() + rest@.len() == all.len(),
                forall|i: int| 0 <= i < inputs@.len() ==> inputs@[i] == TensorT::UInt16(all[i]),
                forall|i: int| 0 <= i < rest@.len() ==> rest@[i] == all[all.len() - 1 - i],
            decreases rest@.len(),
        {
            match rest.pop() {
                Some(t) => {
                    inputs.push(TensorT::UInt16(t));
                },
                None => {},
            }
        }
        assert(inputs@ =~= all.map_values(|t: Tensor<u16>| TensorT::UInt16(t)));
        inputs
    }
}

impl<'a> IntoInputs for &'a [Tensor<u16>] {
    open spec fn yields(self, inputs: Seq<TensorT>) -> bool {
        clones_of(inputs, self@.map_values(|t: Tensor<u16>| TensorT::UInt16(t)))
    }

    fn into_inputs(self) -> (inputs: Inputs) {
        cloned_tensors(self).into_inputs()
    }
}

impl<'a, const N: usize> IntoInputs for &'a [Tensor<u16>; N] {
    open spec fn yields(self, inputs: Seq<TensorT>) -> bool {
        clones_of(inputs, self@.map_values(|t: Tensor<u16>| TensorT::UInt16(t)))
    }

    fn into_inputs(self) -> (inputs: Inputs) {
        cloned_tensors(self.as_slice()).into_inputs()
    }
}

impl<const N: usize> IntoInputs for [Tensor<u16>; N] {
    open spec fn yields(self, inputs: Seq<TensorT>) -> bool {
        inputs == self@.map_values(|t: Tensor<u16>| TensorT::UInt16(t))
    }

    fn into_inputs(self) -> (inputs: Inputs) {
        taken(self).into_inputs()
    }
}

impl TryFrom<TensorT> for Tensor<u16> {
    type Error = &'static str;

    fn try_from(t: TensorT) -> (r: Result<Self, Self::Error>) {
        match t {
            TensorT::UInt16(inner) => Ok(inner),
            _ => Err("TensorT is not UInt16"),
        }
    }
}

impl vstd::std_specs::convert::TryFromSpecImpl<TensorT> for Tensor<u16> {
    open spec fn obeys_try_from_spec() -> bool {
        true
    }

    open spec fn try_from_spec(t: TensorT) -> Result<Self, &'static str> {
        match t {
            TensorT::UInt16(inner) => Ok(inner),
            _ => Err("TensorT is not UInt16"),
        }
    }
}

impl From<Tensor<i64>> for TensorT {
    fn from(t: Tensor<i64>) -> (tensor: Self) {
        TensorT::Int64(t)
    }
}

impl vstd::std_specs::convert::FromSpecImpl<Tensor<i64>> for TensorT {
    open spec fn obeys_from_spec() -> bool {
        true
    }

    open spec fn from_spec(t: Tensor<i64>) -> TensorT {
        TensorT::Int64(t)
    }
}

impl IntoInputs for Vec<Tensor<i64>> {
    open spec fn yields(self, inputs: Seq<TensorT>) -> bool {
        inputs == self@.map_values(|t: Tensor<i64>| TensorT::Int64(t))
    }

    fn into_inputs(self) -> (inputs: Inputs) {
        let ghost all = self@;
        let mut rest = reversed(self);
        let mut inputs: Vec<TensorT> = Vec::new();
        while rest.len() > 0
            invariant
                inputs@.len() + rest@.len() == all.len(),
                forall|i: int| 0 <= i < inputs@.len() ==> inputs@[i] == TensorT::Int64(all[i]),
                forall|i: int| 0 <= i < rest@.len() ==> rest@[i] == all[all.len() - 1 - i],
            decreases rest@.len(),
        {
            match rest.pop() {
                Some(t) => {
                    inputs.push(TensorT::Int64(t));
                },
                None => {},
            }
        }
        assert(inputs@ =~= all.map_values(|t: Tensor<i64>| TensorT::Int64(t)));
        inputs
    }
}

impl<'a> IntoInputs for &'a [Tensor<i64>] {
    open spec fn yields(self, inputs: Seq<TensorT>) -> bool {
        clones_of(inputs, self@.map_values(|t: Tensor<i64>| TensorT::Int64(t)))
    }

    fn into_inputs(self) -> (inputs: Inputs) {
        cloned_tensors(self).into_inputs()
    }
}

impl<'a, const N: usize> IntoInputs for &'a [Tensor<i64>; N] {
    open spec fn yields(self, inputs: Seq<TensorT>) -> bool {
        clones_of(inputs, self@.map_values(|t: Tensor<i64>| TensorT::Int64(t)))
    }

    fn into_inputs(self) -> (inputs: Inputs) {
        cloned_tensors(self.as_slice()).into_inputs()
    }
}

impl<const N: usize> IntoInputs for [Tensor<i64>; N] {
    open spec fn yields(self, inputs: Seq<TensorT>) -> bool {
        inputs == self@.map_values(|t: Tensor<i64>| TensorT::Int64(t))
    }

    fn into_inputs(self) -> (inputs: Inputs) {
        taken(self).into_inputs()
    }
}

impl TryFrom<TensorT> for Tensor<i64> {
    type Error = &'static str;

    fn try_from(t: TensorT) -> (r: Result<Self, Self::Error>) {
        match t {
            TensorT::Int64(inner) => Ok(inner),
            _ => Err("TensorT is not Int64"),
        }
    }
}

impl vstd::std_specs::convert::TryFromSpecImpl<TensorT> for Tensor<i64> {
    open spec fn obeys_try_from_spec() -> bool {
        true
    }

    open spec fn try_from_spec(t: TensorT) -> Result<Self, &'static str> {
        match t {
            TensorT::Int64(inner) => Ok(inner),
            _ => Err("TensorT is not Int64"),
        }
    }
}

impl From<Tensor<F32Bits>> for TensorT {
    fn from(t: Tensor<F32Bits>) -> (tensor: Self) {
        TensorT::Float32(t)
    }
}

impl vstd::std_specs::convert::FromSpecImpl<Tensor<F32Bits>> for TensorT {
    open spec fn obeys_from_spec() -> bool {
        true
    }

    open spec fn from_spec(t: Tensor<F32Bits>) -> TensorT {
        TensorT::Float32(t)
    }
}

impl IntoInputs for Vec<Tensor<F32Bits>> {
    open spec fn yields(self, inputs: Seq<TensorT>) -> bool {
        inputs == self@.map_values(|t: Tensor<F32Bits>| TensorT::Float32(t))
    }

    fn into_inputs(self) -> (inputs: Inputs) {
        let ghost all = self@;
        let mut rest = reversed(self);
        let mut inputs: Vec<TensorT> = Vec::new();
        while rest.len() > 0
            invariant
                inputs@.len() + rest@.len() == all.len(),
                forall|i: int| 0 <= i < inputs@.len() ==> inputs@[i] == TensorT::Float32(all[i]),
                forall|i: int| 0 <= i < rest@.len() ==> rest@[i] == all[all.len() - 1 - i],
            decreases rest@.len(),
        {
            match rest.pop() {
                Some(t) => {
                    inputs.push(TensorT::Float32(t));
                },
                None => {},
            }
        }
        assert(inputs@ =~= all.map_values(|t: Tensor<F32Bits>| TensorT::Float32(t)));
        inputs
    }
}

impl<'a> IntoInputs for &'a [Tensor<F32Bits>] {
    open spec fn yields(self, inputs: Seq<TensorT>) -> bool {
        clones_of(inputs, self@.map_values(|t: Tensor<F32Bits>| TensorT::Float32(t)))
    }

    fn into_inputs(self) -> (inputs: Inputs) {
        cloned_tensors(self).into_inputs()
    }
}

impl<'a, const N: usize> IntoInputs for &'a [Tensor<F32Bits>; N] {
    open spec fn yields(self, inputs: Seq<TensorT>) -> bool {
        clones_of(inputs, self@.map_values(|t: Tensor<F32Bits>| TensorT::Float32(t)))
    }

    fn into_inputs(self) -> (inputs: Inputs) {
        cloned_tensors(self.as_slice()).into_inputs()
    }
}

impl<const N: usize> IntoInputs for [Tensor<F32Bits>; N] {
    open spec fn yields(self, inputs: Seq<TensorT>) -> bool {
        inputs == self@.map_values(|t: Tensor<F32Bits>| TensorT::Float32(t))
    }

    fn into_inputs(self) -> (inputs: Inputs) {
        taken(self).into_inputs()
    }
}

impl TryFrom<TensorT> for Tensor<F32Bits> {
    type Error = &'static str;

    fn try_from(t: TensorT) -> (r: Result<Self, Self::Error>) {
        match t {
            TensorT::Float32(inner) => Ok(inner),
            _ => Err("TensorT is not Float32"),
        }
    }
}

impl vstd::std_specs::convert::TryFromSpecImpl<TensorT> for Tensor<F32Bits> {
    open spec fn obeys_try_from_spec() -> bool {
        true
    }

    open spec fn try_from_spec(t: TensorT) -> Result<Self, &'static str> {
        match t {
            TensorT::Float32(inner) => Ok(inner),
            _ => Err("TensorT is not Float32"),
        }
    }
}

impl From<Tensor<F16Bits>> for TensorT {
    fn from(t: Tensor<F16Bits>) -> (tensor: Self) {
        TensorT::Float16(t)
    }
}

impl vstd::std_specs::convert::FromSpecImpl<Tensor<F16Bits>> for TensorT {
    open spec fn obeys_from_spec() -> bool {
        true
    }

    open spec fn from_spec(t: Tensor<F16Bits>) -> TensorT {
        TensorT::Float16(t)
    }
}

impl IntoInputs for Vec<Tensor<F16Bits>> {
    open spec fn yields(self, inputs: Seq<TensorT>) -> bool {
        inputs == self@.map_values(|t: Tensor<F16Bits>| TensorT::Float16(t))
    }

    fn into_inputs(self) -> (inputs: Inputs) {
        let ghost all = self@;
        let mut rest = reversed(self);
        let mut inputs: Vec<TensorT> = Vec::new();
        while rest.len() > 0
            invariant
                inputs@.len() + rest@.len() == all.len(),
                forall|i: int| 0 <= i < inputs@.len() ==> inputs@[i] == TensorT::Float16(all[i]),
                forall|i: int| 0 <= i < rest@.len() ==> rest@[i] == all[all.len() - 1 - i],
            decreases rest@.len(),
        {
            match rest.pop() {
                Some(t) => {
                    inputs.push(TensorT::Float16(t));
                },
                None => {},
            }
        }
        assert(inputs@ =~= all.map_values(|t: Tensor<F16Bits>| TensorT::Float16(t)));
        inputs
    }
}

impl<'a> IntoInputs for &'a [Tensor<F16Bits>] {
    open spec fn yields(self, inputs: Seq<TensorT>) -> bool {
        clones_of(inputs, self@.map_values(|t: Tensor<F16Bits>| TensorT::Float16(t)))
    }

    fn into_inputs(self) -> (inputs: Inputs) {
        cloned_tensors(self).into_inputs()
    }
}

impl<'a, const N: usize> IntoInputs for &'a [Tensor<F16Bits>; N] {
    open spec fn yields(self, inputs: Seq<TensorT>) -> bool {
        clones_of(inputs, self@.map_values(|t: Tensor<F16Bits>| TensorT::Float16(t)))
    }

    fn into_inputs(self) -> (inputs: Inputs) {
        cloned_tensors(self.as_slice()).into_inputs()
    }
}

impl<const N: usize> IntoInputs for [Tensor<F16Bits>; N] {
    open spec fn yields(self, inputs: Seq<TensorT>) -> bool {
        inputs == self@.map_values(|t: Tensor<F16Bits>| TensorT::Float16(t))
    }

    fn into_inputs(self) -> (inputs: Inputs) {
        taken(self).into_inputs()
    }
}

impl TryFrom<TensorT> for Tensor<F16Bits> {
    type Error = &'static str;

    fn try_from(t: TensorT) -> (r: Result<Self, Self::Error>) {
        match t {
            TensorT::Float16(inner) => Ok(inner),
            _ => Err("TensorT is not Float16"),
        }
    }
}

impl vstd::std_specs::convert::TryFromSpecImpl<TensorT> for Tensor<F16Bits> {
    open spec fn obeys_try_from_spec() -> bool {
        true
    }

    open spec fn try_from_spec(t: TensorT) -> Result<Self, &'static str> {
        match t {
            TensorT::Float16(inner) => Ok(inner),
            _ => Err("TensorT is not Float16"),
        }
    }
}

impl From<Tensor<BF16Bits>> for TensorT {
    fn from(t: Tensor<BF16Bits>) -> (tensor: Self) {
        TensorT::BFloat16(t)
    }
}

impl vstd::std_specs::convert::FromSpecImpl<Tensor<BF16Bits>> for TensorT {
    open spec fn obeys_from_spec() -> bool {
        true
    }

    open spec fn from_spec(t: Tensor<BF16Bits>) -> TensorT {
        TensorT::BFloat16(t)
    }
}

impl IntoInputs for Vec<Tensor<BF16Bits>> {
    open spec fn yields(self, inputs: Seq<TensorT>) -> bool {
        inputs == self@.map_values(|t: Tensor<BF16Bits>| TensorT::BFloat16(t))
    }

    fn into_inputs(self) -> (inputs: Inputs) {
        let ghost all = self@;
        let mut rest = reversed(self);
        let mut inputs: Vec<TensorT> = Vec::new();
        while rest.len() > 0
            invariant
                inputs@.len() + rest@.len() == all.len(),
                forall|i: int| 0 <= i < inputs@.len() ==> inputs@[i] == TensorT::BFloat16(all[i]),
                forall|i: int| 0 <= i < rest@.len() ==> rest@[i] == all[all.len() - 1 - i],
            decreases rest@.len(),
        {
            match rest.pop() {
                Some(t) => {
                    inputs.push(TensorT::BFloat16(t));
                },
                None => {},
            }
        }
        assert(inputs@ =~= all.map_values(|t: Tensor<BF16Bits>| TensorT::BFloat16(t)));
        inputs
    }
}

impl<'a> IntoInputs for &'a [Tensor<BF16Bits>] {
    open spec fn yields(self, inputs: Seq<TensorT>) -> bool {
        clones_of(inputs, self@.map_values(|t: Tensor<BF16Bits>| TensorT::BFloat16(t)))
    }

    fn into_inputs(self) -> (inputs: Inputs) {
        cloned_tensors(self).into_inputs()
    }
}

impl<'a, const N: usize> IntoInputs for &'a [Tensor<BF16Bits>; N] {
    open spec fn yields(self, inputs: Seq<TensorT>) -> bool {
        clones_of(inputs, self@.map_values(|t: Tensor<BF16Bits>| TensorT::BFloat16(t)))
    }

    fn into_inputs(self) -> (inputs: Inputs) {
        cloned_tensors(self.as_slice()).into_inputs()
    }
}

impl<const N: usize> IntoInputs for [Tensor<BF16Bits>; N] {
    open spec fn yields(self, inputs: Seq<TensorT>) -> bool {
        inputs == self@.map_values(|t: Tensor<BF16Bits>| TensorT::BFloat16(t))
    }

    fn into_inputs(self) -> (inputs: Inputs) {
        taken(self).into_inputs()
    }
}

impl TryFrom<TensorT> for Tensor<BF16Bits> {
    type Error = &'static str;

    fn try_from(t: TensorT) -> (r: Result<Self, Self::Error>) {
        match t {
            TensorT::BFloat16(inner) => Ok(inner),
            _ => Err("TensorT is not BFloat16"),
        }
    }
}

impl vstd::std_specs::convert::TryFromSpecImpl<TensorT> for Tensor<BF16Bits> {
    open spec fn obeys_try_from_spec() -> bool {
        true
    }

    open spec fn try_from_spec(t: TensorT) -> Result<Self, &'static str> {
        match t {
            TensorT::BFloat16(inner) => Ok(inner),
            _ => Err("TensorT is not BFloat16"),
        }
    }
}

} // verus!
