//! Typed views of caller-owned buffers.
//!
//! A view of floats holds their bit patterns: 32-bit floats as `u32`, 16-bit
//! and brain floats as `u16`.

use crate::tensor::{DataType, DataTypeKind};
use vstd::layout::{layout_of_primitives, layout_of_slices};
use vstd::prelude::*;

verus! {

/// A mutably borrowed view into user owned data.
#[derive(Debug)]
pub enum BufMutView<'a> {
    F32(&'a mut [u32]),
    I32(&'a mut [i32]),
    U8(&'a mut [u8]),
    U16(&'a mut [u16]),
    U32(&'a mut [u32]),
    I64(&'a mut [i64]),
    F16(&'a mut [u16]),
    BF16(&'a mut [u16]),
    I8(&'a mut [i8]),
}

impl<'a> BufMutView<'a> {
    /// The number of elements in view.
    pub open spec fn spec_len(&self) -> nat {
        match self {
            BufMutView::F32(data) => data@.len(),
            BufMutView::I32(data) => data@.len(),
            BufMutView::U8(data) => data@.len(),
            BufMutView::U16(data) => data@.len(),
            BufMutView::U32(data) => data@.len(),
            BufMutView::I64(data) => data@.len(),
            BufMutView::F16(data) => data@.len(),
            BufMutView::BF16(data) => data@.len(),
            BufMutView::I8(data) => data@.len(),
        }
    }

    /// The size of one element in bytes.
    pub open spec fn element_size(&self) -> nat {
        match self {
            BufMutView::F32(_) => 4,
            BufMutView::I32(_) => 4,
            BufMutView::U8(_) => 1,
            BufMutView::U16(_) => 2,
            BufMutView::U32(_) => 4,
            BufMutView::I64(_) => 8,
            BufMutView::F16(_) => 2,
            BufMutView::BF16(_) => 2,
            BufMutView::I8(_) => 1,
        }
    }

    /// The element type of the view.
    pub open spec fn spec_dtype(&self) -> DataTypeKind {
        match self {
            BufMutView::F32(_) => DataTypeKind::Float32(DataType::FLOAT32),
            BufMutView::I32(_) => DataTypeKind::Int32(DataType::INT32),
            BufMutView::U8(_) => DataTypeKind::UInt8(DataType::UINT8),
            BufMutView::U16(_) => DataTypeKind::UInt16(DataType::UINT16),
            BufMutView::U32(_) => DataTypeKind::UInt32(DataType::UINT32),
            BufMutView::I64(_) => DataTypeKind::Int64(DataType::INT64),
            BufMutView::F16(_) => DataTypeKind::Float16(DataType::FLOAT16),
            BufMutView::BF16(_) => DataTypeKind::BFloat16(DataType::BFLOAT16),
            BufMutView::I8(_) => DataTypeKind::Int8(DataType::INT8),
        }
    }

    pub fn len(&self) -> (n: usize)
        ensures
            n == self.spec_len(),
    {
        match self {
            BufMutView::F32(data) => data.len(),
            BufMutView::I32(data) => data.len(),
            BufMutView::U8(data) => data.len(),
            BufMutView::U16(data) => data.len(),
            BufMutView::U32(data) => data.len(),
            BufMutView::I64(data) => data.len(),
            BufMutView::F16(data) => data.len(),
            BufMutView::BF16(data) => data.len(),
            BufMutView::I8(data) => data.len(),
        }
    }

    pub fn num_bytes(&self) -> (n: usize)
        ensures
            n == self.spec_len() * self.element_size(),
    {
        broadcast use {layout_of_primitives, layout_of_slices};

        match self {
            BufMutView::F32(data) => core::mem::size_of_val::<[u32]>(&**data),
            BufMutView::I32(data) => core::mem::size_of_val::<[i32]>(&**data),
            BufMutView::U8(data) => core::mem::size_of_val::<[u8]>(&**data),
            BufMutView::U16(data) => core::mem::size_of_val::<[u16]>(&**data),
            BufMutView::U32(data) => core::mem::size_of_val::<[u32]>(&**data),
            BufMutView::I64(data) => core::mem::size_of_val::<[i64]>(&**data),
            BufMutView::F16(data) => core::mem::size_of_val::<[u16]>(&**data),
            BufMutView::BF16(data) => core::mem::size_of_val::<[u16]>(&**data),
            BufMutView::I8(data) => core::mem::size_of_val::<[i8]>(&**data),
        }
    }

    pub fn dtype(&self) -> (kind: DataTypeKind)
        ensures
            kind == self.spec_dtype(),
    {
        match self {
            BufMutView::F32(_) => DataTypeKind::Float32(DataType::FLOAT32),
            BufMutView::I32(_) => DataTypeKind::Int32(DataType::INT32),
            BufMutView::U8(_) => DataTypeKind::UInt8(DataType::UINT8),
            BufMutView::U16(_) => DataTypeKind::UInt16(DataType::UINT16),
            BufMutView::U32(_) => DataTypeKind::UInt32(DataType::UINT32),
            BufMutView::I64(_) => DataTypeKind::Int64(DataType::INT64),
            BufMutView::F16(_) => DataTypeKind::Float16(DataType::FLOAT16),
            BufMutView::BF16(_) => DataTypeKind::BFloat16(DataType::BFLOAT16),
            BufMutView::I8(_) => DataTypeKind::Int8(DataType::INT8),
        }
    }
}

/// A borrowed view into user owned data.
#[derive(Debug)]
pub enum BufView<'a> {
    F32(&'a [u32]),
    I32(&'a [i32]),
    U8(&'a [u8]),
    U16(&'a [u16]),
    U32(&'a [u32]),
    I64(&'a [i64]),
    F16(&'a [u16]),
    BF16(&'a [u16]),
    I8(&'a [i8]),
}

impl<'a> BufView<'a> {
    /// The number of elements in view.
    pub open spec fn spec_len(&self) -> nat {
        match self {
            BufView::F32(data) => data@.len(),
            BufView::I32(data) => data@.len(),
            BufView::U8(data) => data@.len(),
            BufView::U16(data) => data@.len(),
            BufView::U32(data) => data@.len(),
            BufView::I64(data) => data@.len(),
            BufView::F16(data) => data@.len(),
            BufView::BF16(data) => data@.len(),
            BufView::I8(data) => data@.len(),
        }
    }

    /// The size of one element in bytes.
    pub open spec fn element_size(&self) -> nat {
        match self {
            BufView::F32(_) => 4,
            BufView::I32(_) => 4,
            BufView::U8(_) => 1,
            BufView::U16(_) => 2,
            BufView::U32(_) => 4,
            BufView::I64(_) => 8,
            BufView::F16(_) => 2,
            BufView::BF16(_) => 2,
            BufView::I8(_) => 1,
        }
    }

    /// The element type of the view.
    pub open spec fn spec_dtype(&self) -> DataTypeKind {
        match self {
            BufView::F32(_) => DataTypeKind::Float32(DataType::FLOAT32),
            BufView::I32(_) => DataTypeKind::Int32(DataType::INT32),
            BufView::U8(_) => DataTypeKind::UInt8(DataType::UINT8),
            BufView::U16(_) => DataTypeKind::UInt16(DataType::UINT16),
            BufView::U32(_) => DataTypeKind::UInt32(DataType::UINT32),
            BufView::I64(_) => DataTypeKind::Int64(DataType::INT64),
            BufView::F16(_) => DataTypeKind::Float16(DataType::FLOAT16),
            BufView::BF16(_) => DataTypeKind::BFloat16(DataType::BFLOAT16),
            BufView::I8(_) => DataTypeKind::Int8(DataType::INT8),
        }
    }

    pub fn len(&self) -> (n: usize)
        ensures
            n == self.spec_len(),
    {
        match self {
            BufView::F32(data) => data.len(),
            BufView::I32(data) => data.len(),
            BufView::U8(data) => data.len(),
            BufView::U16(data) => data.len(),
            BufView::U32(data) => data.len(),
            BufView::I64(data) => data.len(),
            BufView::F16(data) => data.len(),
            BufView::BF16(data) => data.len(),
            BufView::I8(data) => data.len(),
        }
    }

    pub fn num_bytes(&self) -> (n: usize)
        ensures
            n == self.spec_len() * self.element_size(),
    {
        broadcast use {layout_of_primitives, layout_of_slices};

        match self {
            BufView::F32(data) => core::mem::size_of_val::<[u32]>(*data),
            BufView::I32(data) => core::mem::size_of_val::<[i32]>(*data),
            BufView::U8(data) => core::mem::size_of_val::<[u8]>(*data),
            BufView::U16(data) => core::mem::size_of_val::<[u16]>(*data),
            BufView::U32(data) => core::mem::size_of_val::<[u32]>(*data),
            BufView::I64(data) => core::mem::size_of_val::<[i64]>(*data),
            BufView::F16(data) => core::mem::size_of_val::<[u16]>(*data),
            BufView::BF16(data) => core::mem::size_of_val::<[u16]>(*data),
            BufView::I8(data) => core::mem::size_of_val::<[i8]>(*data),
        }
    }

    pub fn dtype(&self) -> (kind: DataTypeKind)
        ensures
            kind == self.spec_dtype(),
    {
        match self {
            BufView::F32(_) => DataTypeKind::Float32(DataType::FLOAT32),
            BufView::I32(_) => DataTypeKind::Int32(DataType::INT32),
            BufView::U8(_) => DataTypeKind::UInt8(DataType::UINT8),
            BufView::U16(_) => DataTypeKind::UInt16(DataType::UINT16),
            BufView::U32(_) => DataTypeKind::UInt32(DataType::UINT32),
            BufView::I64(_) => DataTypeKind::Int64(DataType::INT64),
            BufView::F16(_) => DataTypeKind::Float16(DataType::FLOAT16),
            BufView::BF16(_) => DataTypeKind::BFloat16(DataType::BFLOAT16),
            BufView::I8(_) => DataTypeKind::Int8(DataType::INT8),
        }
    }
}

/// A buffer that the runtime allocated and owns: its address and its size in
/// bytes.
#[derive(Debug, Clone, Copy, PartialEq, Eq, Structural)]
pub struct RknnBuffer {
    pub ptr: usize,
    pub size: usize,
}

impl RknnBuffer {
    pub fn new(ptr: usize, size: usize) -> (buffer: Self)
        ensures
            buffer == (RknnBuffer { ptr, size }),
    {
        RknnBuffer { ptr, size }
    }
}

} // verus!
