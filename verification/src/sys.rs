//! Constants and records of the native protocol, as plain values.
//!
//! Enumerators of the runtime are 32-bit unsigned tags, return codes are
//! 32-bit signed integers, and a float field is carried as its IEEE-754 bit
//! pattern.

use vstd::prelude::*;

verus! {

// ───── return codes ─────────────────────────────────────────────────────────
pub const RKNN_SUCC: i32 = 0;

pub const RKNN_ERR_FAIL: i32 = -1;

pub const RKNN_ERR_TIMEOUT: i32 = -2;

pub const RKNN_ERR_DEVICE_UNAVAILABLE: i32 = -3;

pub const RKNN_ERR_MALLOC_FAIL: i32 = -4;

pub const RKNN_ERR_PARAM_INVALID: i32 = -5;

pub const RKNN_ERR_MODEL_INVALID: i32 = -6;

pub const RKNN_ERR_CTX_INVALID: i32 = -7;

pub const RKNN_ERR_INPUT_INVALID: i32 = -8;

pub const RKNN_ERR_OUTPUT_INVALID: i32 = -9;

pub const RKNN_ERR_DEVICE_UNMATCH: i32 = -10;

pub const RKNN_ERR_INCOMPATILE_PRE_COMPILE_MODEL: i32 = -11;

pub const RKNN_ERR_INCOMPATILE_OPTIMIZATION_LEVEL_VERSION: i32 = -12;

pub const RKNN_ERR_TARGET_PLATFORM_UNMATCH: i32 = -13;

// ───── init flags ───────────────────────────────────────────────────────────
pub const RKNN_FLAG_PRIOR_HIGH: u32 = 0x0000_0000;

pub const RKNN_FLAG_PRIOR_MEDIUM: u32 = 0x0000_0001;

pub const RKNN_FLAG_PRIOR_LOW: u32 = 0x0000_0002;

pub const RKNN_FLAG_ASYNC_MASK: u32 = 0x0000_0004;

pub const RKNN_FLAG_COLLECT_PERF_MASK: u32 = 0x0000_0008;

pub const RKNN_FLAG_MEM_ALLOC_OUTSIDE: u32 = 0x0000_0010;

pub const RKNN_FLAG_SHARE_WEIGHT_MEM: u32 = 0x0000_0020;

pub const RKNN_FLAG_FENCE_IN_OUTSIDE: u32 = 0x0000_0040;

pub const RKNN_FLAG_FENCE_OUT_OUTSIDE: u32 = 0x0000_0080;

pub const RKNN_FLAG_COLLECT_MODEL_INFO_ONLY: u32 = 0x0000_0100;

pub const RKNN_FLAG_INTERNAL_ALLOC_OUTSIDE: u32 = 0x0000_0200;

pub const RKNN_FLAG_EXECUTE_FALLBACK_PRIOR_DEVICE_GPU: u32 = 0x0000_0400;

pub const RKNN_FLAG_ENABLE_SRAM: u32 = 0x0000_0800;

pub const RKNN_FLAG_SHARE_SRAM: u32 = 0x0000_1000;

pub const RKNN_FLAG_DISABLE_PROC_HIGH_PRIORITY: u32 = 0x0000_2000;

pub const RKNN_FLAG_DISABLE_FLUSH_INPUT_MEM_CACHE: u32 = 0x0000_4000;

pub const RKNN_FLAG_DISABLE_FLUSH_OUTPUT_MEM_CACHE: u32 = 0x0000_8000;

pub const RKNN_FLAG_MODEL_BUFFER_ZERO_COPY: u32 = 0x0001_0000;

// ───── core mask ────────────────────────────────────────────────────────────
pub const RKNN_NPU_CORE_AUTO: u32 = 0;

pub const RKNN_NPU_CORE_0: u32 = 1;

pub const RKNN_NPU_CORE_1: u32 = 2;

pub const RKNN_NPU_CORE_2: u32 = 4;

pub const RKNN_NPU_CORE_0_1: u32 = 3;

pub const RKNN_NPU_CORE_0_1_2: u32 = 7;

pub const RKNN_NPU_CORE_ALL: u32 = 0xffff;

// ───── memory allocation flags ──────────────────────────────────────────────
pub const RKNN_FLAG_MEMORY_FLAGS_DEFAULT: u32 = 0;

pub const RKNN_FLAG_MEMORY_CACHEABLE: u32 = 1;

pub const RKNN_FLAG_MEMORY_NON_CACHEABLE: u32 = 2;

pub const RKNN_FLAG_MEMORY_TRY_ALLOC_SRAM: u32 = 4;

// ───── query commands ───────────────────────────────────────────────────────
pub const RKNN_QUERY_IN_OUT_NUM: u32 = 0;

pub const RKNN_QUERY_INPUT_ATTR: u32 = 1;

pub const RKNN_QUERY_OUTPUT_ATTR: u32 = 2;

pub const RKNN_QUERY_PERF_DETAIL: u32 = 3;

pub const RKNN_QUERY_PERF_RUN: u32 = 4;

pub const RKNN_QUERY_SDK_VERSION: u32 = 5;

pub const RKNN_QUERY_NATIVE_INPUT_ATTR: u32 = 8;

pub const RKNN_QUERY_NATIVE_OUTPUT_ATTR: u32 = 9;

pub const RKNN_QUERY_NATIVE_NC1HWC2_INPUT_ATTR: u32 = 8;

pub const RKNN_QUERY_NATIVE_NC1HWC2_OUTPUT_ATTR: u32 = 9;

pub const RKNN_QUERY_NATIVE_NHWC_INPUT_ATTR: u32 = 10;

pub const RKNN_QUERY_NATIVE_NHWC_OUTPUT_ATTR: u32 = 11;

// ───── tensor element types ─────────────────────────────────────────────────
pub const RKNN_TENSOR_FLOAT32: u32 = 0;

pub const RKNN_TENSOR_FLOAT16: u32 = 1;

pub const RKNN_TENSOR_INT8: u32 = 2;

pub const RKNN_TENSOR_UINT8: u32 = 3;

pub const RKNN_TENSOR_INT16: u32 = 4;

pub const RKNN_TENSOR_UINT16: u32 = 5;

pub const RKNN_TENSOR_INT32: u32 = 6;

pub const RKNN_TENSOR_UINT32: u32 = 7;

pub const RKNN_TENSOR_INT64: u32 = 8;

pub const RKNN_TENSOR_BOOL: u32 = 9;

pub const RKNN_TENSOR_INT4: u32 = 10;

pub const RKNN_TENSOR_BFLOAT16: u32 = 11;

pub const RKNN_TENSOR_TYPE_MAX: u32 = 12;

// ───── quantization kinds ───────────────────────────────────────────────────
pub const RKNN_TENSOR_QNT_NONE: u32 = 0;

pub const RKNN_TENSOR_QNT_DFP: u32 = 1;

pub const RKNN_TENSOR_QNT_AFFINE_ASYMMETRIC: u32 = 2;

// ───── tensor formats ───────────────────────────────────────────────────────
pub const RKNN_TENSOR_NCHW: u32 = 0;

pub const RKNN_TENSOR_NHWC: u32 = 1;

pub const RKNN_TENSOR_NC1HWC2: u32 = 2;

pub const RKNN_TENSOR_UNDEFINED: u32 = 3;

pub const RKNN_TENSOR_FORMAT_MAX: u32 = 4;

// ───── capacities of the fixed arrays ───────────────────────────────────────
pub const RKNN_MAX_DIMS: usize = 16;

pub const RKNN_MAX_NAME_LEN: usize = 256;

// ───── records ──────────────────────────────────────────────────────────────
/// Where the buffer of an input or output descriptor lies.
#[derive(Debug, Clone, Copy, PartialEq, Eq, Structural)]
pub enum BufferRef {
    /// Nowhere: the descriptor holds a null pointer.
    Null,
    /// In the memory of the value that the descriptor was made from, a
    /// borrowed slice or a tensor's own storage. The caller takes its address
    /// when it makes the native call.
    Own,
    /// At the given address.
    Addr(usize),
}

impl BufferRef {
    /// The address held: that of `Addr`, and zero where none is known.
    pub open spec fn address(self) -> usize {
        match self {
            BufferRef::Addr(a) => a,
            _ => 0,
        }
    }

    /// Gives the address held, zero where none is known.
    pub fn addr(self) -> (a: usize)
        ensures
            a == self.address(),
    {
        match self {
            BufferRef::Addr(a) => a,
            _ => 0,
        }
    }
}

/// The descriptor of one input, as the runtime takes it.
#[derive(Debug, Clone, Copy, PartialEq, Eq, Structural)]
pub struct RknnInput {
    /// Index of the input
    pub index: u32,
    /// The input data
    pub buf: BufferRef,
    /// Size of the input data in bytes
    pub size: u32,
    /// Nonzero: the data goes to the model as it is
    pub pass_through: u8,
    /// Tag of the element type
    pub type_: u32,
    /// Tag of the format
    pub fmt: u32,
}

/// The descriptor of one output, as the runtime takes and fills it.
#[derive(Debug, Clone, Copy, PartialEq, Eq, Structural)]
pub struct RknnOutput {
    /// Nonzero: the output is wanted as 32-bit floats
    pub want_float: u8,
    /// Nonzero: the buffer is supplied by the caller
    pub is_prealloc: u8,
    /// Index of the output
    pub index: u32,
    /// The output data
    pub buf: BufferRef,
    /// Size of the output data in bytes
    pub size: u32,
}

/// The number of inputs and outputs of a model.
#[derive(Debug, Clone, Copy, PartialEq, Eq, Structural)]
pub struct RknnInputOutputNum {
    pub n_input: u32,
    pub n_output: u32,
}

/// The attributes of one input or output of a model.
#[derive(Debug, Clone, Copy)]
pub struct RknnTensorAttr {
    /// Index of the tensor
    pub index: u32,
    /// How many entries of `dims` are in use
    pub n_dims: u32,
    /// The dimensions
    pub dims: [u32; RKNN_MAX_DIMS],
    /// The name, ended by a zero byte
    pub name: [u8; RKNN_MAX_NAME_LEN],
    /// Number of elements
    pub n_elems: u32,
    /// Size in bytes
    pub size: u32,
    /// Tag of the format
    pub fmt: u32,
    /// Tag of the element type
    pub type_: u32,
    /// Tag of the quantization kind
    pub qnt_type: u32,
    /// Fractional length of a dynamic fixed point tensor
    pub fl: i8,
    /// Zero point of an affine asymmetric tensor
    pub zp: i32,
    /// Scale of an affine asymmetric tensor, as the bit pattern of a 32-bit
    /// float
    pub scale: u32,
    /// Pixels per row, padding included
    pub w_stride: u32,
    /// Size in bytes, padding included
    pub size_with_stride: u32,
    /// Nonzero: the data goes to the model as it is
    pub pass_through: u8,
    /// Rows per image, padding included; zero where it is the height
    pub h_stride: u32,
}

/// The versions of the runtime and of the driver.
#[derive(Debug, Clone, Copy)]
pub struct RknnSdkVersion {
    /// Version of the runtime, ended by a zero byte
    pub api_version: [u8; RKNN_MAX_NAME_LEN],
    /// Version of the driver, ended by a zero byte
    pub drv_version: [u8; RKNN_MAX_NAME_LEN],
}

/// The duration of one inference.
#[derive(Debug, Clone, Copy, PartialEq, Eq, Structural)]
pub struct RknnPerfRun {
    /// Duration in microseconds
    pub run_duration: i64,
}

/// The per-layer report of one inference.
#[derive(Debug)]
pub struct RknnPerfDetail {
    /// The text of the report, where the runtime gave one
    pub perf_data: Option<String>,
    /// Length of the report in bytes
    pub data_len: u64,
}

impl Clone for RknnPerfDetail {
    fn clone(&self) -> (res: Self)
        ensures
            res.data_len == self.data_len,
            res.perf_data is Some == self.perf_data is Some,
            res.perf_data is Some ==> res.perf_data->0@ == self.perf_data->0@,
    {
        RknnPerfDetail {
            perf_data: match &self.perf_data {
                Some(text) => Some(text.clone()),
                None => None,
            },
            data_len: self.data_len,
        }
    }
}

} // verus!
