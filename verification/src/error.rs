//! Error taxonomy of the runtime, and the translation of native return codes.

use crate::sys::{
    RKNN_ERR_CTX_INVALID, RKNN_ERR_DEVICE_UNAVAILABLE, RKNN_ERR_DEVICE_UNMATCH, RKNN_ERR_FAIL,
    RKNN_ERR_INCOMPATILE_OPTIMIZATION_LEVEL_VERSION, RKNN_ERR_INCOMPATILE_PRE_COMPILE_MODEL,
    RKNN_ERR_INPUT_INVALID, RKNN_ERR_MALLOC_FAIL, RKNN_ERR_MODEL_INVALID, RKNN_ERR_OUTPUT_INVALID,
    RKNN_ERR_PARAM_INVALID, RKNN_ERR_TARGET_PLATFORM_UNMATCH, RKNN_ERR_TIMEOUT, RKNN_SUCC,
};
use crate::text::{decimal, push_decimal};
use vstd::prelude::*;

verus! {

#[allow(inconsistent_fields)]
#[derive(Debug, Clone, Copy, PartialEq, Eq, Structural)]
pub enum Error {
    /// Execution error
    Fail,
    /// Execution timeout
    Timeout,
    /// NPU Device unavailable
    DeviceUnavailable,
    /// Memory allocation failed
    MallocFailed,
    /// Parameter error
    ParamInvalid,
    /// RKNN model is invalid
    ModelInvalid,
    /// Context is invalid
    CtxInvalid,
    /// Input is invalid
    InputInvalid,
    /// Output is invalid
    OutputInvalid,
    /// Version does not match
    DeviceUnmatch,
    /// RKNN model uses an optimization level mode
    /// that is not compatible with the target platform
    IncompatibleOptimizationLevelVersion,
    /// RKNN model isn't compatible with the target platform
    TargetPlatformUnmatch,
    /// RKNN model uses a pre-compiled model
    /// that is not compatible with the target platform
    IncompatiblePreCompiledModel,
    /// The element type of a tensor is not the one the model declares;
    /// `expected` is the model's type tag, `actual` the requested one
    TensorTypeMismatch { expected: u32, actual: u32 },
    /// The number of elements handed in is not the tensor's
    SizeMismatch { expected: usize, actual: usize },
    /// The runtime's allocator returned a null pointer
    NullPointer,
}

impl Error {
    /// The error that a native return code stands for. Codes outside the
    /// documented set count as a plain execution failure.
    pub open spec fn of_code(code: i32) -> Error {
        if code == RKNN_ERR_FAIL {
            Error::Fail
        } else if code == RKNN_ERR_TIMEOUT {
            Error::Timeout
        } else if code == RKNN_ERR_DEVICE_UNAVAILABLE {
            Error::DeviceUnavailable
        } else if code == RKNN_ERR_MALLOC_FAIL {
            Error::MallocFailed
        } else if code == RKNN_ERR_PARAM_INVALID {
            Error::ParamInvalid
        } else if code == RKNN_ERR_MODEL_INVALID {
            Error::ModelInvalid
        } else if code == RKNN_ERR_CTX_INVALID {
            Error::CtxInvalid
        } else if code == RKNN_ERR_INPUT_INVALID {
            Error::InputInvalid
        } else if code == RKNN_ERR_OUTPUT_INVALID {
            Error::OutputInvalid
        } else if code == RKNN_ERR_DEVICE_UNMATCH {
            Error::DeviceUnmatch
        } else if code == RKNN_ERR_INCOMPATILE_OPTIMIZATION_LEVEL_VERSION {
            Error::IncompatibleOptimizationLevelVersion
        } else if code == RKNN_ERR_INCOMPATILE_PRE_COMPILE_MODEL {
            Error::IncompatiblePreCompiledModel
        } else if code == RKNN_ERR_TARGET_PLATFORM_UNMATCH {
            Error::TargetPlatformUnmatch
        } else {
            Error::Fail
        }
    }

    /// The text shown to a user for this error.
    pub open spec fn message(self) -> Seq<char> {
        match self {
            Error::Fail => "Execution error"@,
            Error::Timeout => "Execution timeout"@,
            Error::DeviceUnavailable => "NPU Device unavailable"@,
            Error::MallocFailed => "Memory allocation failed"@,
            Error::ParamInvalid => "Parameter error"@,
            Error::ModelInvalid => "RKNN model is invalid"@,
            Error::CtxInvalid => "Context is invalid"@,
            Error::InputInvalid => "Input is invalid"@,
            Error::OutputInvalid => "Output is invalid"@,
            Error::DeviceUnmatch => "Version does not match"@,
            Error::IncompatibleOptimizationLevelVersion => "RKNN model uses an optimization level mode that is not compatible with the target platform"@,
            Error::IncompatiblePreCompiledModel => "RKNN model uses a pre-compiled model that is not compatible with the target platform"@,
            Error::TargetPlatformUnmatch => "RKNN model isn't compatible with the target platform"@,
            Error::TensorTypeMismatch { expected, actual } => "Tensor type mismatch: expected "@
                + decimal(expected as nat) + ", actual "@ + decimal(actual as nat),
            Error::SizeMismatch { expected, actual } => "Size mismatch: expected "@ + decimal(
                expected as nat,
            ) + ", actual "@ + decimal(actual as nat),
            Error::NullPointer => "Null pointer returned by the allocator"@,
        }
    }

    /// Renders the error as the text shown to a user.
    pub fn to_string(&self) -> (text: String)
        ensures
            text@ == self.message(),
    {
        match self {
            Error::Fail => String::from_str("Execution error"),
            Error::Timeout => String::from_str("Execution timeout"),
            Error::DeviceUnavailable => String::from_str("NPU Device unavailable"),
            Error::MallocFailed => String::from_str("Memory allocation failed"),
            Error::ParamInvalid => String::from_str("Parameter error"),
            Error::ModelInvalid => String::from_str("RKNN model is invalid"),
            Error::CtxInvalid => String::from_str("Context is invalid"),
            Error::InputInvalid => String::from_str("Input is invalid"),
            Error::OutputInvalid => String::from_str("Output is invalid"),
            Error::DeviceUnmatch => String::from_str("Version does not match"),
            Error::IncompatibleOptimizationLevelVersion => String::from_str(
                "RKNN model uses an optimization level mode that is not compatible with the target platform",
            ),
            Error::IncompatiblePreCompiledModel => String::from_str(
                "RKNN model uses a pre-compiled model that is not compatible with the target platform",
            ),
            Error::TargetPlatformUnmatch => String::from_str(
                "RKNN model isn't compatible with the target platform",
            ),
            Error::TensorTypeMismatch { expected, actual } => {
                let mut text = String::from_str("Tensor type mismatch: expected ");
                push_decimal(&mut text, *expected as u64);
                text.append(", actual ");
                push_decimal(&mut text, *actual as u64);
                text
            },
            Error::SizeMismatch { expected, actual } => {
                let mut text = String::from_str("Size mismatch: expected ");
                push_decimal(&mut text, *expected as u64);
                text.append(", actual ");
                push_decimal(&mut text, *actual as u64);
                text
            },
            Error::NullPointer => String::from_str("Null pointer returned by the allocator"),
        }
    }

    /// Checks a native return code: zero is success, anything else is the
    /// error it stands for.
    pub fn check(code: i32) -> (r: Result<(), Error>)
        ensures
            code == RKNN_SUCC ==> r == Ok::<(), Error>(()),
            code != RKNN_SUCC ==> r == Err::<(), Error>(Error::of_code(code)),
    {
        if code != RKNN_SUCC {
            return Err(Error::from(code));
        }
        Ok(())
    }
}

impl From<i32> for Error {
    fn from(err: i32) -> (e: Self) {
        if err == RKNN_ERR_FAIL {
            Error::Fail
        } else if err == RKNN_ERR_TIMEOUT {
            Error::Timeout
        } else if err == RKNN_ERR_DEVICE_UNAVAILABLE {
            Error::DeviceUnavailable
        } else if err == RKNN_ERR_MALLOC_FAIL {
            Error::MallocFailed
        } else if err == RKNN_ERR_PARAM_INVALID {
            Error::ParamInvalid
        } else if err == RKNN_ERR_MODEL_INVALID {
            Error::ModelInvalid
        } else if err == RKNN_ERR_CTX_INVALID {
            Error::CtxInvalid
        } else if err == RKNN_ERR_INPUT_INVALID {
            Error::InputInvalid
        } else if err == RKNN_ERR_OUTPUT_INVALID {
            Error::OutputInvalid
        } else if err == RKNN_ERR_DEVICE_UNMATCH {
            Error::DeviceUnmatch
        } else if err == RKNN_ERR_INCOMPATILE_OPTIMIZATION_LEVEL_VERSION {
            Error::IncompatibleOptimizationLevelVersion
        } else if err == RKNN_ERR_INCOMPATILE_PRE_COMPILE_MODEL {
            Error::IncompatiblePreCompiledModel
        } else if err == RKNN_ERR_TARGET_PLATFORM_UNMATCH {
            Error::TargetPlatformUnmatch
        } else {
            Error::Fail
        }
    }
}

impl vstd::std_specs::convert::FromSpecImpl<i32> for Error {
    open spec fn obeys_from_spec() -> bool {
        true
    }

    open spec fn from_spec(err: i32) -> Error {
        Error::of_code(err)
    }
}

} // verus!
