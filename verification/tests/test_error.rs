use rknpu2::error::Error;

#[test]
fn error_from_known_codes() {
    assert_eq!(Error::from(-1), Error::Fail);
    assert_eq!(Error::from(-2), Error::Timeout);
    assert_eq!(Error::from(-3), Error::DeviceUnavailable);
    assert_eq!(Error::from(-4), Error::MallocFailed);
    assert_eq!(Error::from(-5), Error::ParamInvalid);
    assert_eq!(Error::from(-6), Error::ModelInvalid);
    assert_eq!(Error::from(-7), Error::CtxInvalid);
    assert_eq!(Error::from(-8), Error::InputInvalid);
    assert_eq!(Error::from(-9), Error::OutputInvalid);
    assert_eq!(Error::from(-10), Error::DeviceUnmatch);
    assert_eq!(Error::from(-11), Error::IncompatiblePreCompiledModel);
    assert_eq!(Error::from(-12), Error::IncompatibleOptimizationLevelVersion);
    assert_eq!(Error::from(-13), Error::TargetPlatformUnmatch);
}

#[test]
fn error_from_unknown_code_is_fail() {
    assert_eq!(Error::from(-14), Error::Fail);
    assert_eq!(Error::from(7), Error::Fail);
    assert_eq!(Error::from(i32::MIN), Error::Fail);
}

#[test]
fn check_accepts_zero_only() {
    assert_eq!(Error::check(0), Ok(()));
    assert_eq!(Error::check(-2), Err(Error::Timeout));
    assert_eq!(Error::check(1), Err(Error::Fail));
}

#[test]
fn error_texts() {
    assert_eq!(Error::Fail.to_string(), "Execution error");
    assert_eq!(Error::Timeout.to_string(), "Execution timeout");
    assert_eq!(Error::DeviceUnavailable.to_string(), "NPU Device unavailable");
    assert_eq!(Error::MallocFailed.to_string(), "Memory allocation failed");
    assert_eq!(Error::ParamInvalid.to_string(), "Parameter error");
    assert_eq!(Error::ModelInvalid.to_string(), "RKNN model is invalid");
    assert_eq!(Error::CtxInvalid.to_string(), "Context is invalid");
    assert_eq!(Error::InputInvalid.to_string(), "Input is invalid");
    assert_eq!(Error::OutputInvalid.to_string(), "Output is invalid");
    assert_eq!(Error::DeviceUnmatch.to_string(), "Version does not match");
    assert_eq!(
        Error::TargetPlatformUnmatch.to_string(),
        "RKNN model isn't compatible with the target platform"
    );
    assert_eq!(
        Error::IncompatibleOptimizationLevelVersion.to_string(),
        "RKNN model uses an optimization level mode that is not compatible with the target platform"
    );
    assert_eq!(
        Error::IncompatiblePreCompiledModel.to_string(),
        "RKNN model uses a pre-compiled model that is not compatible with the target platform"
    );
}

#[test]
fn errors_from_codes_keep_their_texts() {
    assert_eq!(Error::from(-2).to_string(), "Execution timeout");
    assert_eq!(Error::from(-99).to_string(), "Execution error");
}

#[test]
fn mismatch_texts_render_numbers_in_decimal() {
    let e = Error::TensorTypeMismatch { expected: 2, actual: 0 };
    assert_eq!(e.to_string(), "Tensor type mismatch: expected 2, actual 0");
    let e = Error::SizeMismatch { expected: 1000, actual: 1001 };
    assert_eq!(e.to_string(), "Size mismatch: expected 1000, actual 1001");
    let e = Error::SizeMismatch { expected: 0, actual: usize::MAX };
    assert_eq!(
        e.to_string(),
        format!("Size mismatch: expected 0, actual {}", usize::MAX)
    );
}
