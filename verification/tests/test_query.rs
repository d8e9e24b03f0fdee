use rknpu2::query::{
    InputAttr, InputOutputNum, Io, NativeInputAttr, NativeNC1HWC2InputAttr,
    NativeNC1HWC2OutputAttr, NativeNHWCInputAttr, NativeNHWCOutputAttr, NativeOutputAttr,
    OutputAttr, PerfDetail, PerfRun, Query, QueryWithInput, SdkVersion, TensorAttrView,
};
use rknpu2::sys::{
    RknnInputOutputNum, RknnPerfDetail, RknnPerfRun, RknnSdkVersion, RknnTensorAttr,
};
use rknpu2::tensor::{
    DataType, DataTypeKind, F32Bits, QuantType, QuantTypeKind, TensorFormat, TensorFormatKind,
};

fn name_bytes(name: &[u8]) -> [u8; 256] {
    let mut bytes = [0u8; 256];
    bytes[..name.len()].copy_from_slice(name);
    bytes
}

fn dims(values: &[u32]) -> [u32; 16] {
    let mut dims = [0u32; 16];
    dims[..values.len()].copy_from_slice(values);
    dims
}

// what the runtime answers for the input of a MobileNet-class classifier
fn mobilenet_input() -> RknnTensorAttr {
    RknnTensorAttr {
        index: 0,
        n_dims: 4,
        dims: dims(&[1, 224, 224, 3]),
        name: name_bytes(b"input"),
        n_elems: 150528,
        size: 150528,
        fmt: TensorFormat::NHWC,
        type_: DataType::INT8,
        qnt_type: QuantType::QNT_AFFINE_ASYMMETRIC,
        fl: 0,
        zp: -14,
        scale: 0.018658448f32.to_bits(),
        w_stride: 224,
        size_with_stride: 150528,
        pass_through: 0,
        h_stride: 224,
    }
}

// and for its output
fn mobilenet_output() -> RknnTensorAttr {
    RknnTensorAttr {
        index: 0,
        n_dims: 2,
        dims: dims(&[1, 1000]),
        name: name_bytes(b"output"),
        n_elems: 1000,
        size: 1000,
        fmt: TensorFormat::UNDEFINED,
        type_: DataType::INT8,
        qnt_type: QuantType::QNT_AFFINE_ASYMMETRIC,
        fl: 0,
        zp: -55,
        scale: 0.14f32.to_bits(),
        w_stride: 0,
        size_with_stride: 1000,
        pass_through: 0,
        h_stride: 0,
    }
}

#[test]
fn query_commands() {
    assert_eq!(<InputOutputNum as Query>::QUERY_TYPE, 0);
    assert_eq!(<InputAttr as QueryWithInput>::QUERY_TYPE, 1);
    assert_eq!(<OutputAttr as QueryWithInput>::QUERY_TYPE, 2);
    assert_eq!(<PerfDetail as Query>::QUERY_TYPE, 3);
    assert_eq!(<PerfRun as Query>::QUERY_TYPE, 4);
    assert_eq!(<SdkVersion as Query>::QUERY_TYPE, 5);
    assert_eq!(<NativeInputAttr as QueryWithInput>::QUERY_TYPE, 8);
    assert_eq!(<NativeOutputAttr as QueryWithInput>::QUERY_TYPE, 9);
    assert_eq!(<NativeNC1HWC2InputAttr as QueryWithInput>::QUERY_TYPE, 8);
    assert_eq!(<NativeNC1HWC2OutputAttr as QueryWithInput>::QUERY_TYPE, 9);
    assert_eq!(<NativeNHWCInputAttr as QueryWithInput>::QUERY_TYPE, 10);
    assert_eq!(<NativeNHWCOutputAttr as QueryWithInput>::QUERY_TYPE, 11);
}

#[test]
fn prepare_writes_the_index_asked_for() {
    let mut record = mobilenet_output();
    record.index = 0;
    <OutputAttr as QueryWithInput>::prepare(3, &mut record);
    assert_eq!(record.index, 3);
    assert_eq!(record.n_elems, 1000);
    <InputAttr as QueryWithInput>::prepare(7, &mut record);
    assert_eq!(record.index, 7);
    <NativeNHWCInputAttr as QueryWithInput>::prepare(1, &mut record);
    assert_eq!(record.index, 1);
    <NativeNHWCOutputAttr as QueryWithInput>::prepare(2, &mut record);
    assert_eq!(record.index, 2);
    <NativeNC1HWC2InputAttr as QueryWithInput>::prepare(4, &mut record);
    assert_eq!(record.index, 4);
    <NativeNC1HWC2OutputAttr as QueryWithInput>::prepare(5, &mut record);
    assert_eq!(record.index, 5);
    assert_eq!(record.dims, dims(&[1, 1000]));
}

#[test]
fn io_directions() {
    assert!(Io::Input.is_input());
    assert!(!Io::Input.is_output());
    assert!(Io::Output.is_output());
    assert!(!Io::Output.is_input());
    assert_eq!(Io::Input.to_string(), "Input");
    assert_eq!(Io::Output.to_string(), "Output");
    assert_eq!(Io::Input.attr_query(), 1);
    assert_eq!(Io::Output.attr_query(), 2);
}

#[test]
fn test_input_output_num() {
    let io_num = InputOutputNum::from(RknnInputOutputNum {
        n_input: 1,
        n_output: 1,
    });

    assert_eq!(io_num.input_num(), 1);
    assert_eq!(io_num.output_num(), 1);
}

#[test]
fn input_output_num_keeps_the_two_apart() {
    let io_num = InputOutputNum::from(RknnInputOutputNum {
        n_input: 3,
        n_output: 5,
    });
    assert_eq!(io_num.input_num(), 3);
    assert_eq!(io_num.output_num(), 5);
}

#[test]
fn test_sdk_version() {
    let sdk_version = SdkVersion::from(RknnSdkVersion {
        api_version: name_bytes(b"2.3.0 (c949ad889d@2024-11-07T11:35:33)"),
        drv_version: name_bytes(b"0.9.8"),
    });

    assert!(!sdk_version.api_version().is_empty());
    assert!(!sdk_version.driver_version().is_empty());
    assert_eq!(
        sdk_version.api_version(),
        "2.3.0 (c949ad889d@2024-11-07T11:35:33)"
    );
    assert_eq!(sdk_version.driver_version(), "0.9.8");
}

#[test]
fn sdk_versions_are_decoded_lossily_where_invalid() {
    let raw = b"2.3\xfe.0";
    let sdk_version = SdkVersion::from(RknnSdkVersion {
        api_version: name_bytes(raw),
        drv_version: name_bytes("v0.9-β".as_bytes()),
    });
    assert_eq!(sdk_version.api_version(), "2.3\u{fffd}.0");
    assert_eq!(
        sdk_version.api_version(),
        String::from_utf8_lossy(raw).into_owned()
    );
    assert_eq!(sdk_version.driver_version(), "v0.9-β");
    let empty = SdkVersion::from(RknnSdkVersion {
        api_version: [0u8; 256],
        drv_version: [b'9'; 256],
    });
    assert_eq!(empty.api_version(), "");
    assert_eq!(empty.driver_version(), "9".repeat(256));
}

#[test]
fn test_input_attr() {
    let input_attr = InputAttr::from(mobilenet_input());

    assert_eq!(input_attr.dims(), &[1, 224, 224, 3]);
    assert!(!input_attr.name().is_empty());
    assert_eq!(input_attr.dtype(), DataTypeKind::Int8(DataType::INT8));
}

#[test]
fn test_output_attr() {
    let output_attr = OutputAttr::from(mobilenet_output());

    assert_eq!(output_attr.dims(), &[1, 1000]);
    assert!(!output_attr.name().is_empty());
    assert_eq!(output_attr.dtype(), DataTypeKind::Int8(DataType::INT8));
    assert_eq!(
        output_attr.qnt_type(),
        QuantTypeKind::AffineAsymmetric(QuantType::QNT_AFFINE_ASYMMETRIC)
    );
}

#[test]
fn test_native_input_attr() {
    let native_input_attr = NativeInputAttr::from(mobilenet_input());

    assert_eq!(native_input_attr.dims(), &[1, 224, 224, 3]);
    assert!(!native_input_attr.name().is_empty());
    assert_eq!(
        native_input_attr.dtype(),
        DataTypeKind::Int8(DataType::INT8)
    );
    assert_eq!(
        native_input_attr.qnt_type(),
        QuantTypeKind::AffineAsymmetric(QuantType::QNT_AFFINE_ASYMMETRIC)
    );
}

#[test]
fn test_native_output_attr() {
    let native_output_attr = NativeOutputAttr::from(mobilenet_output());

    assert_eq!(native_output_attr.dims(), &[1, 1000]);
    assert!(!native_output_attr.name().is_empty());
    assert_eq!(
        native_output_attr.dtype(),
        DataTypeKind::Int8(DataType::INT8)
    );
    assert_eq!(
        native_output_attr.qnt_type(),
        QuantTypeKind::AffineAsymmetric(QuantType::QNT_AFFINE_ASYMMETRIC)
    );
}

#[test]
fn test_native_nhwc_input_attr() {
    let native_nhwc_input_attr = NativeNHWCInputAttr::from(mobilenet_input());

    assert_eq!(native_nhwc_input_attr.dims(), &[1, 224, 224, 3]);
    assert!(!native_nhwc_input_attr.name().is_empty());
    assert_eq!(
        native_nhwc_input_attr.dtype(),
        DataTypeKind::Int8(DataType::INT8)
    );
    assert_eq!(
        native_nhwc_input_attr.qnt_type(),
        QuantTypeKind::AffineAsymmetric(QuantType::QNT_AFFINE_ASYMMETRIC)
    );
}

#[test]
fn test_native_nhwc_output_attr() {
    let native_nhwc_output_attr = NativeNHWCOutputAttr::from(mobilenet_output());

    assert_eq!(native_nhwc_output_attr.dims(), &[1, 1000]);
    assert!(!native_nhwc_output_attr.name().is_empty());
    assert_eq!(
        native_nhwc_output_attr.dtype(),
        DataTypeKind::Int8(DataType::INT8)
    );
    assert_eq!(
        native_nhwc_output_attr.qnt_type(),
        QuantTypeKind::AffineAsymmetric(QuantType::QNT_AFFINE_ASYMMETRIC)
    );
}

#[test]
fn attr_view_shows_every_field() {
    let view = InputAttr::from(mobilenet_input());
    assert_eq!(view.io(), Io::Input);
    assert_eq!(view.index(), 0);
    assert_eq!(view.name(), "input");
    assert_eq!(view.num_dims(), 4);
    assert_eq!(view.format(), TensorFormatKind::NHWC(TensorFormat::NHWC));
    assert_eq!(view.num_elements(), 150528);
    assert_eq!(view.size(), 150528);
    assert_eq!(view.size_with_stride(), 150528);
    assert_eq!(view.scale(), F32Bits(0.018658448f32.to_bits()));
    assert_eq!(f32::from_bits(view.scale().0), 0.018658448f32);
    assert_eq!(view.zero_point(), -14);
    assert_eq!(view.fl(), 0);
    assert_eq!(view.w_stride(), 224);
    assert_eq!(view.h_stride(), 224);

    assert_eq!(OutputAttr::from(mobilenet_output()).io(), Io::Output);
    assert_eq!(NativeNHWCInputAttr::from(mobilenet_input()).io(), Io::Input);
    assert_eq!(NativeInputAttr::from(mobilenet_input()).io(), Io::Input);
    assert_eq!(NativeOutputAttr::from(mobilenet_output()).io(), Io::Output);
    assert_eq!(
        NativeNHWCOutputAttr::from(mobilenet_output()).io(),
        Io::Output
    );
    assert_eq!(OutputAttr::from(mobilenet_output()).name(), "output");
    assert_eq!(OutputAttr::from(mobilenet_output()).zero_point(), -55);
}

#[test]
fn native_nc1hwc2_attrs_show_every_field() {
    let mut record = mobilenet_input();
    record.n_dims = 5;
    record.dims = dims(&[1, 1, 224, 224, 16]);
    record.fmt = TensorFormat::NC1HWC2;
    record.fl = -3;
    record.index = 2;
    let input = NativeNC1HWC2InputAttr::from(record);
    assert_eq!(input.index(), 2);
    assert_eq!(input.num_dims(), 5);
    assert_eq!(input.dims(), &[1, 1, 224, 224, 16]);
    assert_eq!(input.name(), "input");
    assert_eq!(input.num_elements(), 150528);
    assert_eq!(input.size(), 150528);
    assert_eq!(
        input.format(),
        TensorFormatKind::NC1HWC2(TensorFormat::NC1HWC2)
    );
    assert_eq!(input.dtype(), DataTypeKind::Int8(DataType::INT8));
    assert_eq!(
        input.qnt_type(),
        QuantTypeKind::AffineAsymmetric(QuantType::QNT_AFFINE_ASYMMETRIC)
    );
    assert_eq!(input.dfp_param(), -3);
    assert_eq!(
        input.affine_asymmetric_param(),
        F32Bits(0.018658448f32.to_bits())
    );
    assert_eq!(input.w_stride(), 224);
    assert_eq!(input.size_with_stride(), 150528);

    let output = NativeNC1HWC2OutputAttr::from(mobilenet_output());
    assert_eq!(output.index(), 0);
    assert_eq!(output.num_dims(), 2);
    assert_eq!(output.dims(), &[1, 1000]);
    assert_eq!(output.name(), "output");
    assert_eq!(output.num_elements(), 1000);
    assert_eq!(output.size(), 1000);
    assert_eq!(output.format(), TensorFormatKind::UNDEFINED(3));
    assert_eq!(output.dtype(), DataTypeKind::Int8(2));
    assert_eq!(output.dfp_param(), 0);
    assert_eq!(output.affine_asymmetric_param(), F32Bits(0.14f32.to_bits()));
    assert_eq!(output.w_stride(), 0);
    assert_eq!(output.size_with_stride(), 1000);
}

#[test]
fn dims_are_cut_to_the_number_in_use() {
    let mut record = mobilenet_input();
    record.dims = dims(&[1, 2, 3, 4, 5, 6]);
    record.n_dims = 0;
    assert!(record.is_wf());
    assert_eq!(InputAttr::from(record).dims(), &[] as &[u32]);
    record.n_dims = 3;
    assert_eq!(InputAttr::from(record).dims(), &[1, 2, 3]);
    record.n_dims = 16;
    assert!(record.is_wf());
    assert_eq!(InputAttr::from(record).dims().len(), 16);
    assert!(record.has_valid_dims());
    record.n_dims = 17;
    assert!(!record.has_valid_dims());
    assert!(!record.is_wf());
}

#[test]
fn records_with_less_room_than_data_are_not_well_formed() {
    let mut record = mobilenet_input();
    assert!(record.is_wf());
    record.size_with_stride = record.size + 64;
    assert!(record.is_wf());
    record.size_with_stride = record.size - 1;
    assert!(!record.is_wf());
    assert!(record.has_valid_dims());
    assert_eq!(InputAttr::from(record).dims(), &[1, 224, 224, 3]);
}

#[test]
fn names_stop_at_the_first_terminator() {
    let mut record = mobilenet_input();
    record.name = name_bytes(b"conv1\0garbage");
    assert_eq!(InputAttr::from(record).name(), "conv1");
    record.name = [0u8; 256];
    assert_eq!(InputAttr::from(record).name(), "");
    record.name = [b'a'; 256];
    assert_eq!(InputAttr::from(record).name(), "a".repeat(256));
}

#[test]
fn names_are_decoded_as_utf8() {
    let mut record = mobilenet_input();
    record.name = name_bytes("größe/输入".as_bytes());
    assert_eq!(InputAttr::from(record).name(), "größe/输入");
}

#[test]
fn invalid_names_are_decoded_lossily() {
    let mut record = mobilenet_input();
    let raw = b"in\xffput\xc3";
    record.name = name_bytes(raw);
    let name = InputAttr::from(record).name();
    assert_eq!(name, String::from_utf8_lossy(raw).into_owned());
    assert_eq!(name, "in\u{fffd}put\u{fffd}");
}

#[test]
fn perf_run_duration() {
    let run = PerfRun::from(RknnPerfRun { run_duration: 2394 });
    assert_eq!(run.run_duration(), 2394);
    assert!(run.run_duration() > 0);
}

#[test]
fn test_perf_detail() {
    let perf_run = PerfRun::from(RknnPerfRun { run_duration: 1871 });
    assert!(perf_run.run_duration() > 0);

    let text = "ID   OpType   Time(us)\n1    Conv     312\n";
    let perf_detail = PerfDetail::from(RknnPerfDetail {
        perf_data: Some(text.to_string()),
        data_len: text.len() as u64,
    });
    assert!(perf_detail.details().len() > 0);
    assert_eq!(perf_detail.details(), text);
}

#[test]
fn perf_detail_without_text_is_empty() {
    let none = PerfDetail::from(RknnPerfDetail {
        perf_data: None,
        data_len: 12,
    });
    assert_eq!(none.details(), "");
    let zero = PerfDetail::from(RknnPerfDetail {
        perf_data: Some("left over".to_string()),
        data_len: 0,
    });
    assert_eq!(zero.details(), "");
}
