use rknpu2::error::Error;
use rknpu2::io::buffer::{BufMutView, BufView, RknnBuffer};
use rknpu2::io::input::{Input, IntoInputs};
use rknpu2::io::output::{Output, OutputKind};
use rknpu2::rknn::{finish_outputs, prepare_inputs, prepare_outputs};
use rknpu2::sys::{BufferRef, RknnInput, RknnOutput};
use rknpu2::tensor::{TensorFormat, TensorFormatKind};

#[test]
fn input_new_keeps_its_parts() {
    let data = vec![1u8, 2, 3];
    let input = Input::new(
        2,
        BufView::U8(&data),
        true,
        TensorFormatKind::NCHW(TensorFormat::NCHW),
    );
    assert_eq!(input.index, 2);
    assert_eq!(input.buffer.len(), 3);
    assert!(input.pass_through);
    assert_eq!(input.fmt, TensorFormatKind::NCHW(TensorFormat::NCHW));
}

#[test]
fn input_marshals_into_native_descriptor() {
    let data = vec![0i8; 224 * 224 * 3];
    let input = Input::new(
        0,
        BufView::I8(&data),
        false,
        TensorFormatKind::NHWC(TensorFormat::NHWC),
    );
    assert_eq!(
        input.as_sys_input(),
        RknnInput {
            index: 0,
            buf: BufferRef::Own,
            size: 150528,
            pass_through: 0,
            type_: 2,
            fmt: 1,
        }
    );
}

#[test]
fn input_pass_through_and_float_kinds() {
    let data = vec![0u16; 10];
    let input = Input::new(
        3,
        BufView::F16(&data),
        true,
        TensorFormatKind::Other(77),
    );
    let sys = input.as_sys_input();
    assert_eq!(sys.index, 3);
    assert_eq!(sys.size, 20);
    assert_eq!(sys.pass_through, 1);
    assert_eq!(sys.type_, 1);
    assert_eq!(sys.fmt, 77);
}

#[test]
fn single_input_and_vec_become_inputs() {
    let a = vec![0u8; 4];
    let b = vec![0u32; 4];
    let one = Input::new(0, BufView::U8(&a), false, TensorFormatKind::NHWC(1));
    assert_eq!(one.into_inputs().len(), 1);
    let two = vec![
        Input::new(0, BufView::U8(&a), false, TensorFormatKind::NHWC(1)),
        Input::new(1, BufView::U32(&b), false, TensorFormatKind::NHWC(1)),
    ];
    let inputs = two.into_inputs();
    assert_eq!(inputs.len(), 2);
    assert_eq!(inputs[1].index, 1);
}

#[test]
fn prepare_inputs_gives_one_descriptor_per_input() {
    let a = vec![0u8; 4];
    let b = vec![0u32; 4];
    let inputs = vec![
        Input::new(0, BufView::U8(&a), false, TensorFormatKind::NHWC(1)),
        Input::new(1, BufView::F32(&b), true, TensorFormatKind::NCHW(0)),
    ];
    let (kept, descriptors) = prepare_inputs(inputs);
    assert_eq!(kept.len(), 2);
    assert_eq!(descriptors.len(), 2);
    assert_eq!(descriptors[0], kept[0].as_sys_input());
    assert_eq!(descriptors[1], kept[1].as_sys_input());
    assert_eq!(descriptors[0].size, 4);
    assert_eq!(descriptors[1].size, 16);
    assert_eq!(descriptors[1].type_, 0);
}

#[test]
fn preallocated_output_is_handed_over_with_its_size() {
    let mut logits = vec![0u32; 1000];
    let output = Output {
        index: 0,
        kind: OutputKind::Preallocated {
            buf: BufMutView::F32(&mut logits),
            want_float: true,
        },
    };
    assert_eq!(
        output.as_sys_output(),
        RknnOutput {
            want_float: 1,
            is_prealloc: 1,
            index: 0,
            buf: BufferRef::Own,
            size: 4000,
        }
    );
}

#[test]
fn runtime_preallocated_output_names_no_buffer() {
    let output = Output {
        index: 4,
        kind: OutputKind::RuntimePreallocated { want_float: false },
    };
    assert_eq!(
        output.as_sys_output(),
        RknnOutput {
            want_float: 0,
            is_prealloc: 0,
            index: 4,
            buf: BufferRef::Null,
            size: 0,
        }
    );
}

#[test]
fn runtime_preallocated_becomes_runtime_allocated_after_a_call() {
    let mut output = Output {
        index: 1,
        kind: OutputKind::RuntimePreallocated { want_float: true },
    };
    let filled = RknnOutput {
        want_float: 1,
        is_prealloc: 0,
        index: 1,
        buf: BufferRef::Addr(0xdead_b000),
        size: 4000,
    };
    output.from_sys_output(&filled);
    assert_eq!(output.index, 1);
    match &output.kind {
        OutputKind::RuntimeAllocated { buf, want_float } => {
            assert_eq!(*buf, RknnBuffer::new(0xdead_b000, 4000));
            assert!(*want_float);
        }
        _ => panic!("the output did not take over the runtime's buffer"),
    }
    // handing the same output in again treats it as a preallocated buffer
    assert_eq!(
        output.as_sys_output(),
        RknnOutput {
            want_float: 1,
            is_prealloc: 1,
            index: 1,
            buf: BufferRef::Addr(0xdead_b000),
            size: 4000,
        }
    );
    // and a second completion changes nothing
    let other = RknnOutput {
        want_float: 0,
        is_prealloc: 1,
        index: 1,
        buf: BufferRef::Addr(0x1000),
        size: 8,
    };
    output.from_sys_output(&other);
    match &output.kind {
        OutputKind::RuntimeAllocated { buf, want_float } => {
            assert_eq!(*buf, RknnBuffer::new(0xdead_b000, 4000));
            assert!(*want_float);
        }
        _ => panic!("a runtime allocated output changed its kind"),
    }
}

#[test]
fn preallocated_output_is_untouched_by_completion() {
    let mut data = vec![0u8; 16];
    let mut output = Output {
        index: 0,
        kind: OutputKind::Preallocated {
            buf: BufMutView::U8(&mut data),
            want_float: false,
        },
    };
    let filled = RknnOutput {
        want_float: 0,
        is_prealloc: 1,
        index: 0,
        buf: BufferRef::Addr(0x2000),
        size: 16,
    };
    output.from_sys_output(&filled);
    assert!(matches!(
        output.kind,
        OutputKind::Preallocated { want_float: false, .. }
    ));
    assert_eq!(output.as_sys_output().size, 16);
}

#[test]
fn null_report_gives_a_null_buffer() {
    let mut output = Output {
        index: 0,
        kind: OutputKind::RuntimePreallocated { want_float: false },
    };
    let filled = RknnOutput {
        want_float: 0,
        is_prealloc: 0,
        index: 0,
        buf: BufferRef::Null,
        size: 0,
    };
    output.from_sys_output(&filled);
    match &output.kind {
        OutputKind::RuntimeAllocated { buf, .. } => assert_eq!(*buf, RknnBuffer::new(0, 0)),
        _ => panic!("the output did not change its kind"),
    }
}

#[test]
fn finish_outputs_completes_every_position_independently() {
    let mut data = vec![0u32; 8];
    let mut outputs = vec![
        Output {
            index: 0,
            kind: OutputKind::RuntimePreallocated { want_float: true },
        },
        Output {
            index: 1,
            kind: OutputKind::Preallocated {
                buf: BufMutView::F32(&mut data),
                want_float: true,
            },
        },
        Output {
            index: 2,
            kind: OutputKind::RuntimePreallocated { want_float: false },
        },
    ];
    let mut descriptors = prepare_outputs(&outputs);
    assert_eq!(descriptors.len(), 3);
    assert_eq!(descriptors[0].is_prealloc, 0);
    assert_eq!(descriptors[1].is_prealloc, 1);
    assert_eq!(descriptors[1].size, 32);
    // what the runtime writes back
    descriptors[0].buf = BufferRef::Addr(0x1000);
    descriptors[0].size = 400;
    descriptors[2].buf = BufferRef::Addr(0x2000);
    descriptors[2].size = 100;

    assert_eq!(finish_outputs(&mut outputs, &descriptors, 0), Ok(()));
    assert!(matches!(
        outputs[0].kind,
        OutputKind::RuntimeAllocated {
            buf: RknnBuffer { ptr: 0x1000, size: 400 },
            want_float: true
        }
    ));
    assert!(matches!(outputs[1].kind, OutputKind::Preallocated { .. }));
    assert!(matches!(
        outputs[2].kind,
        OutputKind::RuntimeAllocated {
            buf: RknnBuffer { ptr: 0x2000, size: 100 },
            want_float: false
        }
    ));
}

#[test]
fn finish_outputs_leaves_the_outputs_alone_when_the_call_failed() {
    let mut data = vec![0u8; 4];
    let mut outputs = vec![
        Output {
            index: 0,
            kind: OutputKind::RuntimePreallocated { want_float: true },
        },
        Output {
            index: 1,
            kind: OutputKind::Preallocated {
                buf: BufMutView::U8(&mut data),
                want_float: false,
            },
        },
        Output {
            index: 2,
            kind: OutputKind::RuntimeAllocated {
                buf: RknnBuffer::new(0x3000, 12),
                want_float: false,
            },
        },
    ];
    // what a failed call may leave in the descriptors
    let filled = [
        RknnOutput {
            want_float: 1,
            is_prealloc: 0,
            index: 0,
            buf: BufferRef::Addr(0xbad0),
            size: 77,
        },
        RknnOutput {
            want_float: 0,
            is_prealloc: 1,
            index: 1,
            buf: BufferRef::Null,
            size: 0,
        },
        RknnOutput {
            want_float: 0,
            is_prealloc: 1,
            index: 2,
            buf: BufferRef::Null,
            size: 0,
        },
    ];
    assert_eq!(
        finish_outputs(&mut outputs, &filled, -9),
        Err(Error::OutputInvalid)
    );
    // the result of the failed call is absent: the first output still waits
    // for the runtime to allocate, with the flag it was handed in with
    assert!(matches!(
        outputs[0].kind,
        OutputKind::RuntimePreallocated { want_float: true }
    ));
    assert_eq!(outputs[0].index, 0);
    assert!(matches!(
        outputs[1].kind,
        OutputKind::Preallocated { want_float: false, .. }
    ));
    assert!(matches!(
        outputs[2].kind,
        OutputKind::RuntimeAllocated {
            buf: RknnBuffer { ptr: 0x3000, size: 12 },
            want_float: false
        }
    ));
    // and it goes to the runtime again as it did the first time
    assert_eq!(
        outputs[0].as_sys_output(),
        RknnOutput {
            want_float: 1,
            is_prealloc: 0,
            index: 0,
            buf: BufferRef::Null,
            size: 0,
        }
    );

    // every code but zero is a failure, a positive one too
    assert_eq!(finish_outputs(&mut outputs, &filled, 3), Err(Error::Fail));
    assert!(matches!(
        outputs[0].kind,
        OutputKind::RuntimePreallocated { want_float: true }
    ));

    // the same outputs complete once the call succeeds
    assert_eq!(finish_outputs(&mut outputs, &filled, 0), Ok(()));
    assert!(matches!(
        outputs[0].kind,
        OutputKind::RuntimeAllocated {
            buf: RknnBuffer { ptr: 0xbad0, size: 77 },
            want_float: true
        }
    ));
}

#[test]
fn finish_outputs_leaves_outputs_without_descriptor() {
    let mut outputs = vec![
        Output {
            index: 0,
            kind: OutputKind::RuntimePreallocated { want_float: false },
        },
        Output {
            index: 1,
            kind: OutputKind::RuntimePreallocated { want_float: false },
        },
    ];
    let filled = [RknnOutput {
        want_float: 0,
        is_prealloc: 0,
        index: 0,
        buf: BufferRef::Addr(0x10),
        size: 1,
    }];
    assert_eq!(finish_outputs(&mut outputs, &filled, 0), Ok(()));
    assert!(matches!(
        outputs[0].kind,
        OutputKind::RuntimeAllocated { .. }
    ));
    assert!(matches!(
        outputs[1].kind,
        OutputKind::RuntimePreallocated { .. }
    ));
}

#[test]
fn test_run() {
    // the shapes of a MobileNet-class classifier: one int8 input image, one
    // output of 1000 floats in a buffer of the caller
    let input_buffer = vec![0i8; 1 * 224 * 224 * 3];
    let input = Input::new(
        0,
        BufView::I8(&input_buffer),
        false,
        TensorFormatKind::NHWC(TensorFormat::NHWC),
    );
    let (inputs, descriptors) = prepare_inputs(input);
    assert_eq!(inputs.len(), 1);
    assert_eq!(descriptors.len(), 1);
    assert_eq!(descriptors[0].size, 150528);

    let mut logits = vec![0.0f32.to_bits(); 1000];
    let output = Output {
        index: 0,
        kind: OutputKind::Preallocated {
            buf: BufMutView::F32(&mut logits),
            want_float: true,
        },
    };
    let mut outputs = vec![output];
    let filled = prepare_outputs(&outputs);
    assert_eq!(filled[0].size, 4000);
    assert_eq!(filled[0].want_float, 1);
    finish_outputs(&mut outputs, &filled, 0).unwrap();
    let done = outputs.pop().unwrap();
    assert_eq!(done.index, 0);
    assert!(matches!(done.kind, OutputKind::Preallocated { .. }));

    assert_eq!(logits.len(), 1000);
}
