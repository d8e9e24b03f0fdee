use rknpu2::error::Error;
use rknpu2::query::{InputAttr, InputOutputNum, TensorAttrView};
use rknpu2::rknn::{finish_query, finish_query_with_input, Context, ContextState, TensorMem};
use rknpu2::sys::{RknnInputOutputNum, RknnTensorAttr};
use rknpu2::sys::BufferRef;

#[test]
fn context_opens_on_success_only() {
    let context = Context::open(0, 0xabcd).unwrap();
    assert_eq!(context.state(), ContextState::Active);
    assert_eq!(context.handle(), Some(0xabcd));

    assert_eq!(Context::open(-6, 0).unwrap_err(), Error::ModelInvalid);
    assert_eq!(Context::open(-3, 77).unwrap_err(), Error::DeviceUnavailable);
    assert_eq!(Context::open(5, 77).unwrap_err(), Error::Fail);
}

#[test]
fn context_gives_its_handle_out_for_destruction_once() {
    let mut context = Context::open(0, 42).unwrap();
    assert_eq!(context.destroy(), Some(42));
    assert_eq!(context.state(), ContextState::Destroyed);
    assert_eq!(context.handle(), None);
    assert_eq!(context.destroy(), None);
    assert_eq!(context.destroy(), None);
    assert_eq!(context.state(), ContextState::Destroyed);
}

#[test]
fn tensor_mem_refuses_null() {
    assert_eq!(TensorMem::from_raw(0).unwrap_err(), Error::NullPointer);
    let mem = TensorMem::from_raw(0x5000).unwrap();
    assert_eq!(mem.mem(), 0x5000);
    assert_eq!(Error::NullPointer.to_string(), "Null pointer returned by the allocator");
}

#[test]
fn buffer_ref_address() {
    assert_eq!(BufferRef::Null.addr(), 0);
    assert_eq!(BufferRef::Own.addr(), 0);
    assert_eq!(BufferRef::Addr(0x77).addr(), 0x77);
}

#[test]
fn query_answer_is_read_on_success_only() {
    let mut reads = 0;
    let answer: Result<InputOutputNum, Error> = finish_query(0, || {
        reads += 1;
        RknnInputOutputNum {
            n_input: 1,
            n_output: 2,
        }
    });
    let answer = answer.unwrap();
    assert_eq!(answer.input_num(), 1);
    assert_eq!(answer.output_num(), 2);
    assert_eq!(reads, 1);

    let mut reads = 0;
    let answer: Result<InputOutputNum, Error> = finish_query(-7, || {
        reads += 1;
        RknnInputOutputNum {
            n_input: 1,
            n_output: 2,
        }
    });
    assert_eq!(answer.unwrap_err(), Error::CtxInvalid);
    assert_eq!(reads, 0);
}

#[test]
fn query_with_input_answer_is_read_on_success_only() {
    let record = RknnTensorAttr {
        index: 4,
        n_dims: 1,
        dims: [9, 0, 0, 0, 0, 0, 0, 0, 0, 0, 0, 0, 0, 0, 0, 0],
        name: [0u8; 256],
        n_elems: 9,
        size: 9,
        fmt: 0,
        type_: 3,
        qnt_type: 0,
        fl: 0,
        zp: 0,
        scale: 0,
        w_stride: 0,
        size_with_stride: 9,
        pass_through: 0,
        h_stride: 0,
    };
    let answer: Result<InputAttr, Error> = finish_query_with_input(0, || record);
    let answer = answer.unwrap();
    assert_eq!(answer.index(), 4);
    assert_eq!(answer.num_elements(), 9);

    let mut reads = 0;
    let answer: Result<InputAttr, Error> = finish_query_with_input(-5, || {
        reads += 1;
        record
    });
    assert!(matches!(answer, Err(Error::ParamInvalid)));
    assert_eq!(reads, 0);
}
