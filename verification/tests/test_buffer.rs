use rknpu2::io::buffer::{BufMutView, BufView, RknnBuffer};
use rknpu2::tensor::{DataType, DataTypeKind};

#[test]
fn buf_view_reports_bytes_and_dtype_for_every_kind() {
    let n = 7usize;
    let f32s = vec![1.5f32.to_bits(); n];
    let i32s = vec![-3i32; n];
    let u8s = vec![3u8; n];
    let u16s = vec![3u16; n];
    let u32s = vec![3u32; n];
    let i64s = vec![-3i64; n];
    let f16s = vec![0x3c00u16; n];
    let bf16s = vec![0x3f80u16; n];
    let i8s = vec![-3i8; n];

    let views = [
        (BufView::F32(&f32s), 4, DataTypeKind::Float32(DataType::FLOAT32)),
        (BufView::I32(&i32s), 4, DataTypeKind::Int32(DataType::INT32)),
        (BufView::U8(&u8s), 1, DataTypeKind::UInt8(DataType::UINT8)),
        (BufView::U16(&u16s), 2, DataTypeKind::UInt16(DataType::UINT16)),
        (BufView::U32(&u32s), 4, DataTypeKind::UInt32(DataType::UINT32)),
        (BufView::I64(&i64s), 8, DataTypeKind::Int64(DataType::INT64)),
        (BufView::F16(&f16s), 2, DataTypeKind::Float16(DataType::FLOAT16)),
        (BufView::BF16(&bf16s), 2, DataTypeKind::BFloat16(DataType::BFLOAT16)),
        (BufView::I8(&i8s), 1, DataTypeKind::Int8(DataType::INT8)),
    ];
    for (view, width, dtype) in views {
        assert_eq!(view.len(), n);
        assert_eq!(view.num_bytes(), n * width);
        assert_eq!(view.dtype(), dtype);
    }
}

#[test]
fn buf_mut_view_reports_bytes_and_dtype_for_every_kind() {
    let n = 5usize;
    let mut f32s = vec![0u32; n];
    let mut i32s = vec![0i32; n];
    let mut u8s = vec![0u8; n];
    let mut u16s = vec![0u16; n];
    let mut u32s = vec![0u32; n];
    let mut i64s = vec![0i64; n];
    let mut f16s = vec![0u16; n];
    let mut bf16s = vec![0u16; n];
    let mut i8s = vec![0i8; n];

    let views = [
        (BufMutView::F32(&mut f32s), 4, DataTypeKind::Float32(DataType::FLOAT32)),
        (BufMutView::I32(&mut i32s), 4, DataTypeKind::Int32(DataType::INT32)),
        (BufMutView::U8(&mut u8s), 1, DataTypeKind::UInt8(DataType::UINT8)),
        (BufMutView::U16(&mut u16s), 2, DataTypeKind::UInt16(DataType::UINT16)),
        (BufMutView::U32(&mut u32s), 4, DataTypeKind::UInt32(DataType::UINT32)),
        (BufMutView::I64(&mut i64s), 8, DataTypeKind::Int64(DataType::INT64)),
        (BufMutView::F16(&mut f16s), 2, DataTypeKind::Float16(DataType::FLOAT16)),
        (BufMutView::BF16(&mut bf16s), 2, DataTypeKind::BFloat16(DataType::BFLOAT16)),
        (BufMutView::I8(&mut i8s), 1, DataTypeKind::Int8(DataType::INT8)),
    ];
    for (view, width, dtype) in views {
        assert_eq!(view.len(), n);
        assert_eq!(view.num_bytes(), n * width);
        assert_eq!(view.dtype(), dtype);
    }
}

#[test]
fn empty_views_have_no_bytes() {
    let empty: [i64; 0] = [];
    let view = BufView::I64(&empty);
    assert_eq!(view.len(), 0);
    assert_eq!(view.num_bytes(), 0);
    assert_eq!(view.dtype(), DataTypeKind::Int64(DataType::INT64));
}

#[test]
fn model_sized_views() {
    let input = vec![0i8; 224 * 224 * 3];
    assert_eq!(BufView::I8(&input).num_bytes(), 150528);
    let mut logits = vec![0u32; 1000];
    assert_eq!(BufMutView::F32(&mut logits).num_bytes(), 4000);
}

#[test]
fn rknn_buffer_keeps_its_parts() {
    let buffer = RknnBuffer::new(0x1000, 64);
    assert_eq!(buffer.ptr, 0x1000);
    assert_eq!(buffer.size, 64);
    assert_eq!(buffer, RknnBuffer { ptr: 0x1000, size: 64 });
}
