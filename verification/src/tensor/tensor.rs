//! A typed, shape-aware buffer that owns its storage or stands for foreign
//! memory.

use crate::error::Error;
use crate::io::input::flag_byte;
use crate::sys::{BufferRef, RknnInput, RknnOutput, RKNN_TENSOR_FLOAT32};
use crate::tensor::{TensorFormatKind, TensorType};
use vstd::layout::{layout_of_slices, size_of};
use vstd::prelude::*;

verus! {

/// Row and image strides of a tensor in foreign memory, as the model
/// declares them.
#[derive(Debug, Clone, Copy, PartialEq, Eq, Structural)]
pub struct StrideInfo {
    /// Pixels per row, padding included
    pub w_stride: u32,
    /// Rows per image, padding included; zero where it is the height
    pub h_stride: u32,
    /// Size in bytes, padding included
    pub size_with_stride: u32,
}

/// A region of foreign memory: `len` elements of type `T` from the address
/// `addr` on. The address is never null, and the size of the region in bytes
/// fits the machine's word.
#[derive(Debug)]
struct ForeignMemory<T> {
    addr: usize,
    len: usize,
    marker: core::marker::PhantomData<T>,
}

impl<T> ForeignMemory<T> {
    #[verifier::type_invariant]
    spec fn inv(self) -> bool {
        self.addr != 0 && self.len * size_of::<T>() <= usize::MAX
    }

    fn new(addr: usize, len: usize) -> (region: Self)
        requires
            addr != 0,
            len * size_of::<T>() <= usize::MAX,
        ensures
            region.addr == addr,
            region.len == len,
    {
        ForeignMemory { addr, len, marker: core::marker::PhantomData }
    }

    fn addr(&self) -> (addr: usize)
        ensures
            addr == self.addr,
            addr != 0,
    {
        proof {
            use_type_invariant(self);
        }
        self.addr
    }

    fn num_bytes(&self) -> (n: usize)
        ensures
            n == self.len * size_of::<T>(),
    {
        proof {
            use_type_invariant(self);
        }
        let width = core::mem::size_of::<T>();
        self.len * width
    }

    fn duplicate(&self) -> (region: Self)
        ensures
            region.addr == self.addr,
            region.len == self.len,
    {
        proof {
            use_type_invariant(self);
        }
        ForeignMemory { addr: self.addr, len: self.len, marker: core::marker::PhantomData }
    }
}

/// Where the elements of a tensor are.
#[derive(Debug)]
enum Storage<T> {
    /// In a buffer that the tensor owns.
    Owned(Vec<T>),
    /// In foreign memory. The tensor does not own that memory and never
    /// frees it.
    Foreign(ForeignMemory<T>),
}

/// An input or output tensor of type T.
#[derive(Debug)]
pub struct Tensor<T> {
    storage: Storage<T>,
    layout: TensorFormatKind,
    index: u32,
    pass_through: bool,
    stride: Option<StrideInfo>,
}

impl<T> Tensor<T> {
    /// The elements of a tensor that owns its storage; `None` for one over
    /// foreign memory.
    pub closed spec fn contents(&self) -> Option<Seq<T>> {
        match self.storage {
            Storage::Owned(buffer) => Some(buffer@),
            Storage::Foreign(_) => None,
        }
    }

    /// The address of the foreign memory of a tensor that does not own its
    /// storage; `None` for one that does.
    pub closed spec fn foreign(&self) -> Option<usize> {
        match self.storage {
            Storage::Owned(_) => None,
            Storage::Foreign(region) => Some(region.addr),
        }
    }

    /// The number of elements.
    pub closed spec fn spec_len(&self) -> nat {
        match self.storage {
            Storage::Owned(buffer) => buffer@.len(),
            Storage::Foreign(region) => region.len as nat,
        }
    }

    /// The index of the model's input or output that the tensor is for.
    pub closed spec fn spec_index(&self) -> u32 {
        self.index
    }

    /// The declared layout.
    pub closed spec fn spec_layout(&self) -> TensorFormatKind {
        self.layout
    }

    /// Whether the data goes to the model as it is.
    pub closed spec fn spec_pass_through(&self) -> bool {
        self.pass_through
    }

    /// The strides, where they were captured.
    pub closed spec fn spec_stride(&self) -> Option<StrideInfo> {
        self.stride
    }

    /// The size of the tensor's data in bytes.
    pub open spec fn byte_size(&self) -> nat {
        self.spec_len() * size_of::<T>()
    }

    /// Whether two tensors agree in what they are for and in where their
    /// elements are: in everything but the elements and their number.
    pub open spec fn same_place(&self, other: &Self) -> bool {
        &&& self.foreign() == other.foreign()
        &&& (self.contents() is Some) == (other.contents() is Some)
        &&& self.spec_index() == other.spec_index()
        &&& self.spec_layout() == other.spec_layout()
        &&& self.spec_pass_through() == other.spec_pass_through()
        &&& self.spec_stride() == other.spec_stride()
    }

    /// Whether two tensors agree in everything but their elements.
    pub open spec fn same_shape(&self, other: &Self) -> bool {
        self.spec_len() == other.spec_len() && self.same_place(other)
    }

    /// A tensor has either storage of its own or foreign memory, and its
    /// length is that of its storage.
    pub proof fn lemma_storage(&self)
        ensures
            (self.contents() is Some) != (self.foreign() is Some),
            self.contents() is Some ==> self.contents()->0.len() == self.spec_len(),
    {
    }

    /// A tensor that owns `buffer`.
    pub fn owned(
        buffer: Vec<T>,
        index: u32,
        layout: TensorFormatKind,
        pass_through: bool,
        stride: Option<StrideInfo>,
    ) -> (tensor: Self)
        ensures
            tensor.contents() == Some(buffer@),
            tensor.foreign() is None,
            tensor.spec_len() == buffer@.len(),
            tensor.spec_index() == index,
            tensor.spec_layout() == layout,
            tensor.spec_pass_through() == pass_through,
            tensor.spec_stride() == stride,
    {
        Tensor { storage: Storage::Owned(buffer), layout, index, pass_through, stride }
    }

    /// A tensor over `len` elements of foreign memory at `addr`. The memory
    /// stays the caller's: it must outlive every use of the tensor.
    pub fn from_raw_parts(
        addr: usize,
        len: usize,
        index: u32,
        layout: TensorFormatKind,
        pass_through: bool,
        stride: Option<StrideInfo>,
    ) -> (tensor: Self)
        requires
            addr != 0,
            len * size_of::<T>() <= usize::MAX,
        ensures
            tensor.contents() is None,
            tensor.foreign() == Some(addr),
            tensor.spec_len() == len,
            tensor.spec_index() == index,
            tensor.spec_layout() == layout,
            tensor.spec_pass_through() == pass_through,
            tensor.spec_stride() == stride,
    {
        Tensor {
            storage: Storage::Foreign(ForeignMemory::new(addr, len)),
            layout,
            index,
            pass_through,
            stride,
        }
    }

    pub fn len(&self) -> (n: usize)
        ensures
            n == self.spec_len(),
    {
        match &self.storage {
            Storage::Owned(buffer) => buffer.len(),
            Storage::Foreign(region) => region.len,
        }
    }

    pub fn index(&self) -> (index: u32)
        ensures
            index == self.spec_index(),
    {
        self.index
    }

    pub fn layout(&self) -> (layout: TensorFormatKind)
        ensures
            layout == self.spec_layout(),
    {
        self.layout
    }

    pub fn pass_through(&self) -> (pass_through: bool)
        ensures
            pass_through == self.spec_pass_through(),
    {
        self.pass_through
    }

    pub fn stride(&self) -> (stride: Option<StrideInfo>)
        ensures
            stride == self.spec_stride(),
    {
        self.stride
    }

    /// The address of the foreign memory, for a tensor that does not own its
    /// storage.
    pub fn foreign_addr(&self) -> (addr: Option<usize>)
        ensures
            addr == self.foreign(),
            addr is Some ==> addr->0 != 0,
    {
        match &self.storage {
            Storage::Owned(_) => None,
            Storage::Foreign(region) => Some(region.addr()),
        }
    }

    /// The elements of a tensor that owns its storage. Foreign memory is out
    /// of this library's reach: for a tensor over it the result is `None`.
    pub fn as_slice(&self) -> (elements: Option<&[T]>)
        ensures
            elements is Some == self.contents() is Some,
            elements is Some ==> elements->0@ == self.contents()->0,
    {
        match &self.storage {
            Storage::Owned(buffer) => Some(buffer.as_slice()),
            Storage::Foreign(_) => None,
        }
    }

    /// Copies `data` into the tensor. The lengths must agree: nothing is cut
    /// short or left over. Into foreign memory nothing is written here.
    pub fn copy_data(&mut self, data: &[T]) -> (r: Result<(), Error>) where T: Copy
        ensures
            final(self).same_shape(old(self)),
            data@.len() != old(self).spec_len() ==> r == Err::<(), Error>(
                Error::SizeMismatch { expected: old(self).spec_len() as usize, actual: data@.len() as usize },
            ) && final(self).contents() == old(self).contents(),
            data@.len() == old(self).spec_len() ==> r is Ok && (old(self).contents() is Some
                ==> final(self).contents() == Some(data@)),
    {
        let n = self.len();
        if data.len() != n {
            return Err(Error::SizeMismatch { expected: n, actual: data.len() });
        }
        match &mut self.storage {
            Storage::Owned(buffer) => {
                let mut i: usize = 0;
                while i < n
                    invariant
                        i <= n,
                        n == data@.len(),
                        buffer@.len() == n,
                        buffer@.take(i as int) == data@.take(i as int),
                    decreases n - i,
                {
                    buffer[i] = data[i];
                    assert(buffer@.take(i + 1) =~= buffer@.take(i as int).push(data@[i as int]));
                    assert(data@.take(i + 1) =~= data@.take(i as int).push(data@[i as int]));
                    i += 1;
                }
                assert(buffer@.take(n as int) =~= buffer@);
                assert(data@.take(n as int) =~= data@);
            },
            Storage::Foreign(_) => {},
        }
        Ok(())
    }

    /// Sets every element to `value`. Into foreign memory nothing is written
    /// here.
    pub fn fill_with(&mut self, value: T) where T: Copy
        ensures
            final(self).same_shape(old(self)),
            old(self).contents() is Some ==> final(self).contents() == Some(
                Seq::new(old(self).spec_len(), |i: int| value),
            ),
    {
        match &mut self.storage {
            Storage::Owned(buffer) => {
                let n = buffer.len();
                let mut i: usize = 0;
                while i < n
                    invariant
                        i <= n,
                        buffer@.len() == n,
                        forall|k: int| 0 <= k < i ==> buffer@[k] == value,
                    decreases n - i,
                {
                    buffer[i] = value;
                    i += 1;
                }
                assert(buffer@ =~= Seq::new(n as nat, |i: int| value));
            },
            Storage::Foreign(_) => {},
        }
    }

    /// The elements of a tensor that owns its storage, for writing. For a
    /// tensor over foreign memory the result is `None`.
    pub fn as_mut_slice(&mut self) -> (elements: Option<&mut [T]>)
        ensures
            elements is Some == old(self).contents() is Some,
            elements is Some ==> elements->0@ == old(self).contents()->0,
            elements is Some ==> final(self).contents() == Some(final(elements->0)@),
            elements is None ==> final(self).spec_len() == old(self).spec_len(),
            final(self).same_place(old(self)),
    {
        match &mut self.storage {
            Storage::Owned(buffer) => Some(buffer.as_mut_slice()),
            Storage::Foreign(_) => None,
        }
    }

    /// Where the native call finds the tensor's data.
    pub open spec fn buffer_ref(&self) -> BufferRef {
        match self.foreign() {
            Some(addr) => BufferRef::Addr(addr),
            None => BufferRef::Own,
        }
    }

    fn num_bytes(&self) -> (n: usize)
        ensures
            n == self.byte_size(),
    {
        broadcast use layout_of_slices;

        match &self.storage {
            Storage::Owned(buffer) => core::mem::size_of_val::<[T]>(buffer.as_slice()),
            Storage::Foreign(region) => region.num_bytes(),
        }
    }

    fn buf(&self) -> (buf: BufferRef)
        ensures
            buf == self.buffer_ref(),
    {
        match &self.storage {
            Storage::Owned(_) => BufferRef::Own,
            Storage::Foreign(region) => BufferRef::Addr(region.addr()),
        }
    }

    /// The native input descriptor of the tensor: the byte size is computed
    /// from the number of elements and the element type, and cut to its low
    /// 32 bits.
    pub open spec fn sys_input(&self) -> RknnInput where T: TensorType {
        RknnInput {
            index: self.spec_index(),
            buf: self.buffer_ref(),
            size: self.byte_size() as u32,
            pass_through: flag_byte(self.spec_pass_through()),
            type_: T::tag(),
            fmt: self.spec_layout().tag(),
        }
    }

    /// The native output descriptor of the tensor: a preallocated buffer,
    /// wanted as floats exactly where the elements are 32-bit floats.
    pub open spec fn sys_output(&self) -> RknnOutput where T: TensorType {
        RknnOutput {
            index: self.spec_index(),
            want_float: flag_byte(T::tag() == RKNN_TENSOR_FLOAT32),
            is_prealloc: 1,
            buf: self.buffer_ref(),
            size: self.byte_size() as u32,
        }
    }

    pub fn as_input(&self) -> (sys: RknnInput) where T: TensorType
        ensures
            sys == self.sys_input(),
    {
        proof {
            T::lemma_type();
        }
        RknnInput {
            index: self.index,
            buf: self.buf(),
            size: #[verifier::truncate]
            (self.num_bytes() as u32),
            pass_through: if self.pass_through {
                1
            } else {
                0
            },
            type_: T::TYPE,
            fmt: self.layout.into(),
        }
    }

    pub fn as_output(&mut self) -> (sys: RknnOutput) where T: TensorType
        ensures
            sys == old(self).sys_output(),
            *final(self) == *old(self),
    {
        proof {
            T::lemma_type();
        }
        RknnOutput {
            index: self.index,
            want_float: if T::TYPE == RKNN_TENSOR_FLOAT32 {
                1
            } else {
                0
            },
            is_prealloc: 1,
            buf: self.buf(),
            size: #[verifier::truncate]
            (self.num_bytes() as u32),
        }
    }
}

impl<T: Clone> Tensor<T> {
    /// Whether `self` is what a clone of `source` can be: a tensor for the
    /// same input or output, with the same layout, flag, strides and length,
    /// that stands for the same foreign memory where `source` stands for
    /// foreign memory, and holds a clone of every element where `source`
    /// owns its elements.
    pub open spec fn is_clone_of(&self, source: &Self) -> bool {
        &&& self.same_shape(source)
        &&& source.contents() is Some ==> forall|i: int|
            0 <= i < source.spec_len() ==> cloned::<T>(
                #[trigger] source.contents()->0[i],
                self.contents()->0[i],
            )
    }
}

/// A clone of a tensor that owns its storage has storage of its own, with a
/// clone of every element; a clone of a tensor over foreign memory stands for
/// the same memory.
impl<T: Clone> Clone for Tensor<T> {
    fn clone(&self) -> (res: Self)
        ensures
            res.is_clone_of(self),
    {
        let storage = match &self.storage {
            Storage::Owned(buffer) => Storage::Owned(buffer.clone()),
            Storage::Foreign(region) => Storage::Foreign(region.duplicate()),
        };
        Tensor {
            storage,
            layout: self.layout,
            index: self.index,
            pass_through: self.pass_through,
            stride: self.stride,
        }
    }
}

} // verus!
