//! Building a tensor for one input or output of a model.

use crate::error::Error;
use crate::sys::RknnTensorAttr;
use crate::tensor::tensor::{StrideInfo, Tensor};
use crate::tensor::{TensorFormatKind, TensorType};
use vstd::layout::size_of;
use vstd::prelude::*;

verus! {

/// TensorBuilder is a helper struct for creating tensors.
///
/// It names one input or output of a model. The attributes of that input or
/// output, as the model reports them when asked for `kind()` and `index()`,
/// are handed to `allocate` or `from_mmap`.
#[derive(Debug, Clone, Copy, PartialEq, Eq, Structural)]
pub struct TensorBuilder {
    pub index: u32,
    pub kind: TensorKind,
}

/// The kind of tensor.
#[derive(Debug, Clone, Copy, PartialEq, Eq, Structural)]
pub enum TensorKind {
    /// Input tensor.
    Input,
    /// Output tensor.
    Output,
}

/// The strides that the attributes declare.
pub open spec fn strides_of(attr: RknnTensorAttr) -> StrideInfo {
    StrideInfo {
        w_stride: attr.w_stride,
        h_stride: attr.h_stride,
        size_with_stride: attr.size_with_stride,
    }
}

impl TensorBuilder {
    /// Builds a new input tensor.
    pub fn new_input(index: u32) -> (builder: Self)
        ensures
            builder == (TensorBuilder { index, kind: TensorKind::Input }),
    {
        TensorBuilder { index, kind: TensorKind::Input }
    }

    /// Builds a new output tensor.
    pub fn new_output(index: u32) -> (builder: Self)
        ensures
            builder == (TensorBuilder { index, kind: TensorKind::Output }),
    {
        TensorBuilder { index, kind: TensorKind::Output }
    }

    /// Allocates a tensor of `T` for the input or output whose attributes are
    /// `attr`. The model's element type must be `T`: a mismatch is reported,
    /// with the model's type as `expected` and that of `T` as `actual`, and
    /// nothing is converted. The tensor owns its storage, which has as many
    /// elements as the model declares, each the default value of `T`.
    pub fn allocate<T: TensorType + Copy>(self, attr: &RknnTensorAttr) -> (r: Result<
        Tensor<T>,
        Error,
    >)
        ensures
            attr.type_ != T::tag() ==> r == Err::<Tensor<T>, Error>(
                Error::TensorTypeMismatch { expected: attr.type_, actual: T::tag() },
            ),
            attr.type_ == T::tag() ==> r is Ok && {
                let tensor = r->Ok_0;
                &&& tensor.spec_len() == attr.n_elems
                &&& tensor.foreign() is None
                &&& exists|zero: T|
                    call_ensures(T::default, (), zero) && tensor.contents() == Some(
                        Seq::new(attr.n_elems as nat, |i: int| zero),
                    )
                &&& tensor.spec_index() == self.index
                &&& tensor.spec_layout() == TensorFormatKind::of_tag(attr.fmt)
                &&& !tensor.spec_pass_through()
                &&& tensor.spec_stride() is None
            },
    {
        proof {
            T::lemma_type();
        }
        if attr.type_ != T::TYPE {
            return Err(Error::TensorTypeMismatch { expected: attr.type_, actual: T::TYPE });
        }
        let len = attr.n_elems as usize;
        let zero = T::default();
        let mut buffer: Vec<T> = Vec::new();
        let mut i: usize = 0;
        while i < len
            invariant
                i <= len,
                buffer@ == Seq::new(i as nat, |k: int| zero),
            decreases len - i,
        {
            buffer.push(zero);
            assert(buffer@ =~= Seq::new((i + 1) as nat, |k: int| zero));
            i += 1;
        }
        Ok(Tensor::owned(buffer, self.index, TensorFormatKind::from(attr.fmt), false, None))
    }

    /// Wraps `len` elements of foreign memory at `addr` as a tensor of `T`
    /// for the input or output whose attributes are `attr`, with the strides
    /// that the attributes declare. The element type is checked as in
    /// `allocate`, before anything else. Where the type is right, the address
    /// must not be null and the region must fit the address space. The
    /// memory stays the caller's, who answers for its being there as long as
    /// the tensor is used.
    pub fn from_mmap<T: TensorType>(self, attr: &RknnTensorAttr, addr: usize, len: usize) -> (r:
        Result<Tensor<T>, Error>)
        requires
            attr.type_ == T::tag() ==> addr != 0 && len * size_of::<T>() <= usize::MAX,
        ensures
            attr.type_ != T::tag() ==> r == Err::<Tensor<T>, Error>(
                Error::TensorTypeMismatch { expected: attr.type_, actual: T::tag() },
            ),
            attr.type_ == T::tag() ==> r is Ok && {
                let tensor = r->Ok_0;
                &&& tensor.spec_len() == len
                &&& tensor.foreign() == Some(addr)
                &&& tensor.contents() is None
                &&& tensor.spec_index() == self.index
                &&& tensor.spec_layout() == TensorFormatKind::of_tag(attr.fmt)
                &&& tensor.spec_pass_through()
                &&& tensor.spec_stride() == Some(strides_of(*attr))
            },
    {
        proof {
            T::lemma_type();
        }
        if attr.type_ != T::TYPE {
            return Err(Error::TensorTypeMismatch { expected: attr.type_, actual: T::TYPE });
        }
        Ok(
            Tensor::from_raw_parts(
                addr,
                len,
                self.index,
                TensorFormatKind::from(attr.fmt),
                true,
                Some(
                    StrideInfo {
                        w_stride: attr.w_stride,
                        h_stride: attr.h_stride,
                        size_with_stride: attr.size_with_stride,
                    },
                ),
            ),
        )
    }
}

} // verus!
