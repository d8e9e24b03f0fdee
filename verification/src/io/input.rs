//! One input of an inference call.

use crate::io::buffer::BufView;
use crate::sys::{BufferRef, RknnInput};
use crate::tensor::TensorFormatKind;
use vstd::prelude::*;

verus! {

/// A flag as the runtime takes it: one for set, zero for clear.
pub open spec fn flag_byte(flag: bool) -> u8 {
    if flag {
        1
    } else {
        0
    }
}

#[derive(Debug)]
pub struct Input<'a> {
    pub index: u32,
    pub buffer: BufView<'a>,
    pub pass_through: bool,
    pub fmt: TensorFormatKind,
}

impl<'a> Input<'a> {
    pub fn new(index: u32, buffer: BufView<'a>, pass_through: bool, fmt: TensorFormatKind) -> (input:
        Self)
        ensures
            input.index == index,
            input.buffer == buffer,
            input.pass_through == pass_through,
            input.fmt == fmt,
    {
        Input { index, buffer, pass_through, fmt }
    }

    /// The native descriptor of this input: its index, its buffer with the
    /// size in bytes (the low 32 bits of it), the pass-through flag, and the
    /// tags of its format and of the buffer's element type.
    pub open spec fn sys_input(&self) -> RknnInput {
        RknnInput {
            index: self.index,
            buf: BufferRef::Own,
            size: (self.buffer.spec_len() * self.buffer.element_size()) as u32,
            pass_through: flag_byte(self.pass_through),
            fmt: self.fmt.tag(),
            type_: self.buffer.spec_dtype().tag(),
        }
    }

    /// Converts the input into its native descriptor, for the call that
    /// follows at once.
    pub fn as_sys_input(&self) -> (sys: RknnInput)
        ensures
            sys == self.sys_input(),
    {
        RknnInput {
            index: self.index,
            buf: BufferRef::Own,
            size: #[verifier::truncate]
            (self.buffer.num_bytes() as u32),
            pass_through: if self.pass_through {
                1
            } else {
                0
            },
            fmt: self.fmt.into(),
            type_: self.buffer.dtype().into(),
        }
    }
}

pub type Inputs<'a> = Vec<Input<'a>>;

/// What can be handed to the runtime as the inputs of one call.
pub trait IntoInputs<'a>: Sized {
    /// The inputs that `self` stands for, in order.
    spec fn inputs(self) -> Seq<Input<'a>>;

    fn into_inputs(self) -> (inputs: Inputs<'a>)
        ensures
            inputs@ == self.inputs(),
    ;
}

impl<'a> IntoInputs<'a> for Vec<Input<'a>> {
    open spec fn inputs(self) -> Seq<Input<'a>> {
        self@
    }

    fn into_inputs(self) -> (inputs: Inputs<'a>) {
        self
    }
}

impl<'a> IntoInputs<'a> for Input<'a> {
    open spec fn inputs(self) -> Seq<Input<'a>> {
        seq![self]
    }

    fn into_inputs(self) -> (inputs: Inputs<'a>) {
        vec![self]
    }
}

} // verus!
