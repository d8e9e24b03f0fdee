//! One output of an inference call, and who owns its buffer.

use crate::io::buffer::{BufMutView, RknnBuffer};
use crate::io::input::flag_byte;
use crate::sys::{BufferRef, RknnOutput};
use vstd::prelude::*;

verus! {

#[allow(inconsistent_fields)]
pub enum OutputKind<'a> {
    /// The user provides a buffer for RKNN to write into.
    Preallocated { buf: BufMutView<'a>, want_float: bool },
    /// The user wants RKNN to allocate and manage the buffer.
    RuntimePreallocated { want_float: bool },
    /// RKNN has allocated the buffer. `want_float` is kept for the unlikely
    /// re-run of the same output.
    RuntimeAllocated { buf: RknnBuffer, want_float: bool },
}

pub struct Output<'a> {
    pub index: u32,
    pub kind: OutputKind<'a>,
}

impl<'a> Output<'a> {
    /// The native descriptor of this output. A buffer of the user is handed
    /// over as preallocated, with its size in bytes; where the runtime is to
    /// allocate, no buffer is named; a buffer that the runtime has allocated
    /// before is handed back as a preallocated one. Sizes are cut to their
    /// low 32 bits.
    pub open spec fn sys_output(&self) -> RknnOutput {
        match self.kind {
            OutputKind::Preallocated { buf, want_float } => RknnOutput {
                index: self.index,
                want_float: flag_byte(want_float),
                is_prealloc: 1,
                buf: BufferRef::Own,
                size: (buf.spec_len() * buf.element_size()) as u32,
            },
            OutputKind::RuntimePreallocated { want_float } => RknnOutput {
                index: self.index,
                want_float: flag_byte(want_float),
                is_prealloc: 0,
                buf: BufferRef::Null,
                size: 0,
            },
            OutputKind::RuntimeAllocated { buf, want_float } => RknnOutput {
                index: self.index,
                want_float: flag_byte(want_float),
                is_prealloc: 1,
                buf: BufferRef::Addr(buf.ptr),
                size: buf.size as u32,
            },
        }
    }

    /// The output as it stands once a call has filled the descriptor `sys_out`
    /// for it: an output that the runtime was to allocate now holds the
    /// buffer that the runtime reports, and every other output is as before.
    pub open spec fn completed(self, sys_out: RknnOutput) -> Output<'a> {
        match self.kind {
            OutputKind::RuntimePreallocated { want_float } => Output {
                index: self.index,
                kind: OutputKind::RuntimeAllocated {
                    buf: RknnBuffer { ptr: sys_out.buf.address(), size: sys_out.size as usize },
                    want_float,
                },
            },
            _ => self,
        }
    }

    /// An output that the runtime was to allocate holds, once a call has
    /// filled its descriptor, the buffer that the runtime reports: its
    /// address and its size. Handed in again it goes as a preallocated buffer
    /// at that address and of that size.
    pub proof fn lemma_runtime_allocated(self, sys_out: RknnOutput)
        requires
            self.kind is RuntimePreallocated,
        ensures
            self.completed(sys_out).index == self.index,
            self.completed(sys_out).kind == (OutputKind::RuntimeAllocated {
                buf: RknnBuffer { ptr: sys_out.buf.address(), size: sys_out.size as usize },
                want_float: self.kind->RuntimePreallocated_want_float,
            }),
            self.completed(sys_out).sys_output() == (RknnOutput {
                index: self.index,
                want_float: flag_byte(self.kind->RuntimePreallocated_want_float),
                is_prealloc: 1,
                buf: BufferRef::Addr(sys_out.buf.address()),
                size: sys_out.size,
            }),
    {
        assert((sys_out.size as usize) as u32 == sys_out.size);
    }

    /// The transition goes one way and happens once: an output that is not
    /// waiting for the runtime to allocate stays as it is, so a second
    /// completion changes nothing.
    pub proof fn lemma_completed_once(self, first: RknnOutput, second: RknnOutput)
        ensures
            !(self.kind is RuntimePreallocated) ==> self.completed(first) == self,
            !(self.completed(first).kind is RuntimePreallocated),
            self.completed(first).completed(second) == self.completed(first),
    {
    }

    /// Before the native call: converts the output into its native
    /// descriptor.
    pub fn as_sys_output(&self) -> (sys: RknnOutput)
        ensures
            sys == self.sys_output(),
    {
        match &self.kind {
            OutputKind::Preallocated { buf, want_float } => RknnOutput {
                index: self.index,
                want_float: if *want_float {
                    1
                } else {
                    0
                },
                is_prealloc: 1,
                buf: BufferRef::Own,
                size: #[verifier::truncate]
                (buf.num_bytes() as u32),
            },
            OutputKind::RuntimePreallocated { want_float } => RknnOutput {
                index: self.index,
                want_float: if *want_float {
                    1
                } else {
                    0
                },
                is_prealloc: 0,
                buf: BufferRef::Null,
                size: 0,
            },
            OutputKind::RuntimeAllocated { buf, want_float } => RknnOutput {
                index: self.index,
                want_float: if *want_float {
                    1
                } else {
                    0
                },
                is_prealloc: 1,
                buf: BufferRef::Addr(buf.ptr),
                size: #[verifier::truncate]
                (buf.size as u32),
            },
        }
    }

    /// After the native call: takes over what the runtime wrote into the
    /// descriptor.
    pub fn from_sys_output(&mut self, sys_out: &RknnOutput)
        ensures
            *final(self) == old(self).completed(*sys_out),
    {
        let allocated = if let OutputKind::RuntimePreallocated { want_float } = &self.kind {
            Some((RknnBuffer::new(sys_out.buf.addr(), sys_out.size as usize), *want_float))
        } else {
            None
        };
        if let Some((buffer, want_float)) = allocated {
            self.kind = OutputKind::RuntimeAllocated { buf: buffer, want_float };
        }
    }
}

} // verus!
