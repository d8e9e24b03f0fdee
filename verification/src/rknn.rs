//! The session with the runtime: its life cycle, the flag sets of its calls,
//! and what is decided before and after each native call.
//!
//! The native calls themselves are made by the caller. For each of them the
//! functions here say what is handed to the runtime and what its answer
//! means.

use crate::bits::{lemma_truncate_within, lemma_within_closed, within};
use crate::error::Error;
use crate::io::input::{Input, IntoInputs};
use crate::io::output::Output;
use crate::query::{Query, QueryWithInput};
use crate::sys::{
    RknnInput, RknnOutput, RKNN_FLAG_MEMORY_CACHEABLE, RKNN_FLAG_MEMORY_FLAGS_DEFAULT,
    RKNN_FLAG_MEMORY_NON_CACHEABLE, RKNN_FLAG_MEMORY_TRY_ALLOC_SRAM, RKNN_NPU_CORE_0,
    RKNN_NPU_CORE_0_1, RKNN_NPU_CORE_0_1_2, RKNN_NPU_CORE_1, RKNN_NPU_CORE_2, RKNN_NPU_CORE_ALL,
    RKNN_NPU_CORE_AUTO,
};
use vstd::prelude::*;

verus! {

/// Where a session stands. Before the runtime has opened it there is no
/// session at all.
#[derive(Debug, Clone, Copy, PartialEq, Eq, Structural)]
pub enum ContextState {
    /// The session is open: its handle is valid.
    Active,
    /// The session was closed. This is final.
    Destroyed,
}

/// The handle of one session with the runtime, and where the session stands.
///
/// The handle is valid from a successful init until it is given out for
/// destruction, which happens at most once.
#[derive(Debug)]
pub struct Context {
    handle: u64,
    state: ContextState,
}

impl Context {
    /// Where the session stands.
    pub closed spec fn spec_state(&self) -> ContextState {
        self.state
    }

    /// The handle that the runtime gave.
    pub closed spec fn spec_handle(&self) -> u64 {
        self.handle
    }

    /// The session that the runtime's init call opened, from its return code
    /// and the handle it wrote: with a code other than zero there is no
    /// session, only the error that the code stands for.
    pub fn open(code: i32, handle: u64) -> (r: Result<Context, Error>)
        ensures
            code != 0 ==> r == Err::<Context, Error>(Error::of_code(code)),
            code == 0 ==> r is Ok && r->Ok_0.spec_state() == ContextState::Active
                && r->Ok_0.spec_handle() == handle,
    {
        if code != 0 {
            return Err(Error::from(code));
        }
        Ok(Context { handle, state: ContextState::Active })
    }

    pub fn state(&self) -> (state: ContextState)
        ensures
            state == self.spec_state(),
    {
        self.state
    }

    /// The handle for a native call, while the session is open.
    pub fn handle(&self) -> (handle: Option<u64>)
        ensures
            self.spec_state() == ContextState::Active ==> handle == Some(self.spec_handle()),
            self.spec_state() != ContextState::Active ==> handle is None,
    {
        match self.state {
            ContextState::Active => Some(self.handle),
            ContextState::Destroyed => None,
        }
    }

    /// Closes the session. For an open session the result is the handle to
    /// destroy, and the session is closed from then on; for a closed one
    /// there is nothing to destroy and nothing changes. So a handle is given
    /// out for destruction once and never again.
    pub fn destroy(&mut self) -> (handle: Option<u64>)
        ensures
            old(self).spec_state() == ContextState::Active ==> handle == Some(
                old(self).spec_handle(),
            ),
            old(self).spec_state() == ContextState::Destroyed ==> handle is None,
            final(self).spec_state() == ContextState::Destroyed,
            final(self).spec_handle() == old(self).spec_handle(),
    {
        match self.state {
            ContextState::Active => {
                self.state = ContextState::Destroyed;
                Some(self.handle)
            },
            ContextState::Destroyed => None,
        }
    }
}

/// A block of memory that the runtime allocated, by the address of its
/// native record. The address is never null.
#[derive(Debug)]
pub struct TensorMem {
    mem: usize,
}

impl TensorMem {
    #[verifier::type_invariant]
    spec fn inv(self) -> bool {
        self.mem != 0
    }

    /// The address of the native record.
    pub closed spec fn spec_mem(&self) -> usize {
        self.mem
    }

    /// Takes the answer of a native allocation. The runtime reports a
    /// failure by a null pointer alone, which is an error of its own.
    pub fn from_raw(mem: usize) -> (r: Result<TensorMem, Error>)
        ensures
            mem == 0 ==> r == Err::<TensorMem, Error>(Error::NullPointer),
            mem != 0 ==> r is Ok && r->Ok_0.spec_mem() == mem,
    {
        if mem == 0 {
            return Err(Error::NullPointer);
        }
        Ok(TensorMem { mem })
    }

    pub fn mem(&self) -> (mem: usize)
        ensures
            mem == self.spec_mem(),
            mem != 0,
    {
        proof {
            use_type_invariant(self);
        }
        self.mem
    }
}

/// After the call that asks a query: the answer of the runtime, or the
/// error that its return code stands for. The record that the runtime was to
/// fill is read, by `read`, only once the code reports success; after a
/// failure it is never looked at.
pub fn finish_query<T: Query, F: FnOnce() -> T::Output>(code: i32, read: F) -> (r: Result<T, Error>)
    requires
        code == 0 ==> read.requires(()),
    ensures
        code != 0 ==> r == Err::<T, Error>(Error::of_code(code)),
        code == 0 ==> r is Ok && exists|output: T::Output|
            read.ensures((), output) && call_ensures(T::from, (output,), r->Ok_0),
{
    match Error::check(code) {
        Err(e) => Err(e),
        Ok(()) => {
            let output = read();
            Ok(T::from(output))
        },
    }
}

/// After the call that asks a query with a parameter: as `finish_query`.
pub fn finish_query_with_input<T: QueryWithInput, F: FnOnce() -> T::Output>(
    code: i32,
    read: F,
) -> (r: Result<T, Error>)
    requires
        code == 0 ==> read.requires(()),
    ensures
        code != 0 ==> r == Err::<T, Error>(Error::of_code(code)),
        code == 0 ==> r is Ok && exists|output: T::Output|
            read.ensures((), output) && call_ensures(T::from, (output,), r->Ok_0),
{
    match Error::check(code) {
        Err(e) => Err(e),
        Ok(()) => {
            let output = read();
            Ok(T::from(output))
        },
    }
}

/// The native descriptors of `inputs`, in order.
pub open spec fn sys_inputs(inputs: Seq<Input>) -> Seq<RknnInput> {
    inputs.map_values(|input: Input| input.sys_input())
}

/// The native descriptors of `outputs`, in order.
pub open spec fn sys_outputs(outputs: Seq<Output>) -> Seq<RknnOutput> {
    outputs.map_values(|output: Output| output.sys_output())
}

/// Before the call that sets the inputs: the inputs that `inputs` stands
/// for, and the native descriptor of each.
pub fn prepare_inputs<'a, I: IntoInputs<'a>>(inputs: I) -> (r: (Vec<Input<'a>>, Vec<RknnInput>))
    ensures
        r.0@ == inputs.inputs(),
        r.1@ == sys_inputs(r.0@),
{
    let tensors = inputs.into_inputs();
    let mut ffi_inputs: Vec<RknnInput> = Vec::new();
    let mut i: usize = 0;
    while i < tensors.len()
        invariant
            i <= tensors.len(),
            ffi_inputs@ == sys_inputs(tensors@.take(i as int)),
        decreases tensors.len() - i,
    {
        ffi_inputs.push(tensors[i].as_sys_input());
        assert(ffi_inputs@ =~= sys_inputs(tensors@.take(i + 1)));
        i += 1;
    }
    assert(tensors@.take(i as int) =~= tensors@);
    (tensors, ffi_inputs)
}

/// Before the call that gets the outputs: the native descriptor of each
/// output.
pub fn prepare_outputs<'a>(outputs: &[Output<'a>]) -> (ffi_outputs: Vec<RknnOutput>)
    ensures
        ffi_outputs@ == sys_outputs(outputs@),
{
    let mut ffi_outputs: Vec<RknnOutput> = Vec::new();
    let mut i: usize = 0;
    while i < outputs.len()
        invariant
            i <= outputs.len(),
            ffi_outputs@ == sys_outputs(outputs@.take(i as int)),
        decreases outputs.len() - i,
    {
        ffi_outputs.push(outputs[i].as_sys_output());
        assert(ffi_outputs@ =~= sys_outputs(outputs@.take(i + 1)));
        i += 1;
    }
    assert(outputs@.take(i as int) =~= outputs@);
    ffi_outputs
}

/// The outputs as they stand once a call has filled the descriptors
/// `filled`: each output takes over its own descriptor, position by
/// position, and an output without a descriptor is as before.
pub open spec fn completed_outputs<'a>(outputs: Seq<Output<'a>>, filled: Seq<RknnOutput>) -> Seq<
    Output<'a>,
> {
    Seq::new(
        outputs.len(),
        |i: int|
            if i < filled.len() {
                outputs[i].completed(filled[i])
            } else {
                outputs[i]
            },
    )
}

/// After the call that gets the outputs: the return code is checked first.
/// After a call that succeeded every output takes over what the runtime
/// wrote into its descriptor, position by position. After a call that failed
/// its result counts as absent: the outputs stay as they were handed in, so
/// that an output still waits for the runtime to allocate, and the error
/// that the code stands for is reported.
pub fn finish_outputs<'a>(outputs: &mut [Output<'a>], filled: &[RknnOutput], code: i32) -> (r:
    Result<(), Error>)
    ensures
        code == 0 ==> final(outputs)@ == completed_outputs(old(outputs)@, filled@) && r == Ok::<
            (),
            Error,
        >(()),
        code != 0 ==> final(outputs)@ == old(outputs)@ && r == Err::<(), Error>(
            Error::of_code(code),
        ),
{
    match Error::check(code) {
        Err(e) => {
            return Err(e);
        },
        Ok(()) => {},
    }
    let n = if outputs.len() < filled.len() {
        outputs.len()
    } else {
        filled.len()
    };
    let mut i: usize = 0;
    while i < n
        invariant
            i <= n,
            n <= filled@.len(),
            n == old(outputs)@.len() || n == filled@.len(),
            outputs@.len() == old(outputs)@.len(),
            n <= outputs@.len(),
            forall|k: int| 0 <= k < i ==> outputs@[k] == old(outputs)@[k].completed(filled@[k]),
            forall|k: int| i <= k < outputs@.len() ==> outputs@[k] == old(outputs)@[k],
        decreases n - i,
    {
        outputs[i].from_sys_output(&filled[i]);
        i += 1;
    }
    assert(outputs@ =~= completed_outputs(old(outputs)@, filled@));
    Ok(())
}

/// Every bit that a core mask can have.
pub const NPU_CORE_BITS: u32 = 0x0000_ffff;

proof fn lemma_core_bits(bits: u32)
    by (bit_vector)
    requires
        bits <= 0x0000_ffffu32,
    ensures
        bits & !0x0000_ffffu32 == 0,
{
}

/// Flags for specifying which NPU cores to use.
///
/// A set of the cores defined here: it never holds a bit outside
/// `NPU_CORE_BITS`.
#[derive(Clone, Copy, Debug, PartialEq, Eq, Hash, Structural)]
pub struct NpuCores {
    bits: u32,
}

impl NpuCores {
    #[verifier::type_invariant]
    spec fn inv(self) -> bool {
        within(self.bits, NPU_CORE_BITS)
    }

    /// The bits of all core masks together are `NPU_CORE_BITS`.
    pub proof fn lemma_all_cores()
        ensures
            RKNN_NPU_CORE_0 | RKNN_NPU_CORE_1 | RKNN_NPU_CORE_2 | RKNN_NPU_CORE_0_1
                | RKNN_NPU_CORE_0_1_2 | RKNN_NPU_CORE_ALL == NPU_CORE_BITS,
    {
        assert(0x1u32 | 0x2u32 | 0x4u32 | 0x3u32 | 0x7u32 | 0xffffu32 == 0xffffu32)
            by (bit_vector);
    }

    /// The bits of the set.
    pub closed spec fn view(&self) -> u32 {
        self.bits
    }

    /// Two sets are the same exactly when they have the same bits.
    pub proof fn lemma_same_bits(self, other: Self)
        ensures
            (self@ == other@) == (self == other),
    {
    }

    /// The set of the flags among `bits`.
    pub closed spec fn truncated(bits: u32) -> NpuCores {
        NpuCores { bits: bits & NPU_CORE_BITS }
    }

    /// Cutting a word down to a set keeps its flags and nothing else.
    pub proof fn lemma_truncated(bits: u32)
        ensures
            Self::truncated(bits)@ == bits & NPU_CORE_BITS,
    {
    }

    fn single(bit: u32) -> (flags: Self)
        requires
            bit <= NPU_CORE_BITS,
        ensures
            flags@ == bit,
    {
        proof {
            lemma_core_bits(bit);
        }
        NpuCores { bits: bit }
    }

    /// The empty set.
    pub fn empty() -> (flags: Self)
        ensures
            flags@ == 0,
    {
        Self::single(0)
    }

    /// The bits of the set, as the runtime takes them.
    pub fn bits(&self) -> (bits: u32)
        ensures
            bits == self@,
            within(bits, NPU_CORE_BITS),
    {
        proof {
            use_type_invariant(self);
        }
        self.bits
    }

    /// The set of the flags among `bits`; bits that are no flag are dropped.
    pub fn from_bits_truncate(bits: u32) -> (flags: Self)
        ensures
            flags@ == bits & NPU_CORE_BITS,
            flags == Self::truncated(bits),
    {
        proof {
            lemma_truncate_within(bits, NPU_CORE_BITS);
        }
        NpuCores { bits: bits & NPU_CORE_BITS }
    }

    /// Whether every flag of `other` is in the set.
    pub fn contains(&self, other: Self) -> (r: bool)
        ensures
            r == (self@ & other@ == other@),
    {
        self.bits & other.bits == other.bits
    }

    /// Whether some flag of `other` is in the set.
    pub fn intersects(&self, other: Self) -> (r: bool)
        ensures
            r == (self@ & other@ != 0),
    {
        self.bits & other.bits != 0
    }

    /// The flags of either set.
    pub fn union(self, other: Self) -> (flags: Self)
        ensures
            flags@ == self@ | other@,
    {
        proof {
            use_type_invariant(self);
            use_type_invariant(other);
            lemma_within_closed(self.bits, other.bits, NPU_CORE_BITS);
        }
        NpuCores { bits: self.bits | other.bits }
    }

    /// The flags of this set that are not in `other`.
    pub fn difference(self, other: Self) -> (flags: Self)
        ensures
            flags@ == self@ & !other@,
    {
        proof {
            use_type_invariant(self);
            use_type_invariant(other);
            lemma_within_closed(self.bits, other.bits, NPU_CORE_BITS);
        }
        NpuCores { bits: self.bits & !other.bits }
    }

    /// Core 0.
    pub fn core0() -> (cores: Self)
        ensures
            cores@ == RKNN_NPU_CORE_0,
    {
        Self::single(RKNN_NPU_CORE_0)
    }

    /// Core 1.
    pub fn core1() -> (cores: Self)
        ensures
            cores@ == RKNN_NPU_CORE_1,
    {
        Self::single(RKNN_NPU_CORE_1)
    }

    /// Core 2.
    pub fn core2() -> (cores: Self)
        ensures
            cores@ == RKNN_NPU_CORE_2,
    {
        Self::single(RKNN_NPU_CORE_2)
    }

    /// Cores 0 and 1.
    pub fn core0_1() -> (cores: Self)
        ensures
            cores@ == RKNN_NPU_CORE_0_1,
    {
        Self::single(RKNN_NPU_CORE_0_1)
    }

    /// Cores 0, 1 and 2.
    pub fn core0_1_2() -> (cores: Self)
        ensures
            cores@ == RKNN_NPU_CORE_0_1_2,
    {
        Self::single(RKNN_NPU_CORE_0_1_2)
    }

    /// All cores: the mask of the runtime, which is wider than the three cores.
    pub fn all() -> (cores: Self)
        ensures
            cores@ == RKNN_NPU_CORE_ALL,
    {
        Self::single(RKNN_NPU_CORE_ALL)
    }

    /// Let the driver choose cores automatically.
    pub fn auto() -> (cores: Self)
        ensures
            cores@ == RKNN_NPU_CORE_AUTO,
    {
        // This is the empty set; the name documents the intent.
        proof {
            assert(0u32 & 0x0000_ffffu32 == 0u32) by (bit_vector);
        }
        NpuCores::from_bits_truncate(RKNN_NPU_CORE_AUTO)
    }

    /// Start building from "auto"/empty.
    pub fn builder() -> (cores: Self)
        ensures
            cores@ == RKNN_NPU_CORE_AUTO,
    {
        Self::auto()
    }

    /// Add core 0.
    pub fn with_core0(self) -> (cores: Self)
        ensures
            cores@ == self@ | RKNN_NPU_CORE_0,
    {
        self.union(Self::core0())
    }

    /// Add core 1.
    pub fn with_core1(self) -> (cores: Self)
        ensures
            cores@ == self@ | RKNN_NPU_CORE_1,
    {
        self.union(Self::core1())
    }

    /// Add core 2.
    pub fn with_core2(self) -> (cores: Self)
        ensures
            cores@ == self@ | RKNN_NPU_CORE_2,
    {
        self.union(Self::core2())
    }

    /// Convenience: all three cores (0,1,2) only, not the wider mask of
    /// `all`.
    pub fn cores_0_1_2() -> (cores: Self)
        ensures
            cores@ == RKNN_NPU_CORE_0_1_2,
    {
        Self::core0_1_2()
    }

    /// Is this the "auto" / "no specific cores requested" mode?
    pub fn is_auto(self) -> (r: bool)
        ensures
            r == (self@ == RKNN_NPU_CORE_AUTO),
    {
        self.bits() == RKNN_NPU_CORE_AUTO
    }
}

impl From<NpuCores> for u32 {
    fn from(flags: NpuCores) -> (bits: Self) {
        flags.bits()
    }
}

impl vstd::std_specs::convert::FromSpecImpl<NpuCores> for u32 {
    open spec fn obeys_from_spec() -> bool {
        true
    }

    open spec fn from_spec(flags: NpuCores) -> u32 {
        flags@
    }
}

impl From<u32> for NpuCores {
    fn from(bits: u32) -> (flags: Self) {
        // Unknown bits are dropped, not refused.
        Self::from_bits_truncate(bits)
    }
}

impl vstd::std_specs::convert::FromSpecImpl<u32> for NpuCores {
    open spec fn obeys_from_spec() -> bool {
        true
    }

    open spec fn from_spec(bits: u32) -> NpuCores {
        NpuCores::truncated(bits)
    }
}

/// Every bit that a memory allocation flag can have.
pub const MEM_ALLOC_BITS: u32 = 0x0000_0007;

/// The bits of the cache policy.
pub const CACHE_POLICY_BITS: u32 = 0x0000_0003;

proof fn lemma_mem_bits(bits: u32)
    by (bit_vector)
    requires
        bits <= 0x0000_0007u32,
    ensures
        bits & !0x0000_0007u32 == 0,
{
}

/// Flags controlling RKNN memory allocation behavior.
///
/// A set of the flags defined here: it never holds a bit outside
/// `MEM_ALLOC_BITS`.
#[derive(Clone, Copy, Debug, PartialEq, Eq, Hash, Structural)]
pub struct MemAllocFlags {
    bits: u32,
}

impl MemAllocFlags {
    #[verifier::type_invariant]
    spec fn inv(self) -> bool {
        within(self.bits, MEM_ALLOC_BITS)
    }

    /// The bits of all flags together are `MEM_ALLOC_BITS`, and those of the
    /// cache policies are `CACHE_POLICY_BITS`.
    pub proof fn lemma_all_flags()
        ensures
            RKNN_FLAG_MEMORY_CACHEABLE | RKNN_FLAG_MEMORY_NON_CACHEABLE
                | RKNN_FLAG_MEMORY_FLAGS_DEFAULT | RKNN_FLAG_MEMORY_TRY_ALLOC_SRAM
                == MEM_ALLOC_BITS,
            RKNN_FLAG_MEMORY_CACHEABLE | RKNN_FLAG_MEMORY_NON_CACHEABLE
                | RKNN_FLAG_MEMORY_FLAGS_DEFAULT == CACHE_POLICY_BITS,
    {
        assert(0x1u32 | 0x2u32 | 0x0u32 | 0x4u32 == 0x7u32 && 0x1u32 | 0x2u32 | 0x0u32 == 0x3u32)
            by (bit_vector);
    }

    /// The bits of the set.
    pub closed spec fn view(&self) -> u32 {
        self.bits
    }

    /// Two sets are the same exactly when they have the same bits.
    pub proof fn lemma_same_bits(self, other: Self)
        ensures
            (self@ == other@) == (self == other),
    {
    }

    /// The set of the flags among `bits`.
    pub closed spec fn truncated(bits: u32) -> MemAllocFlags {
        MemAllocFlags { bits: bits & MEM_ALLOC_BITS }
    }

    /// Cutting a word down to a set keeps its flags and nothing else.
    pub proof fn lemma_truncated(bits: u32)
        ensures
            Self::truncated(bits)@ == bits & MEM_ALLOC_BITS,
    {
    }

    fn single(bit: u32) -> (flags: Self)
        requires
            bit <= MEM_ALLOC_BITS,
        ensures
            flags@ == bit,
    {
        proof {
            lemma_mem_bits(bit);
        }
        MemAllocFlags { bits: bit }
    }

    /// The empty set.
    pub fn empty() -> (flags: Self)
        ensures
            flags@ == 0,
    {
        Self::single(0)
    }

    /// The bits of the set, as the runtime takes them.
    pub fn bits(&self) -> (bits: u32)
        ensures
            bits == self@,
            within(bits, MEM_ALLOC_BITS),
    {
        proof {
            use_type_invariant(self);
        }
        self.bits
    }

    /// The set of the flags among `bits`; bits that are no flag are dropped.
    pub fn from_bits_truncate(bits: u32) -> (flags: Self)
        ensures
            flags@ == bits & MEM_ALLOC_BITS,
            flags == Self::truncated(bits),
    {
        proof {
            lemma_truncate_within(bits, MEM_ALLOC_BITS);
        }
        MemAllocFlags { bits: bits & MEM_ALLOC_BITS }
    }

    /// Whether every flag of `other` is in the set.
    pub fn contains(&self, other: Self) -> (r: bool)
        ensures
            r == (self@ & other@ == other@),
    {
        self.bits & other.bits == other.bits
    }

    /// Whether some flag of `other` is in the set.
    pub fn intersects(&self, other: Self) -> (r: bool)
        ensures
            r == (self@ & other@ != 0),
    {
        self.bits & other.bits != 0
    }

    /// The flags of either set.
    pub fn union(self, other: Self) -> (flags: Self)
        ensures
            flags@ == self@ | other@,
    {
        proof {
            use_type_invariant(self);
            use_type_invariant(other);
            lemma_within_closed(self.bits, other.bits, MEM_ALLOC_BITS);
        }
        MemAllocFlags { bits: self.bits | other.bits }
    }

    /// The flags of this set that are not in `other`.
    pub fn difference(self, other: Self) -> (flags: Self)
        ensures
            flags@ == self@ & !other@,
    {
        proof {
            use_type_invariant(self);
            use_type_invariant(other);
            lemma_within_closed(self.bits, other.bits, MEM_ALLOC_BITS);
        }
        MemAllocFlags { bits: self.bits & !other.bits }
    }

    /// Use cacheable memory.
    pub fn cacheable() -> (flags: Self)
        ensures
            flags@ == RKNN_FLAG_MEMORY_CACHEABLE,
    {
        Self::single(RKNN_FLAG_MEMORY_CACHEABLE)
    }

    /// Use non-cacheable memory.
    pub fn non_cacheable() -> (flags: Self)
        ensures
            flags@ == RKNN_FLAG_MEMORY_NON_CACHEABLE,
    {
        Self::single(RKNN_FLAG_MEMORY_NON_CACHEABLE)
    }

    /// RKNN's default memory behavior; it has no bit of its own.
    pub fn default_flags() -> (flags: Self)
        ensures
            flags@ == RKNN_FLAG_MEMORY_FLAGS_DEFAULT,
    {
        Self::single(RKNN_FLAG_MEMORY_FLAGS_DEFAULT)
    }

    /// Try to allocate from on-chip SRAM if possible.
    pub fn try_alloc_sram() -> (flags: Self)
        ensures
            flags@ == RKNN_FLAG_MEMORY_TRY_ALLOC_SRAM,
    {
        Self::single(RKNN_FLAG_MEMORY_TRY_ALLOC_SRAM)
    }

    /// Start from RKNN's default memory flags.
    ///
    /// The default flag has no bit, so this is the empty set; the name
    /// documents the intent.
    pub fn builder() -> (flags: Self)
        ensures
            flags@ == RKNN_FLAG_MEMORY_FLAGS_DEFAULT,
    {
        MemAllocFlags::default_flags()
    }

    /// Explicitly select "default" cache policy, clearing conflicting bits.
    pub fn with_default(self) -> (flags: Self)
        ensures
            flags@ == Self::policy_set(self@, CachePolicy::Default),
    {
        self.set_cache_policy(CachePolicy::Default)
    }

    /// Select cacheable memory, clearing NON_CACHEABLE/DEFAULT cache-policy bits.
    pub fn with_cacheable(self) -> (flags: Self)
        ensures
            flags@ == Self::policy_set(self@, CachePolicy::Cacheable),
    {
        self.set_cache_policy(CachePolicy::Cacheable)
    }

    /// Select non-cacheable memory, clearing CACHEABLE/DEFAULT cache-policy bits.
    pub fn with_non_cacheable(self) -> (flags: Self)
        ensures
            flags@ == Self::policy_set(self@, CachePolicy::NonCacheable),
    {
        self.set_cache_policy(CachePolicy::NonCacheable)
    }

    /// Request SRAM-backed allocations in addition to current policy.
    pub fn with_try_alloc_sram(self) -> (flags: Self)
        ensures
            flags@ == self@ | RKNN_FLAG_MEMORY_TRY_ALLOC_SRAM,
    {
        self.union(MemAllocFlags::try_alloc_sram())
    }

    /// Is SRAM requested?
    pub fn wants_sram(self) -> (r: bool)
        ensures
            r == (self@ & RKNN_FLAG_MEMORY_TRY_ALLOC_SRAM != 0),
    {
        self.intersects(MemAllocFlags::try_alloc_sram())
    }

    /// The cache policy that the bits of a set select: cacheable where that
    /// bit is set, else non-cacheable where that bit is set, else the
    /// default.
    pub open spec fn policy_of(bits: u32) -> CachePolicy {
        if bits & RKNN_FLAG_MEMORY_CACHEABLE != 0 {
            CachePolicy::Cacheable
        } else if bits & RKNN_FLAG_MEMORY_NON_CACHEABLE != 0 {
            CachePolicy::NonCacheable
        } else {
            CachePolicy::Default
        }
    }

    /// The bits of a set once its cache policy is `policy`: the bits of the
    /// cache policy are those of `policy` alone, and every other bit is as
    /// before.
    pub open spec fn policy_set(bits: u32, policy: CachePolicy) -> u32 {
        (bits & !CACHE_POLICY_BITS) | policy.flag_bits()
    }

    /// Introspect cache policy in a nice typed way.
    pub fn cache_policy(self) -> (policy: CachePolicy)
        ensures
            policy == Self::policy_of(self@),
    {
        if self.intersects(MemAllocFlags::cacheable()) {
            CachePolicy::Cacheable
        } else if self.intersects(MemAllocFlags::non_cacheable()) {
            CachePolicy::NonCacheable
        } else {
            // Either DEFAULT is meant, or nothing was set: DEFAULT has no bit.
            CachePolicy::Default
        }
    }

    // --- private helpers ---
    /// Clear all cache-policy-related bits (CACHEABLE/NON_CACHEABLE/DEFAULT).
    fn clear_cache_policy_bits(self) -> (flags: Self)
        ensures
            flags@ == self@ & !CACHE_POLICY_BITS,
    {
        let policies = MemAllocFlags::cacheable().union(MemAllocFlags::non_cacheable()).union(
            MemAllocFlags::default_flags(),
        );
        assert(1u32 | 2u32 | 0u32 == 3u32) by (bit_vector);
        self.difference(policies)
    }

    fn set_cache_policy(self, policy: CachePolicy) -> (flags: Self)
        ensures
            flags@ == Self::policy_set(self@, policy),
    {
        let base = self.clear_cache_policy_bits();
        match policy {
            CachePolicy::Default => base.union(MemAllocFlags::default_flags()),
            CachePolicy::Cacheable => base.union(MemAllocFlags::cacheable()),
            CachePolicy::NonCacheable => base.union(MemAllocFlags::non_cacheable()),
        }
    }

    /// The cache policies exclude one another: however the policy was set
    /// before, once `policy` is set the set reads back as `policy`, and the
    /// SRAM request is as it was.
    pub proof fn lemma_cache_policy_exclusive(bits: u32, before: CachePolicy, policy: CachePolicy)
        ensures
            Self::policy_of(Self::policy_set(bits, policy)) == policy,
            Self::policy_set(Self::policy_set(bits, before), policy) == Self::policy_set(
                bits,
                policy,
            ),
            Self::policy_set(bits, policy) & !CACHE_POLICY_BITS == bits & !CACHE_POLICY_BITS,
    {
        let p = policy.flag_bits();
        let q = before.flag_bits();
        assert({
            &&& (p == 1u32 ==> ((bits & !3u32) | p) & 1u32 != 0)
            &&& (p == 2u32 ==> ((bits & !3u32) | p) & 1u32 == 0 && ((bits & !3u32) | p) & 2u32 != 0)
            &&& (p == 0u32 ==> ((bits & !3u32) | p) & 1u32 == 0 && ((bits & !3u32) | p) & 2u32 == 0)
            &&& (((bits & !3u32) | q) & !3u32) | p == (bits & !3u32) | p
            &&& ((bits & !3u32) | p) & !3u32 == bits & !3u32
        }) by (bit_vector)
            requires
                p == 0u32 || p == 1u32 || p == 2u32,
                q == 0u32 || q == 1u32 || q == 2u32,
        ;
    }
}

impl From<MemAllocFlags> for u32 {
    fn from(flags: MemAllocFlags) -> (bits: Self) {
        flags.bits()
    }
}

impl vstd::std_specs::convert::FromSpecImpl<MemAllocFlags> for u32 {
    open spec fn obeys_from_spec() -> bool {
        true
    }

    open spec fn from_spec(flags: MemAllocFlags) -> u32 {
        flags@
    }
}

impl From<u32> for MemAllocFlags {
    fn from(bits: u32) -> (flags: Self) {
        // Unknown bits are dropped, not refused.
        Self::from_bits_truncate(bits)
    }
}

impl vstd::std_specs::convert::FromSpecImpl<u32> for MemAllocFlags {
    open spec fn obeys_from_spec() -> bool {
        true
    }

    open spec fn from_spec(bits: u32) -> MemAllocFlags {
        MemAllocFlags::truncated(bits)
    }
}

/// High-level cache policy enum.
#[derive(Clone, Copy, Debug, PartialEq, Eq, Structural)]
pub enum CachePolicy {
    Default,
    Cacheable,
    NonCacheable,
}

impl CachePolicy {
    /// The bits of the flag that stands for the policy.
    pub open spec fn flag_bits(self) -> u32 {
        match self {
            CachePolicy::Default => RKNN_FLAG_MEMORY_FLAGS_DEFAULT,
            CachePolicy::Cacheable => RKNN_FLAG_MEMORY_CACHEABLE,
            CachePolicy::NonCacheable => RKNN_FLAG_MEMORY_NON_CACHEABLE,
        }
    }
}

} // verus!
