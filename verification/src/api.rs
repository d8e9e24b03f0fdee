//! Flags passed to the runtime when a model is loaded.

use crate::bits::{lemma_truncate_within, lemma_within_closed, within};
use crate::sys::{
    RKNN_FLAG_ASYNC_MASK, RKNN_FLAG_COLLECT_MODEL_INFO_ONLY, RKNN_FLAG_COLLECT_PERF_MASK,
    RKNN_FLAG_DISABLE_FLUSH_INPUT_MEM_CACHE, RKNN_FLAG_DISABLE_FLUSH_OUTPUT_MEM_CACHE,
    RKNN_FLAG_DISABLE_PROC_HIGH_PRIORITY, RKNN_FLAG_ENABLE_SRAM,
    RKNN_FLAG_EXECUTE_FALLBACK_PRIOR_DEVICE_GPU, RKNN_FLAG_FENCE_IN_OUTSIDE,
    RKNN_FLAG_FENCE_OUT_OUTSIDE, RKNN_FLAG_INTERNAL_ALLOC_OUTSIDE, RKNN_FLAG_MEM_ALLOC_OUTSIDE,
    RKNN_FLAG_MODEL_BUFFER_ZERO_COPY, RKNN_FLAG_PRIOR_HIGH, RKNN_FLAG_PRIOR_LOW,
    RKNN_FLAG_PRIOR_MEDIUM, RKNN_FLAG_SHARE_SRAM, RKNN_FLAG_SHARE_WEIGHT_MEM,
};
use vstd::prelude::*;

verus! {

/// Every bit that an init flag can have.
pub const INIT_FLAG_BITS: u32 = 0x0001_ffff;

/// The bits of the priority flags.
pub const PRIORITY_BITS: u32 = 0x0000_0003;

proof fn lemma_init_flag(bits: u32)
    by (bit_vector)
    requires
        bits <= 0x0001_ffffu32,
    ensures
        bits & !0x0001_ffffu32 == 0,
{
}

/// Flags passed to `rknn_init` controlling execution behavior.
///
/// A set of the flags defined here: it never holds a bit outside
/// `INIT_FLAG_BITS`.
#[derive(Clone, Copy, Debug, PartialEq, Eq, Hash, Structural)]
pub struct RknnInitFlags {
    bits: u32,
}

impl RknnInitFlags {
    #[verifier::type_invariant]
    spec fn inv(self) -> bool {
        within(self.bits, INIT_FLAG_BITS)
    }

    /// The bits of the set.
    pub closed spec fn view(&self) -> u32 {
        self.bits
    }

    /// Two sets are the same exactly when they have the same bits.
    pub proof fn lemma_same_bits(self, other: Self)
        ensures
            (self@ == other@) == (self == other),
    {
    }

    /// The set of the flags among `bits`.
    pub closed spec fn truncated(bits: u32) -> RknnInitFlags {
        RknnInitFlags { bits: bits & INIT_FLAG_BITS }
    }

    /// Cutting a word down to a set keeps its flags and nothing else.
    pub proof fn lemma_truncated(bits: u32)
        ensures
            Self::truncated(bits)@ == bits & INIT_FLAG_BITS,
    {
    }

    fn single(bit: u32) -> (flags: Self)
        requires
            within(bit, INIT_FLAG_BITS),
        ensures
            flags@ == bit,
    {
        RknnInitFlags { bits: bit }
    }

    /// The flag `RKNN_FLAG_ASYNC_MASK`: asynchronous mode.
    pub fn async_mask() -> (flags: Self)
        ensures
            flags@ == RKNN_FLAG_ASYNC_MASK,
    {
        proof {
            lemma_init_flag(RKNN_FLAG_ASYNC_MASK);
        }
        Self::single(RKNN_FLAG_ASYNC_MASK)
    }

    /// The flag `RKNN_FLAG_COLLECT_MODEL_INFO_ONLY`: load the model for its sizes only.
    pub fn collect_model_info_only() -> (flags: Self)
        ensures
            flags@ == RKNN_FLAG_COLLECT_MODEL_INFO_ONLY,
    {
        proof {
            lemma_init_flag(RKNN_FLAG_COLLECT_MODEL_INFO_ONLY);
        }
        Self::single(RKNN_FLAG_COLLECT_MODEL_INFO_ONLY)
    }

    /// The flag `RKNN_FLAG_COLLECT_PERF_MASK`: collect performance data.
    pub fn collect_perf_mask() -> (flags: Self)
        ensures
            flags@ == RKNN_FLAG_COLLECT_PERF_MASK,
    {
        proof {
            lemma_init_flag(RKNN_FLAG_COLLECT_PERF_MASK);
        }
        Self::single(RKNN_FLAG_COLLECT_PERF_MASK)
    }

    /// The flag `RKNN_FLAG_DISABLE_FLUSH_INPUT_MEM_CACHE`: do not flush the cache of the input buffers.
    pub fn disable_flush_input_mem_cache() -> (flags: Self)
        ensures
            flags@ == RKNN_FLAG_DISABLE_FLUSH_INPUT_MEM_CACHE,
    {
        proof {
            lemma_init_flag(RKNN_FLAG_DISABLE_FLUSH_INPUT_MEM_CACHE);
        }
        Self::single(RKNN_FLAG_DISABLE_FLUSH_INPUT_MEM_CACHE)
    }

    /// The flag `RKNN_FLAG_DISABLE_FLUSH_OUTPUT_MEM_CACHE`: do not invalidate the cache of the output buffers.
    pub fn disable_flush_output_mem_cache() -> (flags: Self)
        ensures
            flags@ == RKNN_FLAG_DISABLE_FLUSH_OUTPUT_MEM_CACHE,
    {
        proof {
            lemma_init_flag(RKNN_FLAG_DISABLE_FLUSH_OUTPUT_MEM_CACHE);
        }
        Self::single(RKNN_FLAG_DISABLE_FLUSH_OUTPUT_MEM_CACHE)
    }

    /// The flag `RKNN_FLAG_DISABLE_PROC_HIGH_PRIORITY`: do not raise the priority of the process.
    pub fn disable_proc_high_priority() -> (flags: Self)
        ensures
            flags@ == RKNN_FLAG_DISABLE_PROC_HIGH_PRIORITY,
    {
        proof {
            lemma_init_flag(RKNN_FLAG_DISABLE_PROC_HIGH_PRIORITY);
        }
        Self::single(RKNN_FLAG_DISABLE_PROC_HIGH_PRIORITY)
    }

    /// The flag `RKNN_FLAG_ENABLE_SRAM`: allocate buffers in SRAM.
    pub fn enable_sram() -> (flags: Self)
        ensures
            flags@ == RKNN_FLAG_ENABLE_SRAM,
    {
        proof {
            lemma_init_flag(RKNN_FLAG_ENABLE_SRAM);
        }
        Self::single(RKNN_FLAG_ENABLE_SRAM)
    }

    /// The flag `RKNN_FLAG_EXECUTE_FALLBACK_PRIOR_DEVICE_GPU`: prefer the GPU for what the NPU cannot run.
    pub fn execute_fallback_prior_device_gpu() -> (flags: Self)
        ensures
            flags@ == RKNN_FLAG_EXECUTE_FALLBACK_PRIOR_DEVICE_GPU,
    {
        proof {
            lemma_init_flag(RKNN_FLAG_EXECUTE_FALLBACK_PRIOR_DEVICE_GPU);
        }
        Self::single(RKNN_FLAG_EXECUTE_FALLBACK_PRIOR_DEVICE_GPU)
    }

    /// The flag `RKNN_FLAG_FENCE_IN_OUTSIDE`: the input fence comes from outside.
    pub fn fence_in_outside() -> (flags: Self)
        ensures
            flags@ == RKNN_FLAG_FENCE_IN_OUTSIDE,
    {
        proof {
            lemma_init_flag(RKNN_FLAG_FENCE_IN_OUTSIDE);
        }
        Self::single(RKNN_FLAG_FENCE_IN_OUTSIDE)
    }

    /// The flag `RKNN_FLAG_FENCE_OUT_OUTSIDE`: the output fence goes outside.
    pub fn fence_out_outside() -> (flags: Self)
        ensures
            flags@ == RKNN_FLAG_FENCE_OUT_OUTSIDE,
    {
        proof {
            lemma_init_flag(RKNN_FLAG_FENCE_OUT_OUTSIDE);
        }
        Self::single(RKNN_FLAG_FENCE_OUT_OUTSIDE)
    }

    /// The flag `RKNN_FLAG_INTERNAL_ALLOC_OUTSIDE`: internal memory is allocated outside.
    pub fn internal_alloc_outside() -> (flags: Self)
        ensures
            flags@ == RKNN_FLAG_INTERNAL_ALLOC_OUTSIDE,
    {
        proof {
            lemma_init_flag(RKNN_FLAG_INTERNAL_ALLOC_OUTSIDE);
        }
        Self::single(RKNN_FLAG_INTERNAL_ALLOC_OUTSIDE)
    }

    /// The flag `RKNN_FLAG_MEM_ALLOC_OUTSIDE`: all memory is allocated outside.
    pub fn mem_alloc_outside() -> (flags: Self)
        ensures
            flags@ == RKNN_FLAG_MEM_ALLOC_OUTSIDE,
    {
        proof {
            lemma_init_flag(RKNN_FLAG_MEM_ALLOC_OUTSIDE);
        }
        Self::single(RKNN_FLAG_MEM_ALLOC_OUTSIDE)
    }

    /// The flag `RKNN_FLAG_MODEL_BUFFER_ZERO_COPY`: the model buffer is used without a copy.
    pub fn model_buffer_zero_copy() -> (flags: Self)
        ensures
            flags@ == RKNN_FLAG_MODEL_BUFFER_ZERO_COPY,
    {
        proof {
            lemma_init_flag(RKNN_FLAG_MODEL_BUFFER_ZERO_COPY);
        }
        Self::single(RKNN_FLAG_MODEL_BUFFER_ZERO_COPY)
    }

    /// The flag `RKNN_FLAG_PRIOR_HIGH`: high priority; it has no bit of its own.
    pub fn prior_high() -> (flags: Self)
        ensures
            flags@ == RKNN_FLAG_PRIOR_HIGH,
    {
        proof {
            lemma_init_flag(RKNN_FLAG_PRIOR_HIGH);
        }
        Self::single(RKNN_FLAG_PRIOR_HIGH)
    }

    /// The flag `RKNN_FLAG_PRIOR_MEDIUM`: medium priority.
    pub fn prior_medium() -> (flags: Self)
        ensures
            flags@ == RKNN_FLAG_PRIOR_MEDIUM,
    {
        proof {
            lemma_init_flag(RKNN_FLAG_PRIOR_MEDIUM);
        }
        Self::single(RKNN_FLAG_PRIOR_MEDIUM)
    }

    /// The flag `RKNN_FLAG_PRIOR_LOW`: low priority.
    pub fn prior_low() -> (flags: Self)
        ensures
            flags@ == RKNN_FLAG_PRIOR_LOW,
    {
        proof {
            lemma_init_flag(RKNN_FLAG_PRIOR_LOW);
        }
        Self::single(RKNN_FLAG_PRIOR_LOW)
    }

    /// The flag `RKNN_FLAG_SHARE_SRAM`: SRAM buffers are shared among contexts.
    pub fn share_sram() -> (flags: Self)
        ensures
            flags@ == RKNN_FLAG_SHARE_SRAM,
    {
        proof {
            lemma_init_flag(RKNN_FLAG_SHARE_SRAM);
        }
        Self::single(RKNN_FLAG_SHARE_SRAM)
    }

    /// The flag `RKNN_FLAG_SHARE_WEIGHT_MEM`: weights are shared with a context of the same network.
    pub fn share_weight_mem() -> (flags: Self)
        ensures
            flags@ == RKNN_FLAG_SHARE_WEIGHT_MEM,
    {
        proof {
            lemma_init_flag(RKNN_FLAG_SHARE_WEIGHT_MEM);
        }
        Self::single(RKNN_FLAG_SHARE_WEIGHT_MEM)
    }

    /// The bits of all flags together are `INIT_FLAG_BITS`.
    pub proof fn lemma_all_flags()
        ensures
            RKNN_FLAG_ASYNC_MASK | RKNN_FLAG_COLLECT_MODEL_INFO_ONLY | RKNN_FLAG_COLLECT_PERF_MASK
                | RKNN_FLAG_DISABLE_FLUSH_INPUT_MEM_CACHE | RKNN_FLAG_DISABLE_FLUSH_OUTPUT_MEM_CACHE
                | RKNN_FLAG_DISABLE_PROC_HIGH_PRIORITY | RKNN_FLAG_ENABLE_SRAM
                | RKNN_FLAG_EXECUTE_FALLBACK_PRIOR_DEVICE_GPU | RKNN_FLAG_FENCE_IN_OUTSIDE
                | RKNN_FLAG_FENCE_OUT_OUTSIDE | RKNN_FLAG_INTERNAL_ALLOC_OUTSIDE
                | RKNN_FLAG_MEM_ALLOC_OUTSIDE | RKNN_FLAG_MODEL_BUFFER_ZERO_COPY
                | RKNN_FLAG_PRIOR_HIGH | RKNN_FLAG_PRIOR_MEDIUM | RKNN_FLAG_PRIOR_LOW
                | RKNN_FLAG_SHARE_SRAM | RKNN_FLAG_SHARE_WEIGHT_MEM == INIT_FLAG_BITS,
            RKNN_FLAG_PRIOR_HIGH | RKNN_FLAG_PRIOR_MEDIUM | RKNN_FLAG_PRIOR_LOW == PRIORITY_BITS,
    {
        assert(0x4u32 | 0x100u32 | 0x8u32 | 0x4000u32 | 0x8000u32 | 0x2000u32 | 0x800u32 | 0x400u32
            | 0x40u32 | 0x80u32 | 0x200u32 | 0x10u32 | 0x1_0000u32 | 0x0u32 | 0x1u32 | 0x2u32
            | 0x1000u32 | 0x20u32 == 0x1_ffffu32 && 0x0u32 | 0x1u32 | 0x2u32 == 0x3u32)
            by (bit_vector);
    }

    /// The empty set.
    pub fn empty() -> (flags: Self)
        ensures
            flags@ == 0,
    {
        proof {
            lemma_init_flag(0);
        }
        Self::single(0)
    }

    /// The set of all flags.
    pub fn all() -> (flags: Self)
        ensures
            flags@ == INIT_FLAG_BITS,
    {
        proof {
            lemma_init_flag(INIT_FLAG_BITS);
        }
        Self::single(INIT_FLAG_BITS)
    }

    /// The bits of the set, as the runtime takes them.
    pub fn bits(&self) -> (bits: u32)
        ensures
            bits == self@,
            within(bits, INIT_FLAG_BITS),
    {
        proof {
            use_type_invariant(self);
        }
        self.bits
    }

    /// The set of the flags among `bits`; bits that are no flag are dropped.
    pub fn from_bits_truncate(bits: u32) -> (flags: Self)
        ensures
            flags@ == bits & INIT_FLAG_BITS,
            flags == Self::truncated(bits),
    {
        proof {
            lemma_truncate_within(bits, INIT_FLAG_BITS);
        }
        RknnInitFlags { bits: bits & INIT_FLAG_BITS }
    }

    /// Whether the set is empty.
    pub fn is_empty(&self) -> (r: bool)
        ensures
            r == (self@ == 0),
    {
        self.bits == 0
    }

    /// Whether every flag of `other` is in the set.
    pub fn contains(&self, other: Self) -> (r: bool)
        ensures
            r == (self@ & other@ == other@),
    {
        self.bits & other.bits == other.bits
    }

    /// Whether some flag of `other` is in the set.
    pub fn intersects(&self, other: Self) -> (r: bool)
        ensures
            r == (self@ & other@ != 0),
    {
        self.bits & other.bits != 0
    }

    /// The flags of either set.
    pub fn union(self, other: Self) -> (flags: Self)
        ensures
            flags@ == self@ | other@,
    {
        proof {
            use_type_invariant(self);
            use_type_invariant(other);
            lemma_within_closed(self.bits, other.bits, INIT_FLAG_BITS);
        }
        RknnInitFlags { bits: self.bits | other.bits }
    }

    /// The flags of both sets.
    pub fn intersection(self, other: Self) -> (flags: Self)
        ensures
            flags@ == self@ & other@,
    {
        proof {
            use_type_invariant(self);
            use_type_invariant(other);
            lemma_within_closed(self.bits, other.bits, INIT_FLAG_BITS);
        }
        RknnInitFlags { bits: self.bits & other.bits }
    }

    /// The flags of this set that are not in `other`.
    pub fn difference(self, other: Self) -> (flags: Self)
        ensures
            flags@ == self@ & !other@,
    {
        proof {
            use_type_invariant(self);
            use_type_invariant(other);
            lemma_within_closed(self.bits, other.bits, INIT_FLAG_BITS);
        }
        RknnInitFlags { bits: self.bits & !other.bits }
    }

    /// The flags that are not in this set.
    pub fn complement(self) -> (flags: Self)
        ensures
            flags@ == !self@ & INIT_FLAG_BITS,
    {
        proof {
            use_type_invariant(self);
            lemma_within_closed(self.bits, self.bits, INIT_FLAG_BITS);
        }
        RknnInitFlags { bits: !self.bits & INIT_FLAG_BITS }
    }

    /// Start from "no flags".
    pub fn builder() -> (flags: Self)
        ensures
            flags@ == 0,
    {
        Self::empty()
    }

    pub fn with_async(self) -> (flags: Self)
        ensures
            flags@ == self@ | RKNN_FLAG_ASYNC_MASK,
    {
        self.union(Self::async_mask())
    }

    pub fn with_model_info_only(self) -> (flags: Self)
        ensures
            flags@ == self@ | RKNN_FLAG_COLLECT_MODEL_INFO_ONLY,
    {
        self.union(Self::collect_model_info_only())
    }

    pub fn with_perf_collection(self) -> (flags: Self)
        ensures
            flags@ == self@ | RKNN_FLAG_COLLECT_PERF_MASK,
    {
        self.union(Self::collect_perf_mask())
    }

    pub fn with_zero_copy_model_buffer(self) -> (flags: Self)
        ensures
            flags@ == self@ | RKNN_FLAG_MODEL_BUFFER_ZERO_COPY,
    {
        self.union(Self::model_buffer_zero_copy())
    }

    pub fn with_share_sram(self) -> (flags: Self)
        ensures
            flags@ == self@ | RKNN_FLAG_SHARE_SRAM,
    {
        self.union(Self::share_sram())
    }

    pub fn with_share_weight_mem(self) -> (flags: Self)
        ensures
            flags@ == self@ | RKNN_FLAG_SHARE_WEIGHT_MEM,
    {
        self.union(Self::share_weight_mem())
    }

    pub fn with_external_mem_alloc(self) -> (flags: Self)
        ensures
            flags@ == self@ | RKNN_FLAG_MEM_ALLOC_OUTSIDE,
    {
        self.union(Self::mem_alloc_outside())
    }

    pub fn with_external_internal_alloc(self) -> (flags: Self)
        ensures
            flags@ == self@ | RKNN_FLAG_INTERNAL_ALLOC_OUTSIDE,
    {
        self.union(Self::internal_alloc_outside())
    }

    pub fn with_no_input_cache_flush(self) -> (flags: Self)
        ensures
            flags@ == self@ | RKNN_FLAG_DISABLE_FLUSH_INPUT_MEM_CACHE,
    {
        self.union(Self::disable_flush_input_mem_cache())
    }

    pub fn with_no_output_cache_flush(self) -> (flags: Self)
        ensures
            flags@ == self@ | RKNN_FLAG_DISABLE_FLUSH_OUTPUT_MEM_CACHE,
    {
        self.union(Self::disable_flush_output_mem_cache())
    }

    pub fn with_no_proc_high_priority(self) -> (flags: Self)
        ensures
            flags@ == self@ | RKNN_FLAG_DISABLE_PROC_HIGH_PRIORITY,
    {
        self.union(Self::disable_proc_high_priority())
    }

    pub fn with_enable_sram(self) -> (flags: Self)
        ensures
            flags@ == self@ | RKNN_FLAG_ENABLE_SRAM,
    {
        self.union(Self::enable_sram())
    }

    pub fn with_gpu_fallback(self) -> (flags: Self)
        ensures
            flags@ == self@ | RKNN_FLAG_EXECUTE_FALLBACK_PRIOR_DEVICE_GPU,
    {
        self.union(Self::execute_fallback_prior_device_gpu())
    }

    pub fn with_fence_in_outside(self) -> (flags: Self)
        ensures
            flags@ == self@ | RKNN_FLAG_FENCE_IN_OUTSIDE,
    {
        self.union(Self::fence_in_outside())
    }

    pub fn with_fence_out_outside(self) -> (flags: Self)
        ensures
            flags@ == self@ | RKNN_FLAG_FENCE_OUT_OUTSIDE,
    {
        self.union(Self::fence_out_outside())
    }

    /// The bits of a set once its priority is `priority`: the priority bits
    /// are those of `priority` alone, and every other bit is as before.
    pub open spec fn priority_set(bits: u32, priority: Priority) -> u32 {
        (bits & !PRIORITY_BITS) | priority.flag_bits()
    }

    /// Clear existing priority bits and set a new one.
    pub fn with_priority(self, priority: Priority) -> (flags: Self)
        ensures
            flags@ == Self::priority_set(self@, priority),
            flags@ & PRIORITY_BITS == priority.flag_bits(),
            flags@ & !PRIORITY_BITS == self@ & !PRIORITY_BITS,
    {
        let priorities = Self::prior_low().union(Self::prior_medium()).union(Self::prior_high());
        let cleared = self.intersection(priorities.complement());
        let flags = cleared.union(priority.as_flags());
        proof {
            use_type_invariant(self);
            let b = self.bits;
            let p = priority.flag_bits();
            assert(b & (!(2u32 | 1u32 | 0u32) & 0x0001_ffffu32) == b & !3u32) by (bit_vector)
                requires
                    b & !0x0001_ffffu32 == 0,
            ;
            Self::lemma_priority_bits(b, priority);
        }
        flags
    }

    /// Setting a priority leaves exactly that priority's bits among the
    /// priority bits, and touches no other bit.
    pub proof fn lemma_priority_bits(bits: u32, priority: Priority)
        ensures
            Self::priority_set(bits, priority) & PRIORITY_BITS == priority.flag_bits(),
            Self::priority_set(bits, priority) & !PRIORITY_BITS == bits & !PRIORITY_BITS,
    {
        let p = priority.flag_bits();
        assert(((bits & !3u32) | p) & 3u32 == p && ((bits & !3u32) | p) & !3u32 == bits & !3u32)
            by (bit_vector)
            requires
                p == 0u32 || p == 1u32 || p == 2u32,
        ;
    }

    /// The priority setters exclude one another: however a priority was set
    /// before, after the priority `chosen` is set the flags are what setting
    /// `chosen` alone gives, they hold the flag of `chosen`, and they hold the
    /// flag of no other priority that has a bit of its own. (High priority
    /// has none: its flag is the empty set, which every set holds.)
    pub proof fn lemma_priority_exclusive(bits: u32, before: Priority, chosen: Priority, other: Priority)
        requires
            other != chosen,
            other != Priority::High,
        ensures
            Self::priority_set(Self::priority_set(bits, before), chosen) == Self::priority_set(
                bits,
                chosen,
            ),
            Self::priority_set(bits, chosen) & chosen.flag_bits() == chosen.flag_bits(),
            Self::priority_set(bits, chosen) & other.flag_bits() != other.flag_bits(),
    {
        let p = before.flag_bits();
        let q = chosen.flag_bits();
        let o = other.flag_bits();
        assert((((bits & !3u32) | p) & !3u32) | q == (bits & !3u32) | q) by (bit_vector)
            requires
                p == 0u32 || p == 1u32 || p == 2u32,
        ;
        assert(((bits & !3u32) | q) & q == q) by (bit_vector);
        assert(((bits & !3u32) | q) & o != o) by (bit_vector)
            requires
                q == 0u32 || q == 1u32 || q == 2u32,
                o == 1u32 || o == 2u32,
                o != q,
        ;
    }
}

impl From<RknnInitFlags> for u32 {
    fn from(flags: RknnInitFlags) -> (bits: Self) {
        flags.bits()
    }
}

impl vstd::std_specs::convert::FromSpecImpl<RknnInitFlags> for u32 {
    open spec fn obeys_from_spec() -> bool {
        true
    }

    open spec fn from_spec(flags: RknnInitFlags) -> u32 {
        flags@
    }
}

impl From<u32> for RknnInitFlags {
    fn from(bits: u32) -> (flags: Self) {
        Self::from_bits_truncate(bits)
    }
}

impl vstd::std_specs::convert::FromSpecImpl<u32> for RknnInitFlags {
    open spec fn obeys_from_spec() -> bool {
        true
    }

    open spec fn from_spec(bits: u32) -> RknnInitFlags {
        RknnInitFlags::truncated(bits)
    }
}

#[derive(Clone, Copy, Debug, PartialEq, Eq, Structural)]
pub enum Priority {
    Low,
    Medium,
    High,
}

impl Priority {
    /// The bits of the flag that stands for the priority.
    pub open spec fn flag_bits(self) -> u32 {
        match self {
            Priority::Low => RKNN_FLAG_PRIOR_LOW,
            Priority::Medium => RKNN_FLAG_PRIOR_MEDIUM,
            Priority::High => RKNN_FLAG_PRIOR_HIGH,
        }
    }

    pub fn as_flags(self) -> (flags: RknnInitFlags)
        ensures
            flags@ == self.flag_bits(),
    {
        match self {
            Priority::Low => RknnInitFlags::prior_low(),
            Priority::Medium => RknnInitFlags::prior_medium(),
            Priority::High => RknnInitFlags::prior_high(),
        }
    }
}

} // verus!
