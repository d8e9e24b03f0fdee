use rknpu2::api::{Priority, RknnInitFlags};
use rknpu2::rknn::{CachePolicy, MemAllocFlags, NpuCores};

#[test]
fn init_flags_builder_starts_empty() {
    let flags = RknnInitFlags::builder();
    assert_eq!(flags.bits(), 0);
    assert!(flags.is_empty());
    assert_eq!(flags, RknnInitFlags::empty());
}

#[test]
fn init_flags_builders_set_their_bit() {
    assert_eq!(RknnInitFlags::builder().with_async().bits(), 0x4);
    assert_eq!(RknnInitFlags::builder().with_perf_collection().bits(), 0x8);
    assert_eq!(RknnInitFlags::builder().with_external_mem_alloc().bits(), 0x10);
    assert_eq!(RknnInitFlags::builder().with_share_weight_mem().bits(), 0x20);
    assert_eq!(RknnInitFlags::builder().with_fence_in_outside().bits(), 0x40);
    assert_eq!(RknnInitFlags::builder().with_fence_out_outside().bits(), 0x80);
    assert_eq!(RknnInitFlags::builder().with_model_info_only().bits(), 0x100);
    assert_eq!(
        RknnInitFlags::builder().with_external_internal_alloc().bits(),
        0x200
    );
    assert_eq!(RknnInitFlags::builder().with_gpu_fallback().bits(), 0x400);
    assert_eq!(RknnInitFlags::builder().with_enable_sram().bits(), 0x800);
    assert_eq!(RknnInitFlags::builder().with_share_sram().bits(), 0x1000);
    assert_eq!(
        RknnInitFlags::builder().with_no_proc_high_priority().bits(),
        0x2000
    );
    assert_eq!(
        RknnInitFlags::builder().with_no_input_cache_flush().bits(),
        0x4000
    );
    assert_eq!(
        RknnInitFlags::builder().with_no_output_cache_flush().bits(),
        0x8000
    );
    assert_eq!(
        RknnInitFlags::builder().with_zero_copy_model_buffer().bits(),
        0x10000
    );
}

#[test]
fn init_flags_builders_accumulate() {
    let flags = RknnInitFlags::builder()
        .with_async()
        .with_perf_collection()
        .with_enable_sram();
    assert_eq!(flags.bits(), 0x4 | 0x8 | 0x800);
    assert!(flags.contains(RknnInitFlags::async_mask()));
    assert!(flags.contains(RknnInitFlags::collect_perf_mask()));
    assert!(!flags.contains(RknnInitFlags::share_sram()));
    // a builder applied twice changes nothing
    assert_eq!(flags.with_async(), flags);
}

#[test]
fn init_flags_from_bits_drops_unknown_bits() {
    let flags = RknnInitFlags::from(0xffff_ffffu32);
    assert_eq!(flags.bits(), 0x0001_ffff);
    assert_eq!(flags, RknnInitFlags::all());
    assert_eq!(u32::from(RknnInitFlags::from(0x0002_0004u32)), 0x4);
    assert_eq!(RknnInitFlags::from_bits_truncate(0x8).bits(), 0x8);
}

#[test]
fn init_flags_set_operations() {
    let a = RknnInitFlags::from_bits_truncate(0b1100);
    let b = RknnInitFlags::from_bits_truncate(0b0110);
    assert_eq!(a.union(b).bits(), 0b1110);
    assert_eq!(a.intersection(b).bits(), 0b0100);
    assert_eq!(a.difference(b).bits(), 0b1000);
    assert_eq!(a.complement().bits(), 0x0001_ffff & !0b1100);
    assert!(a.intersects(b));
    assert!(!a.intersects(RknnInitFlags::from_bits_truncate(0b0011)));
}

#[test]
fn priority_as_flags() {
    assert_eq!(Priority::Low.as_flags().bits(), 0x2);
    assert_eq!(Priority::Medium.as_flags().bits(), 0x1);
    assert_eq!(Priority::High.as_flags().bits(), 0x0);
}

#[test]
fn priority_high_after_low_excludes_low_and_medium() {
    let flags = RknnInitFlags::empty()
        .with_priority(Priority::Low)
        .with_priority(Priority::High);
    assert!(flags.contains(RknnInitFlags::prior_high()));
    assert!(!flags.contains(RknnInitFlags::prior_low()));
    assert!(!flags.contains(RknnInitFlags::prior_medium()));
    assert_eq!(flags.bits(), 0);
}

#[test]
fn priority_setters_are_mutually_exclusive() {
    let priorities = [Priority::Low, Priority::Medium, Priority::High];
    let base = RknnInitFlags::builder().with_async().with_share_sram();
    for before in priorities {
        for chosen in priorities {
            let flags = base.with_priority(before).with_priority(chosen);
            assert_eq!(flags, base.with_priority(chosen));
            assert_eq!(flags.bits() & 0x3, chosen.as_flags().bits());
            assert_eq!(flags.bits() & !0x3, base.bits());
            assert!(flags.contains(chosen.as_flags()));
            for other in priorities {
                if other != chosen && other != Priority::High {
                    assert!(!flags.contains(other.as_flags()));
                }
            }
        }
    }
}

#[test]
fn priority_clears_both_bits_set_from_raw_bits() {
    let flags = RknnInitFlags::from_bits_truncate(0x3 | 0x4).with_priority(Priority::Medium);
    assert_eq!(flags.bits(), 0x1 | 0x4);
}

#[test]
fn npu_cores_builders() {
    assert!(NpuCores::auto().is_auto());
    assert!(NpuCores::builder().is_auto());
    assert_eq!(NpuCores::builder().with_core0().bits(), 1);
    assert_eq!(NpuCores::builder().with_core1().bits(), 2);
    assert_eq!(NpuCores::builder().with_core2().bits(), 4);
    assert_eq!(
        NpuCores::builder().with_core0().with_core1(),
        NpuCores::core0_1()
    );
    assert_eq!(
        NpuCores::builder().with_core0().with_core1().with_core2(),
        NpuCores::cores_0_1_2()
    );
    assert_eq!(NpuCores::cores_0_1_2().bits(), 7);
    assert!(!NpuCores::cores_0_1_2().is_auto());
}

#[test]
fn npu_cores_all_is_wider_than_three_cores() {
    assert_eq!(NpuCores::all().bits(), 0xffff);
    assert_ne!(NpuCores::all(), NpuCores::cores_0_1_2());
    assert!(NpuCores::all().contains(NpuCores::cores_0_1_2()));
}

#[test]
fn npu_cores_from_bits_drops_unknown_bits() {
    assert_eq!(NpuCores::from(0x0003_0005u32).bits(), 0x5);
    assert_eq!(u32::from(NpuCores::core2()), 4);
    assert!(NpuCores::from(0x0001_0000u32).is_auto());
}

#[test]
fn mem_alloc_flags_builder_is_default() {
    let flags = MemAllocFlags::builder();
    assert_eq!(flags.bits(), 0);
    assert_eq!(flags.cache_policy(), CachePolicy::Default);
    assert!(!flags.wants_sram());
}

#[test]
fn mem_alloc_cache_policies_exclude_one_another() {
    let setters: [(fn(MemAllocFlags) -> MemAllocFlags, CachePolicy, u32); 3] = [
        (MemAllocFlags::with_default, CachePolicy::Default, 0),
        (MemAllocFlags::with_cacheable, CachePolicy::Cacheable, 1),
        (MemAllocFlags::with_non_cacheable, CachePolicy::NonCacheable, 2),
    ];
    for base_bits in 0..8u32 {
        let base = MemAllocFlags::from_bits_truncate(base_bits);
        for (first, _, _) in setters {
            for (second, policy, bits) in setters {
                let flags = second(first(base));
                assert_eq!(flags.cache_policy(), policy);
                assert_eq!(flags.bits() & 0x3, bits);
                assert_eq!(flags.wants_sram(), base.wants_sram());
            }
        }
    }
}

#[test]
fn mem_alloc_cacheable_wins_when_both_bits_are_set() {
    let flags = MemAllocFlags::from_bits_truncate(0x3);
    assert_eq!(flags.cache_policy(), CachePolicy::Cacheable);
    assert_eq!(
        MemAllocFlags::from_bits_truncate(0x2).cache_policy(),
        CachePolicy::NonCacheable
    );
}

#[test]
fn mem_alloc_sram_is_independent_of_policy() {
    let flags = MemAllocFlags::builder()
        .with_try_alloc_sram()
        .with_non_cacheable();
    assert!(flags.wants_sram());
    assert_eq!(flags.bits(), 0x4 | 0x2);
    assert_eq!(flags.with_cacheable().bits(), 0x4 | 0x1);
    assert_eq!(flags.with_default().bits(), 0x4);
}

#[test]
fn mem_alloc_from_bits_drops_unknown_bits() {
    assert_eq!(MemAllocFlags::from(0xffu32).bits(), 0x7);
    assert_eq!(u32::from(MemAllocFlags::cacheable()), 1);
}
