//! Numeric codecs of the configuration enums and the creation flags.

use cuda_context::config::{CacheConfig, ResourceLimit, SharedMemoryConfig};
use cuda_context::flags::{
    ContextFlags, FLAGS_MASK, FLAG_LMEM_RESIZE_TO_MAX, FLAG_MAP_HOST, FLAG_SCHED_AUTO,
    FLAG_SCHED_BLOCKING_SYNC, FLAG_SCHED_SPIN, FLAG_SCHED_YIELD,
};

#[test]
fn cache_config_codes_are_exact() {
    let all = [
        (CacheConfig::PreferNone, 0u32),
        (CacheConfig::PreferShared, 1),
        (CacheConfig::PreferL1, 2),
        (CacheConfig::PreferEqual, 3),
    ];
    for (cfg, code) in all {
        assert_eq!(cfg.to_raw(), code);
        assert_eq!(CacheConfig::from_raw(code), Some(cfg));
    }
    assert_eq!(CacheConfig::from_raw(4), None);
}

#[test]
fn shared_memory_config_codes_are_exact() {
    let all = [
        (SharedMemoryConfig::DefaultBankSize, 0u32),
        (SharedMemoryConfig::FourByteBankSize, 1),
        (SharedMemoryConfig::EightByteBankSize, 2),
    ];
    for (cfg, code) in all {
        assert_eq!(cfg.to_raw(), code);
        assert_eq!(SharedMemoryConfig::from_raw(code), Some(cfg));
    }
    assert_eq!(SharedMemoryConfig::from_raw(3), None);
}

#[test]
fn resource_limit_codes_are_exact() {
    let all = [
        (ResourceLimit::StackSize, 0u32),
        (ResourceLimit::PrintfFifoSize, 1),
        (ResourceLimit::MallocHeapSize, 2),
        (ResourceLimit::DeviceRuntimeSynchronizeDepth, 3),
        (ResourceLimit::DeviceRuntimePendingLaunchCount, 4),
        (ResourceLimit::MaxL2FetchGranularity, 5),
    ];
    for (limit, code) in all {
        assert_eq!(limit.to_raw(), code);
        assert_eq!(ResourceLimit::from_raw(code), Some(limit));
    }
    assert_eq!(ResourceLimit::from_raw(6), None);
}

#[test]
fn flag_bits_match_the_native_words() {
    assert_eq!(FLAG_SCHED_AUTO, 0x00);
    assert_eq!(FLAG_SCHED_SPIN, 0x01);
    assert_eq!(FLAG_SCHED_YIELD, 0x02);
    assert_eq!(FLAG_SCHED_BLOCKING_SYNC, 0x04);
    assert_eq!(FLAG_MAP_HOST, 0x08);
    assert_eq!(FLAG_LMEM_RESIZE_TO_MAX, 0x10);
    assert_eq!(FLAGS_MASK, 0x1f);

    assert_eq!(ContextFlags::empty().bits(), 0);
    assert_eq!(ContextFlags::sched_spin().bits(), 0x01);
    assert_eq!(ContextFlags::sched_yield().bits(), 0x02);
    assert_eq!(ContextFlags::sched_blocking_sync().bits(), 0x04);
    assert_eq!(ContextFlags::sched_auto().bits(), 0x00);
    assert_eq!(ContextFlags::map_host().bits(), 0x08);
    assert_eq!(ContextFlags::lmem_resize_to_max().bits(), 0x10);
}

#[test]
fn flag_union_and_contains() {
    let f = ContextFlags::map_host().union(&ContextFlags::sched_blocking_sync());
    assert_eq!(f.bits(), 0x0c);
    assert!(f.contains(&ContextFlags::map_host()));
    assert!(f.contains(&ContextFlags::sched_blocking_sync()));
    assert!(!f.contains(&ContextFlags::sched_spin()));
    assert!(f.contains(&ContextFlags::empty()));
}

#[test]
fn flag_truncation_drops_unknown_bits() {
    let f = ContextFlags::from_bits_truncate(0xffff_ffe9);
    assert_eq!(f.bits(), 0x09);
    assert_eq!(ContextFlags::from_bits(0x09).unwrap().bits(), 0x09);
    assert_eq!(ContextFlags::from_bits(0x20), None);

    let wf = ContextFlags::map_host().union(&ContextFlags::sched_yield());
    assert_eq!(ContextFlags::from_bits_truncate(wf.bits()), wf);
}
