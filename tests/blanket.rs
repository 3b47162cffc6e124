use yep_cache_line_size::blanket::{
    cache_line_size, cache_size, get_cache_line_size, get_l1_cache_line_size, l1_cache_line_size,
    l1_cache_size, l2_cache_line_size, l2_cache_size, l3_cache_line_size, l3_cache_size,
};
use yep_cache_line_size::{CacheInfoError, CacheLevel, CacheType};

#[test]
fn test_l1_cache_size() {
    assert_eq!(l1_cache_size(), None);
}

#[test]
fn test_l1_cache_line_size() {
    assert_eq!(l1_cache_line_size(), None)
}

#[test]
fn test_l2_cache_size() {
    assert_eq!(l2_cache_size(), None);
}

#[test]
fn test_l2_cache_line_size() {
    assert_eq!(l2_cache_line_size(), None);
}

#[test]
fn test_l3_cache_size() {
    assert_eq!(l3_cache_size(), None);
}

#[test]
fn test_l3_cache_line_size() {
    assert_eq!(l3_cache_line_size(), None);
}

#[test]
fn fallback_never_succeeds() {
    let levels = [
        CacheLevel::L1,
        CacheLevel::L2,
        CacheLevel::L3,
        CacheLevel::Other(0),
        CacheLevel::Other(4),
        CacheLevel::Other(255),
    ];
    let types = [CacheType::Data, CacheType::Instruction, CacheType::Unified];
    for level in levels {
        for cache_type in types {
            assert_eq!(
                get_cache_line_size(level, cache_type),
                Err(CacheInfoError::Unsupported)
            );
            assert_eq!(cache_line_size(level, cache_type), None);
            assert_eq!(cache_size(level, cache_type), None);
        }
    }
    assert_eq!(get_l1_cache_line_size(), None);
}
