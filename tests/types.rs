use yep_cache_line_size::{CacheInfoError, CacheLevel, CacheType};

#[test]
fn named_levels_round_trip() {
    for level in [CacheLevel::L1, CacheLevel::L2, CacheLevel::L3] {
        assert_eq!(CacheLevel::from_u8(level.as_u8()), level);
    }
    assert_eq!(CacheLevel::L1.as_u8(), 1);
    assert_eq!(CacheLevel::L2.as_u8(), 2);
    assert_eq!(CacheLevel::L3.as_u8(), 3);
}

#[test]
fn other_levels_round_trip() {
    for n in 0u8..=255 {
        let level = CacheLevel::from_u8(n);
        assert_eq!(level.as_u8(), n);
        if n == 1 || n == 2 || n == 3 {
            continue;
        }
        assert_eq!(level, CacheLevel::Other(n));
        assert_eq!(CacheLevel::from_u8(CacheLevel::Other(n).as_u8()), CacheLevel::Other(n));
    }
}

#[test]
fn from_numbers() {
    assert_eq!(CacheLevel::from_u8(1), CacheLevel::L1);
    assert_eq!(CacheLevel::from_u8(2), CacheLevel::L2);
    assert_eq!(CacheLevel::from_u8(3), CacheLevel::L3);
    assert_eq!(CacheLevel::from(0u8), CacheLevel::Other(0));
    assert_eq!(CacheLevel::from(2u8), CacheLevel::L2);
    assert_eq!(u8::from(CacheLevel::L3), 3);
    assert_eq!(u8::from(CacheLevel::Other(9)), 9);
}

#[test]
fn cache_type_tags() {
    assert_eq!(CacheType::Data.tag(), 1);
    assert_eq!(CacheType::Instruction.tag(), 2);
    assert_eq!(CacheType::Unified.tag(), 3);
}

#[test]
fn error_messages() {
    assert_eq!(
        CacheInfoError::Unsupported.message(),
        "retrieving cache metadata is not supported on this system"
    );
    assert_eq!(
        CacheInfoError::NotPresent.message(),
        "the requested cache level/type combination is not present"
    );
    assert_eq!(
        CacheInfoError::InvalidValue.message(),
        "the CPU reported invalid cache metadata"
    );
    assert_ne!(CacheInfoError::Unsupported, CacheInfoError::NotPresent);
    assert_ne!(CacheInfoError::NotPresent, CacheInfoError::InvalidValue);
}
