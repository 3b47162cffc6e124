use yep_cache_line_size::arm::{
    decode_dminline, decode_iminline, decode_line_size, get_cache_line_size, WORD_SIZE,
};
use yep_cache_line_size::{CacheInfoError, CacheLevel, CacheType};

#[test]
fn decode_line_size_scaling() {
    assert_eq!(decode_line_size(0).unwrap(), WORD_SIZE);
    assert_eq!(decode_line_size(1).unwrap(), WORD_SIZE * 2);
    assert_eq!(decode_line_size(2).unwrap(), WORD_SIZE * 4);
}

#[test]
fn decode_line_size_values() {
    assert_eq!(decode_line_size(0), Ok(4));
    assert_eq!(decode_line_size(1), Ok(8));
    assert_eq!(decode_line_size(2), Ok(16));
    assert_eq!(decode_line_size(4), Ok(64));
    assert_eq!(decode_line_size(15), Ok(131072));
}

#[test]
fn decode_line_size_overflow() {
    let bits = usize::BITS as u64;
    assert_eq!(decode_line_size(bits - 3), Ok(1usize << (bits - 1)));
    assert_eq!(decode_line_size(bits - 2), Err(CacheInfoError::InvalidValue));
    assert_eq!(decode_line_size(bits), Err(CacheInfoError::InvalidValue));
    assert_eq!(decode_line_size(u64::MAX), Err(CacheInfoError::InvalidValue));
}

#[test]
fn decode_register_fields() {
    // DminLine 4 (64 bytes), IminLine 3 (32 bytes), other bits set.
    let ctr: u64 = 0x8444_C003;
    assert_eq!(decode_dminline(ctr), Ok(64));
    assert_eq!(decode_iminline(ctr), Ok(32));
}

#[test]
fn arm_dispatch() {
    let ctr: u64 = 0x8444_C003;
    assert_eq!(get_cache_line_size(ctr, CacheLevel::L1, CacheType::Instruction), Ok(32));
    for level in [CacheLevel::L1, CacheLevel::L2, CacheLevel::L3] {
        assert_eq!(get_cache_line_size(ctr, level, CacheType::Data), Ok(64));
        assert_eq!(get_cache_line_size(ctr, level, CacheType::Unified), Ok(64));
    }
    assert_eq!(
        get_cache_line_size(ctr, CacheLevel::L2, CacheType::Instruction),
        Err(CacheInfoError::NotPresent)
    );
    assert_eq!(
        get_cache_line_size(ctr, CacheLevel::L3, CacheType::Instruction),
        Err(CacheInfoError::NotPresent)
    );
    assert_eq!(
        get_cache_line_size(ctr, CacheLevel::Other(4), CacheType::Data),
        Err(CacheInfoError::NotPresent)
    );
}

#[test]
fn arm_zero_register() {
    assert_eq!(get_cache_line_size(0, CacheLevel::L1, CacheType::Instruction), Ok(4));
    assert_eq!(get_cache_line_size(0, CacheLevel::L3, CacheType::Data), Ok(4));
}
