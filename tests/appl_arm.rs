use yep_cache_line_size::appl_arm::{get_cache_line_size, read_cache_line_size, SysctlReading};
use yep_cache_line_size::{CacheInfoError, CacheLevel, CacheType};

fn reading(status: i32, len: usize, value: usize) -> SysctlReading {
    SysctlReading { status, len, value }
}

#[test]
fn apple_l1_only() {
    let r = reading(0, core::mem::size_of::<usize>(), 128);
    for cache_type in [CacheType::Data, CacheType::Instruction, CacheType::Unified] {
        assert_eq!(get_cache_line_size(r, CacheLevel::L1, cache_type), Ok(128));
        assert_eq!(
            get_cache_line_size(r, CacheLevel::L2, cache_type),
            Err(CacheInfoError::Unsupported)
        );
        assert_eq!(
            get_cache_line_size(r, CacheLevel::L3, cache_type),
            Err(CacheInfoError::Unsupported)
        );
        assert_eq!(
            get_cache_line_size(r, CacheLevel::Other(0), cache_type),
            Err(CacheInfoError::Unsupported)
        );
    }
}

#[test]
fn apple_query_outcomes() {
    let word = core::mem::size_of::<usize>();
    assert_eq!(read_cache_line_size(reading(0, word, 64)), Ok(64));
    assert_eq!(read_cache_line_size(reading(0, 4, 64)), Ok(64));
    assert_eq!(read_cache_line_size(reading(-1, word, 64)), Err(CacheInfoError::Unsupported));
    assert_eq!(read_cache_line_size(reading(0, 0, 64)), Err(CacheInfoError::Unsupported));
    assert_eq!(read_cache_line_size(reading(0, word + 1, 64)), Err(CacheInfoError::Unsupported));
    assert_eq!(read_cache_line_size(reading(0, word, 0)), Err(CacheInfoError::InvalidValue));
}
