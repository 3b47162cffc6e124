//! Fallback backend for targets with no known way to read cache metadata.
//!
//! Every query is answered with [`CacheInfoError::Unsupported`], or with
//! `None` where the answer is an `Option`.
use vstd::prelude::*;

use crate::types::{CacheInfoError, CacheLevel, CacheType};

verus! {

/// Returns the line size in bytes of `level` cache with type `cache_type`.
///
/// This is the implementation for unsupported architectures, and always
/// returns [`CacheInfoError::Unsupported`].
pub fn get_cache_line_size(level: CacheLevel, cache_type: CacheType) -> (r: Result<
    usize,
    CacheInfoError,
>)
    ensures
        r == Err::<usize, CacheInfoError>(CacheInfoError::Unsupported),
{
    Err(CacheInfoError::Unsupported)
}

/// Returns the line size in bytes of `level` cache with type `cache_type`,
/// with every error folded into `None`.
pub fn cache_line_size(level: CacheLevel, cache_type: CacheType) -> (r: Option<usize>)
    ensures
        r is None,
{
    match get_cache_line_size(level, cache_type) {
        Ok(n) => Some(n),
        Err(_) => None,
    }
}

/// Returns the total size in bytes of `level` cache with type `cache_type`.
///
/// This is the implementation for unsupported architectures, and always
/// returns `None`.
pub fn cache_size(level: CacheLevel, cache_type: CacheType) -> (r: Option<usize>)
    ensures
        r is None,
{
    None
}

/// Returns the line size in bytes of the L1 data cache.
///
/// This is the implementation for unsupported architectures, and always
/// returns `None`.
pub fn get_l1_cache_line_size() -> (r: Option<usize>)
    ensures
        r is None,
{
    cache_line_size(CacheLevel::L1, CacheType::Data)
}

/// Returns the line size in bytes of the L1 data cache.
///
/// This is the implementation for unsupported architectures, and always
/// returns `None`.
pub fn l1_cache_line_size() -> (r: Option<usize>)
    ensures
        r is None,
{
    cache_line_size(CacheLevel::L1, CacheType::Data)
}

/// Returns the total size in bytes of the L1 data cache.
///
/// This is the implementation for unsupported architectures, and always
/// returns `None`.
pub fn l1_cache_size() -> (r: Option<usize>)
    ensures
        r is None,
{
    cache_size(CacheLevel::L1, CacheType::Data)
}

/// Returns the total size in bytes of the unified L2 cache.
///
/// This is the implementation for unsupported architectures, and always
/// returns `None`.
pub fn l2_cache_size() -> (r: Option<usize>)
    ensures
        r is None,
{
    cache_size(CacheLevel::L2, CacheType::Unified)
}

/// Returns the line size in bytes of the unified L2 cache.
///
/// This is the implementation for unsupported architectures, and always
/// returns `None`.
pub fn l2_cache_line_size() -> (r: Option<usize>)
    ensures
        r is None,
{
    cache_line_size(CacheLevel::L2, CacheType::Unified)
}

/// Returns the total size in bytes of the unified L3 cache.
///
/// This is the implementation for unsupported architectures, and always
/// returns `None`.
pub fn l3_cache_size() -> (r: Option<usize>)
    ensures
        r is None,
{
    cache_size(CacheLevel::L3, CacheType::Unified)
}

/// Returns the line size in bytes of the unified L3 cache.
///
/// This is the implementation for unsupported architectures, and always
/// returns `None`.
pub fn l3_cache_line_size() -> (r: Option<usize>)
    ensures
        r is None,
{
    cache_line_size(CacheLevel::L3, CacheType::Unified)
}

} // verus!
