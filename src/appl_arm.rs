//! Apple Silicon backend: the L1 cache line size from the `hw.cachelinesize`
//! system query.
//!
//! macOS user space exposes this single value, with no split between
//! instruction and data caches and nothing on the L2 or L3 caches. The query
//! itself is made by the caller; the functions here judge its outcome.
use vstd::prelude::*;

use crate::types::{CacheInfoError, CacheLevel, CacheType};

verus! {

/// The name of the system query that holds the L1 cache line size.
pub const SYSCTL_NAME: &'static str = "hw.cachelinesize";

/// The outcome of a `hw.cachelinesize` query.
#[derive(Clone, Copy, Debug, PartialEq, Eq, Structural)]
pub struct SysctlReading {
    /// The status that the query returned; zero on success.
    pub status: i32,
    /// The number of bytes that the query wrote.
    pub len: usize,
    /// The value that the query wrote.
    pub value: usize,
}

/// What a query outcome says of the line size: success needs a zero status
/// and a value that fills no more than one `usize`; a zero line size is
/// invalid.
pub open spec fn sysctl_line_size_of(reading: SysctlReading) -> Result<usize, CacheInfoError> {
    if reading.status == 0 && 0 < reading.len && reading.len <= vstd::layout::size_of::<usize>() {
        if reading.value == 0 {
            Err(CacheInfoError::InvalidValue)
        } else {
            Ok(reading.value)
        }
    } else {
        Err(CacheInfoError::Unsupported)
    }
}

/// Judges the outcome of a `hw.cachelinesize` query.
pub fn read_cache_line_size(reading: SysctlReading) -> (r: Result<usize, CacheInfoError>)
    ensures
        r == sysctl_line_size_of(reading),
{
    let expected = core::mem::size_of::<usize>();
    if reading.status == 0 && reading.len > 0 && reading.len <= expected {
        if reading.value == 0 {
            Err(CacheInfoError::InvalidValue)
        } else {
            Ok(reading.value)
        }
    } else {
        Err(CacheInfoError::Unsupported)
    }
}

/// What a query gives on Apple Silicon: the L1 caches of every type share
/// the single reported line size, and no other level is visible.
pub open spec fn apple_line_size_of(
    reading: SysctlReading,
    level: CacheLevel,
    cache_type: CacheType,
) -> Result<usize, CacheInfoError> {
    match level {
        CacheLevel::L1 => sysctl_line_size_of(reading),
        _ => Err(CacheInfoError::Unsupported),
    }
}

/// Returns the line size in bytes of the L1 cache for Apple Silicon, given
/// the outcome of the `hw.cachelinesize` query. Other cache levels are not
/// exposed on macOS user space.
pub fn get_cache_line_size(
    reading: SysctlReading,
    level: CacheLevel,
    cache_type: CacheType,
) -> (r: Result<usize, CacheInfoError>)
    ensures
        r == apple_line_size_of(reading, level, cache_type),
        r matches Ok(m) ==> m > 0,
{
    match level {
        CacheLevel::L1 => match cache_type {
            CacheType::Instruction | CacheType::Data | CacheType::Unified => read_cache_line_size(
                reading,
            ),
        },
        _ => Err(CacheInfoError::Unsupported),
    }
}

} // verus!
