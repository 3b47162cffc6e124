use vstd::prelude::*;

verus! {

/// Type of cache being described, with the numeric tag that hardware reports
/// for it.
#[derive(Clone, Copy, Debug, PartialEq, Eq, Structural)]
pub enum CacheType {
    /// Data cache
    Data,
    /// Instruction cache
    Instruction,
    /// Data and Instruction cache
    Unified,
}

/// The numeric tag of a cache type: 1 for data, 2 for instruction, 3 for
/// unified.
pub open spec fn cache_type_tag(t: CacheType) -> u8 {
    match t {
        CacheType::Data => 1,
        CacheType::Instruction => 2,
        CacheType::Unified => 3,
    }
}

impl CacheType {
    /// Returns the numeric tag of this cache type as hardware reports it.
    pub fn tag(self) -> (r: u8)
        ensures
            r == cache_type_tag(self),
            1 <= r <= 3,
    {
        match self {
            CacheType::Data => 1,
            CacheType::Instruction => 2,
            CacheType::Unified => 3,
        }
    }
}

/// Identifier for the cache hierarchy level being queried.
#[derive(Clone, Copy, Debug, PartialEq, Eq, Structural)]
pub enum CacheLevel {
    /// Level 1 cache.
    L1,
    /// Level 2 cache.
    L2,
    /// Level 3 cache.
    L3,
    /// Any other cache level that is not explicitly represented above.
    Other(u8),
}

/// The level that a numeric identifier denotes.
pub open spec fn level_of(n: u8) -> CacheLevel {
    if n == 1 {
        CacheLevel::L1
    } else if n == 2 {
        CacheLevel::L2
    } else if n == 3 {
        CacheLevel::L3
    } else {
        CacheLevel::Other(n)
    }
}

/// The numeric identifier of a level.
pub open spec fn level_number(level: CacheLevel) -> u8 {
    match level {
        CacheLevel::L1 => 1,
        CacheLevel::L2 => 2,
        CacheLevel::L3 => 3,
        CacheLevel::Other(n) => n,
    }
}

/// A level value in canonical form: `Other` never carries 1, 2 or 3, which
/// have named levels of their own.
pub open spec fn level_is_canonical(level: CacheLevel) -> bool {
    match level {
        CacheLevel::Other(n) => n != 1 && n != 2 && n != 3,
        _ => true,
    }
}

impl CacheLevel {
    /// Creates a [`CacheLevel`] from its numeric identifier as reported by CPUID.
    pub fn from_u8(level: u8) -> (r: CacheLevel)
        ensures
            r == level_of(level),
            level_is_canonical(r),
    {
        match level {
            1 => CacheLevel::L1,
            2 => CacheLevel::L2,
            3 => CacheLevel::L3,
            other => CacheLevel::Other(other),
        }
    }

    /// Returns the numeric identifier associated with the cache level.
    pub fn as_u8(self) -> (r: u8)
        ensures
            r == level_number(self),
    {
        match self {
            CacheLevel::L1 => 1,
            CacheLevel::L2 => 2,
            CacheLevel::L3 => 3,
            CacheLevel::Other(value) => value,
        }
    }
}

/// Converting a canonical level to its number and back gives the same level.
pub proof fn lemma_level_round_trip(level: CacheLevel)
    requires
        level_is_canonical(level),
    ensures
        level_of(level_number(level)) == level,
{
}

/// Converting a number to its level and back gives the same number.
pub proof fn lemma_number_round_trip(n: u8)
    ensures
        level_number(level_of(n)) == n,
{
}

impl From<u8> for CacheLevel {
    fn from(level: u8) -> (r: CacheLevel) {
        CacheLevel::from_u8(level)
    }
}

impl vstd::std_specs::convert::FromSpecImpl<u8> for CacheLevel {
    open spec fn obeys_from_spec() -> bool {
        true
    }

    open spec fn from_spec(level: u8) -> CacheLevel {
        level_of(level)
    }
}

impl From<CacheLevel> for u8 {
    fn from(level: CacheLevel) -> (r: u8) {
        level.as_u8()
    }
}

impl vstd::std_specs::convert::FromSpecImpl<CacheLevel> for u8 {
    open spec fn obeys_from_spec() -> bool {
        true
    }

    open spec fn from_spec(level: CacheLevel) -> u8 {
        level_number(level)
    }
}

/// Errors that can occur while querying cache metadata.
#[derive(Clone, Copy, Debug, PartialEq, Eq, Structural)]
pub enum CacheInfoError {
    /// The system does not expose cache metadata for the requested query.
    Unsupported,
    /// The requested cache level/type combination is not present.
    NotPresent,
    /// The CPU reported an invalid or out-of-range value.
    InvalidValue,
}

impl CacheInfoError {
    /// A sentence that describes the error to a user.
    pub fn message(&self) -> (r: &'static str)
        ensures
            *self == CacheInfoError::Unsupported ==> r@
                == "retrieving cache metadata is not supported on this system"@,
            *self == CacheInfoError::NotPresent ==> r@
                == "the requested cache level/type combination is not present"@,
            *self == CacheInfoError::InvalidValue ==> r@
                == "the CPU reported invalid cache metadata"@,
    {
        match self {
            CacheInfoError::Unsupported => "retrieving cache metadata is not supported on this system",
            CacheInfoError::NotPresent => "the requested cache level/type combination is not present",
            CacheInfoError::InvalidValue => "the CPU reported invalid cache metadata",
        }
    }
}

} // verus!
