//! ARM backend: cache line sizes decoded from the cache-type register
//! (`CTR` on 32-bit ARM, `CTR_EL0` on AArch64).
//!
//! The register holds the minimum line size of the L1 instruction cache in
//! bits 0-3 and the minimum line size over all data and unified caches in
//! bits 16-19, each as the base-2 logarithm of a number of 4-byte words.
//! Reading the register takes a target-specific instruction; the functions
//! here decode a value that was read.
use vstd::arithmetic::power2::{
    lemma2_to64, lemma_pow2_strictly_increases, lemma_pow2_unfold, pow2,
};
use vstd::prelude::*;

use crate::types::{CacheInfoError, CacheLevel, CacheType};

verus! {

/// Bytes in one word, the unit of the register's line size fields.
pub const WORD_SIZE: usize = 4;

/// Mask of a 4-bit line size field.
pub const LINE_SIZE_MASK: u64 = 0xF;

/// Position of the data/unified minimum line size field.
pub const DMINLINE_SHIFT: u64 = 16;

/// The line size that a field value denotes: `WORD_SIZE` bytes times two to
/// the power of the field, or `InvalidValue` where that does not fit in a
/// `usize`.
pub open spec fn line_size_of(field: nat) -> Result<usize, CacheInfoError> {
    if WORD_SIZE * pow2(field) <= usize::MAX {
        Ok((WORD_SIZE * pow2(field)) as usize)
    } else {
        Err(CacheInfoError::InvalidValue)
    }
}

/// The instruction-cache minimum line field of a register value.
pub open spec fn iminline_field(ctr: u64) -> u64 {
    ctr & LINE_SIZE_MASK
}

/// The data/unified-cache minimum line field of a register value.
pub open spec fn dminline_field(ctr: u64) -> u64 {
    (ctr >> DMINLINE_SHIFT) & LINE_SIZE_MASK
}

/// What a query gives on ARM: the instruction field answers for the L1
/// instruction cache alone, and the data/unified field for the data and
/// unified caches of levels 1 to 3.
pub open spec fn arm_line_size_of(ctr: u64, level: CacheLevel, cache_type: CacheType) -> Result<
    usize,
    CacheInfoError,
> {
    match (level, cache_type) {
        (CacheLevel::L1, CacheType::Instruction) => line_size_of(iminline_field(ctr) as nat),
        (CacheLevel::Other(_), _) => Err(CacheInfoError::NotPresent),
        (_, CacheType::Instruction) => Err(CacheInfoError::NotPresent),
        _ => line_size_of(dminline_field(ctr) as nat),
    }
}

/// A 4-bit field always denotes a line size that fits.
proof fn lemma_small_field_fits(field: nat)
    requires
        field <= 15,
    ensures
        line_size_of(field) == Ok::<usize, CacheInfoError>((WORD_SIZE * pow2(field)) as usize),
{
    lemma2_to64();
    if field < 15 {
        lemma_pow2_strictly_increases(field, 15);
    }
}

/// Decodes a line size field into a number of bytes.
pub fn decode_line_size(field: u64) -> (r: Result<usize, CacheInfoError>)
    ensures
        r == line_size_of(field as nat),
{
    let mut size: usize = WORD_SIZE;
    let mut i: u64 = 0;
    proof {
        lemma2_to64();
    }
    while i < field
        invariant
            i <= field,
            size as nat == WORD_SIZE * pow2(i as nat),
        decreases field - i,
    {
        proof {
            lemma_pow2_unfold((i + 1) as nat);
        }
        if size > usize::MAX / 2 {
            proof {
                if i + 1 < field {
                    lemma_pow2_strictly_increases((i + 1) as nat, field as nat);
                }
            }
            return Err(CacheInfoError::InvalidValue);
        }
        size = size * 2;
        i = i + 1;
    }
    Ok(size)
}

/// Decodes the data/unified-cache minimum line size of a register value.
pub fn decode_dminline(ctr: u64) -> (r: Result<usize, CacheInfoError>)
    ensures
        r == line_size_of(dminline_field(ctr) as nat),
        r is Ok,
{
    proof {
        assert(((ctr >> 16u64) & 0xFu64) <= 15u64) by (bit_vector);
        lemma_small_field_fits(dminline_field(ctr) as nat);
    }
    decode_line_size((ctr >> DMINLINE_SHIFT) & LINE_SIZE_MASK)
}

/// Decodes the instruction-cache minimum line size of a register value.
pub fn decode_iminline(ctr: u64) -> (r: Result<usize, CacheInfoError>)
    ensures
        r == line_size_of(iminline_field(ctr) as nat),
        r is Ok,
{
    proof {
        assert((ctr & 0xFu64) <= 15u64) by (bit_vector);
        lemma_small_field_fits(iminline_field(ctr) as nat);
    }
    decode_line_size(ctr & LINE_SIZE_MASK)
}

/// Both minimum line sizes that a register value describes.
#[derive(Debug, Clone, Copy)]
struct CacheLineSizes {
    data_or_unified: usize,
    instruction: usize,
}

/// Decodes both line size fields of a register value.
fn cache_line_sizes(ctr: u64) -> (r: Result<CacheLineSizes, CacheInfoError>)
    ensures
        r matches Ok(s) ==> {
            &&& line_size_of(dminline_field(ctr) as nat) == Ok::<usize, CacheInfoError>(
                s.data_or_unified,
            )
            &&& line_size_of(iminline_field(ctr) as nat) == Ok::<usize, CacheInfoError>(
                s.instruction,
            )
        },
        r is Ok,
{
    let data_or_unified = match decode_dminline(ctr) {
        Ok(n) => n,
        Err(e) => return Err(e),
    };
    let instruction = match decode_iminline(ctr) {
        Ok(n) => n,
        Err(e) => return Err(e),
    };
    Ok(CacheLineSizes { data_or_unified, instruction })
}

/// Returns the line size in bytes of `level` cache with type `cache_type`,
/// given the value of the cache-type register.
///
/// Data and unified line sizes are reported for levels 1 to 3 alike, because
/// the register holds a single value, the minimum over all data caches.
/// Instruction caches other than L1, and levels beyond L3, are not described
/// and give [`CacheInfoError::NotPresent`].
pub fn get_cache_line_size(ctr: u64, level: CacheLevel, cache_type: CacheType) -> (r: Result<
    usize,
    CacheInfoError,
>)
    ensures
        r == arm_line_size_of(ctr, level, cache_type),
        r matches Ok(m) ==> m > 0,
{
    let sizes = match cache_line_sizes(ctr) {
        Ok(s) => s,
        Err(e) => return Err(e),
    };
    proof {
        vstd::arithmetic::power2::lemma_pow2_pos(dminline_field(ctr) as nat);
        vstd::arithmetic::power2::lemma_pow2_pos(iminline_field(ctr) as nat);
    }
    match (level, cache_type) {
        (CacheLevel::L1, CacheType::Instruction) => Ok(sizes.instruction),
        (CacheLevel::Other(_), _) => Err(CacheInfoError::NotPresent),
        (_, CacheType::Instruction) => Err(CacheInfoError::NotPresent),
        _ => Ok(sizes.data_or_unified),
    }
}

/// Every data or unified cache of levels 1 to 3 has the same line size on
/// ARM: the register holds one minimum for all of them.
pub proof fn lemma_data_line_size_shared(
    ctr: u64,
    a: CacheLevel,
    ta: CacheType,
    b: CacheLevel,
    tb: CacheType,
)
    requires
        !(a is Other),
        !(b is Other),
        ta != CacheType::Instruction,
        tb != CacheType::Instruction,
    ensures
        arm_line_size_of(ctr, a, ta) == arm_line_size_of(ctr, b, tb),
        arm_line_size_of(ctr, a, ta) == line_size_of(dminline_field(ctr) as nat),
{
}

} // verus!
