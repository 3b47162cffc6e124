//! x86 backend: cache line sizes from the CPUID instruction.
//!
//! On most parts the enumerable cache-parameter leaf describes every cache.
//! AMD Zen parts report that leaf unreliably, so there the legacy L1 and L2/L3
//! descriptor leaves are read instead.
use raw_cpuid::CpuId;
use vstd::prelude::*;
use vstd::string::StrSliceExecFns;

use crate::types::{
    cache_type_tag, level_number, CacheInfoError, CacheLevel, CacheType,
};

verus! {

/// One record of the CPUID cache-parameter enumeration, as plain values.
#[derive(Clone, Copy, Debug, PartialEq, Eq, Structural)]
pub struct CacheRecord {
    /// Cache level, starting at 1.
    pub level: u8,
    /// Hardware cache type tag: 1 data, 2 instruction, 3 unified.
    pub type_tag: u8,
    /// System coherency line size in bytes.
    pub coherency_line_size: usize,
}

/// Base and extended family identifiers of the feature-information leaf.
#[derive(Clone, Copy, Debug, PartialEq, Eq, Structural)]
pub struct FamilyId {
    pub base: u8,
    pub extended: u8,
}

/// Line sizes of the legacy AMD L1 descriptor leaf (0x8000_0005).
#[derive(Clone, Copy, Debug, PartialEq, Eq, Structural)]
pub struct AmdL1LineSizes {
    pub instruction: u8,
    pub data: u8,
}

/// Line sizes of the legacy L2/L3 descriptor leaf (0x8000_0006).
#[derive(Clone, Copy, Debug, PartialEq, Eq, Structural)]
pub struct AmdL2L3LineSizes {
    pub l2: u8,
    pub l3: u8,
}

/// The vendor identification string of AMD processors.
pub open spec fn amd_vendor() -> Seq<char> {
    "AuthenticAMD"@
}

/// Zen-family parts: base family 0xF with an extended family of 0x8 to 0xA.
pub open spec fn is_zen_family(f: FamilyId) -> bool {
    f.base == 0xF && 0x8 <= f.extended <= 0xA
}

/// A record describes the cache of the requested level and type.
pub open spec fn record_matches(rec: CacheRecord, level: CacheLevel, cache_type: CacheType) -> bool {
    rec.level == level_number(level) && rec.type_tag == cache_type_tag(cache_type)
}

/// Some record describes the cache of the requested level and type.
pub open spec fn has_matching_record(
    records: Seq<CacheRecord>,
    level: CacheLevel,
    cache_type: CacheType,
) -> bool {
    exists|i: int| 0 <= i < records.len() && record_matches(#[trigger] records[i], level, cache_type)
}

/// `m` is the smallest coherency line size among the matching records.
pub open spec fn is_min_matching_line_size(
    records: Seq<CacheRecord>,
    level: CacheLevel,
    cache_type: CacheType,
    m: usize,
) -> bool {
    &&& exists|i: int|
        0 <= i < records.len() && record_matches(#[trigger] records[i], level, cache_type)
            && records[i].coherency_line_size == m
    &&& forall|i: int|
        0 <= i < records.len() && record_matches(#[trigger] records[i], level, cache_type)
            ==> m <= records[i].coherency_line_size
}

/// The level/type combinations that the legacy AMD leaves describe.
pub open spec fn amd_describes(level: CacheLevel, cache_type: CacheType) -> bool {
    match (level, cache_type) {
        (CacheLevel::L1, CacheType::Instruction) => true,
        (CacheLevel::L1, CacheType::Data) => true,
        (CacheLevel::L2, CacheType::Unified) => true,
        (CacheLevel::L3, CacheType::Unified) => true,
        _ => false,
    }
}

/// A line size read from a descriptor field; zero is no valid line size.
pub open spec fn checked_line_size(field: u8) -> Result<usize, CacheInfoError> {
    if field == 0 {
        Err(CacheInfoError::InvalidValue)
    } else {
        Ok(field as usize)
    }
}

/// What the legacy AMD leaves give for a level and type; `None` stands for
/// a leaf that the CPU does not support.
pub open spec fn amd_line_size_of(
    level: CacheLevel,
    cache_type: CacheType,
    l1: Option<AmdL1LineSizes>,
    l2_l3: Option<AmdL2L3LineSizes>,
) -> Result<usize, CacheInfoError> {
    match (level, cache_type) {
        (CacheLevel::L1, CacheType::Instruction) => match l1 {
            Some(s) => checked_line_size(s.instruction),
            None => Err(CacheInfoError::Unsupported),
        },
        (CacheLevel::L1, CacheType::Data) => match l1 {
            Some(s) => checked_line_size(s.data),
            None => Err(CacheInfoError::Unsupported),
        },
        (CacheLevel::L2, CacheType::Unified) => match l2_l3 {
            Some(s) => checked_line_size(s.l2),
            None => Err(CacheInfoError::Unsupported),
        },
        (CacheLevel::L3, CacheType::Unified) => match l2_l3 {
            Some(s) => checked_line_size(s.l3),
            None => Err(CacheInfoError::Unsupported),
        },
        _ => Err(CacheInfoError::NotPresent),
    }
}

/// Relies on `CpuId::new` and `CpuId::get_vendor_info` and `VendorInfo::as_str`: the vendor
/// identification string, when the vendor leaf is supported.
#[verifier::external_body]
fn vendor_string() -> (r: Option<String>) {
    CpuId::new().get_vendor_info().map(|v| String::from(v.as_str()))
}

/// Relies on `CpuId::new` and `CpuId::get_feature_info` with `FeatureInfo::base_family_id` and
/// `FeatureInfo::extended_family_id`: the family identifiers, when the
/// feature leaf is supported. The base family is a 4-bit field.
#[verifier::external_body]
fn family_id() -> (r: Option<FamilyId>)
    ensures
        r matches Some(f) ==> f.base <= 0xF,
{
    CpuId::new().get_feature_info().map(
        |f| FamilyId { base: f.base_family_id(), extended: f.extended_family_id() },
    )
}

/// Relies on `CpuId::new` and `CpuId::get_cache_parameters` with `CacheParameter::level`,
/// `CacheParameter::cache_type` and `CacheParameter::coherency_line_size`:
/// the records of the enumeration, when the leaf is supported. The level is a
/// 3-bit field, the enumeration ends at the first record of type null or
/// reserved, and the line size is a 12-bit field plus one.
#[verifier::external_body]
fn cache_records() -> (r: Option<Vec<CacheRecord>>)
    ensures
        r matches Some(v) ==> forall|i: int|
            0 <= i < v@.len() ==> {
                &&& #[trigger] v@[i].level <= 7
                &&& 1 <= v@[i].type_tag <= 3
                &&& 1 <= v@[i].coherency_line_size <= 4096
            },
{
    CpuId::new().get_cache_parameters().map(
        |it| it.map(|p| CacheRecord {
            level: p.level(),
            type_tag: p.cache_type() as u8,
            coherency_line_size: p.coherency_line_size(),
        }).collect(),
    )
}

/// Relies on `CpuId::new` and `CpuId::get_l1_cache_and_tlb_info` with
/// `L1CacheTlbInfo::icache_line_size` and `L1CacheTlbInfo::dcache_line_size`:
/// the L1 line size fields, when the leaf is supported.
#[verifier::external_body]
fn amd_l1_line_sizes() -> (r: Option<AmdL1LineSizes>) {
    CpuId::new().get_l1_cache_and_tlb_info().map(
        |i| AmdL1LineSizes { instruction: i.icache_line_size(), data: i.dcache_line_size() },
    )
}

/// Relies on `CpuId::new` and `CpuId::get_l2_l3_cache_and_tlb_info` with
/// `L2And3CacheTlbInfo::l2cache_line_size` and
/// `L2And3CacheTlbInfo::l3cache_line_size`: the L2 and L3 line size fields,
/// when the leaf is supported.
#[verifier::external_body]
fn amd_l2_l3_line_sizes() -> (r: Option<AmdL2L3LineSizes>) {
    CpuId::new().get_l2_l3_cache_and_tlb_info().map(
        |i| AmdL2L3LineSizes { l2: i.l2cache_line_size(), l3: i.l3cache_line_size() },
    )
}

/// Tells from the vendor string whether the part is an AMD one; a CPU that
/// reports no vendor string offers no way to answer.
pub fn vendor_is_amd(vendor: &Option<String>) -> (r: Result<bool, CacheInfoError>)
    ensures
        r == match vendor {
            Some(v) => Ok::<bool, CacheInfoError>(v@ == amd_vendor()),
            None => Err(CacheInfoError::Unsupported),
        },
{
    match vendor {
        Some(v) => {
            let amd = String::from_str("AuthenticAMD");
            proof {
                reveal_strlit("AuthenticAMD");
            }
            Ok(*v == amd)
        },
        None => Err(CacheInfoError::Unsupported),
    }
}

/// Uses the CPUID family info to detect Zen architecture CPUs; a CPU that
/// reports no feature leaf offers no way to answer.
pub fn amd_is_zen(family: Option<FamilyId>) -> (r: Result<bool, CacheInfoError>)
    ensures
        r == match family {
            Some(f) => Ok::<bool, CacheInfoError>(is_zen_family(f)),
            None => Err(CacheInfoError::Unsupported),
        },
{
    match family {
        Some(f) => Ok(f.base == 0xF && 0x8 <= f.extended && f.extended <= 0xA),
        None => Err(CacheInfoError::Unsupported),
    }
}

/// The smallest coherency line size among the records that describe the
/// requested level and type, or `NotPresent` where none does.
pub fn min_matching_line_size(
    records: &Vec<CacheRecord>,
    level: CacheLevel,
    cache_type: CacheType,
) -> (r: Result<usize, CacheInfoError>)
    ensures
        r is Ok <==> has_matching_record(records@, level, cache_type),
        r matches Ok(m) ==> is_min_matching_line_size(records@, level, cache_type, m),
        r is Err ==> r == Err::<usize, CacheInfoError>(CacheInfoError::NotPresent),
{
    let level_id = level.as_u8();
    let tag = cache_type.tag();
    let mut best: Option<usize> = None;
    let mut i: usize = 0;
    while i < records.len()
        invariant
            i <= records@.len(),
            level_id == level_number(level),
            tag == cache_type_tag(cache_type),
            best is None <==> !has_matching_record(records@.take(i as int), level, cache_type),
            best matches Some(m) ==> is_min_matching_line_size(
                records@.take(i as int),
                level,
                cache_type,
                m,
            ),
        decreases records@.len() - i,
    {
        let rec = records[i];
        if rec.level == level_id && rec.type_tag == tag {
            match best {
                Some(m) if m <= rec.coherency_line_size => {},
                _ => {
                    best = Some(rec.coherency_line_size);
                },
            }
        }
        proof {
            let prev = records@.take(i as int);
            let next = records@.take(i + 1);
            assert(next =~= prev.push(rec));
            assert forall|j: int| 0 <= j < prev.len() implies next[j] == prev[j] by {}
            if has_matching_record(prev, level, cache_type) {
                let j = choose|j: int| 0 <= j < prev.len() && record_matches(#[trigger] prev[j], level, cache_type);
                assert(next[j] == prev[j]);
            }
            if record_matches(rec, level, cache_type) {
                assert(next[i as int] == rec);
            }
        }
        i = i + 1;
    }
    proof {
        assert(records@.take(records@.len() as int) =~= records@);
    }
    match best {
        Some(m) => Ok(m),
        None => Err(CacheInfoError::NotPresent),
    }
}

/// The line size that the legacy AMD descriptor leaves give for a level and
/// type. Only split L1 caches and unified L2 and L3 caches are described.
pub fn amd_cache_line_size(
    level: CacheLevel,
    cache_type: CacheType,
    l1: Option<AmdL1LineSizes>,
    l2_l3: Option<AmdL2L3LineSizes>,
) -> (r: Result<usize, CacheInfoError>)
    ensures
        r == amd_line_size_of(level, cache_type, l1, l2_l3),
{
    let field = match (level, cache_type) {
        (CacheLevel::L1, CacheType::Instruction) => match l1 {
            Some(s) => s.instruction,
            None => return Err(CacheInfoError::Unsupported),
        },
        (CacheLevel::L1, CacheType::Data) => match l1 {
            Some(s) => s.data,
            None => return Err(CacheInfoError::Unsupported),
        },
        (CacheLevel::L2, CacheType::Unified) => match l2_l3 {
            Some(s) => s.l2,
            None => return Err(CacheInfoError::Unsupported),
        },
        (CacheLevel::L3, CacheType::Unified) => match l2_l3 {
            Some(s) => s.l3,
            None => return Err(CacheInfoError::Unsupported),
        },
        _ => return Err(CacheInfoError::NotPresent),
    };
    if field == 0 {
        Err(CacheInfoError::InvalidValue)
    } else {
        Ok(field as usize)
    }
}

/// Uses cache parameters to get cache line size at a given level with the
/// provided cache type: the smallest line size among the matching records.
/// A CPU without the cache-parameter leaf gives `Unsupported`.
pub fn generic_cache_line_size(
    records: &Option<Vec<CacheRecord>>,
    level: CacheLevel,
    cache_type: CacheType,
) -> (r: Result<usize, CacheInfoError>)
    ensures
        generic_outcome(*records, level, cache_type, r),
{
    match records {
        Some(rs) => min_matching_line_size(rs, level, cache_type),
        None => Err(CacheInfoError::Unsupported),
    }
}

/// The legacy AMD leaves answer on AMD parts of a Zen family.
pub open spec fn uses_amd_leaves(vendor: Option<String>, family: Option<FamilyId>) -> bool {
    &&& vendor matches Some(v) && v@ == amd_vendor()
    &&& family matches Some(f) && is_zen_family(f)
}

/// The cache-parameter enumeration answers on parts that report a vendor and
/// are not AMD, and on AMD parts outside the Zen families.
pub open spec fn uses_enumeration(vendor: Option<String>, family: Option<FamilyId>) -> bool {
    vendor matches Some(v) && (v@ != amd_vendor() || (family matches Some(f) && !is_zen_family(
        f,
    )))
}

/// What the cache-parameter enumeration gives: `Unsupported` without the
/// leaf, else the smallest line size among the matching records, or
/// `NotPresent` where none matches.
pub open spec fn generic_outcome(
    records: Option<Vec<CacheRecord>>,
    level: CacheLevel,
    cache_type: CacheType,
    r: Result<usize, CacheInfoError>,
) -> bool {
    match records {
        None => r == Err::<usize, CacheInfoError>(CacheInfoError::Unsupported),
        Some(rs) => {
            &&& (r is Ok <==> has_matching_record(rs@, level, cache_type))
            &&& (r matches Ok(m) ==> is_min_matching_line_size(rs@, level, cache_type, m))
            &&& (r is Err ==> r == Err::<usize, CacheInfoError>(CacheInfoError::NotPresent))
        },
    }
}

/// Chooses the decoder for the part and answers the query from what CPUID
/// reported: the vendor string, the family identifiers, the cache-parameter
/// records and the two legacy descriptor leaves (`None` where the CPU lacks
/// the leaf). A part without a vendor string, or an AMD part without the
/// feature leaf, gives `Unsupported`; AMD Zen parts are answered from the
/// legacy leaves and all others from the enumeration.
pub fn x86_line_size(
    vendor: &Option<String>,
    family: Option<FamilyId>,
    records: &Option<Vec<CacheRecord>>,
    l1: Option<AmdL1LineSizes>,
    l2_l3: Option<AmdL2L3LineSizes>,
    level: CacheLevel,
    cache_type: CacheType,
) -> (r: Result<usize, CacheInfoError>)
    ensures
        vendor is None ==> r == Err::<usize, CacheInfoError>(CacheInfoError::Unsupported),
        (vendor matches Some(v) && v@ == amd_vendor()) && family is None ==> r == Err::<
            usize,
            CacheInfoError,
        >(CacheInfoError::Unsupported),
        uses_amd_leaves(*vendor, family) ==> r == amd_line_size_of(level, cache_type, l1, l2_l3),
        uses_enumeration(*vendor, family) ==> generic_outcome(*records, level, cache_type, r),
{
    let is_amd = match vendor_is_amd(vendor) {
        Ok(b) => b,
        Err(e) => return Err(e),
    };
    let zen = if is_amd {
        match amd_is_zen(family) {
            Ok(b) => b,
            Err(e) => return Err(e),
        }
    } else {
        false
    };
    if zen {
        amd_cache_line_size(level, cache_type, l1, l2_l3)
    } else {
        generic_cache_line_size(records, level, cache_type)
    }
}

/// Returns the line size in bytes of `level` cache with type `cache_type`.
///
/// Reads what CPUID reports and answers by [`x86_line_size`]: a CPU without
/// a vendor leaf, or an AMD one without the feature leaf, gives
/// [`CacheInfoError::Unsupported`]. On AMD Zen parts the legacy descriptor
/// leaves answer; on all others the cache-parameter enumeration, of whose
/// matching records the smallest line size is returned. Every leaf is read on
/// each call; reading one has no effect on the others.
pub fn get_cache_line_size(level: CacheLevel, cache_type: CacheType) -> (r: Result<
    usize,
    CacheInfoError,
>)
    ensures
        r matches Ok(m) ==> 1 <= m <= 4096,
        r == Err::<usize, CacheInfoError>(CacheInfoError::InvalidValue) ==> amd_describes(
            level,
            cache_type,
        ),
{
    let vendor = vendor_string();
    let family = family_id();
    let records = cache_records();
    let l1 = amd_l1_line_sizes();
    let l2_l3 = amd_l2_l3_line_sizes();
    x86_line_size(&vendor, family, &records, l1, l2_l3, level, cache_type)
}

} // verus!
