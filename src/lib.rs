//! Reports CPU cache line sizes by decoding what the hardware itself describes.
//!
//! Each backend module exposes `get_cache_line_size` with the same outcome
//! model: a positive byte count, or exactly one of the kinds of
//! [`CacheInfoError`].
//!
//! - [`x86`] reads the CPUID cache-parameter leaves, or the legacy AMD
//!   descriptor leaves on Zen parts.
//! - [`arm`] decodes the `CTR`/`CTR_EL0` cache-type register value.
//! - [`appl_arm`] interprets the `hw.cachelinesize` system query on Apple
//!   Silicon.
//! - [`blanket`] is the fallback for targets with no known mechanism.
//!
//! The register read on ARM and the system query on Apple Silicon need code
//! that is specific to their target; a caller performs them and hands the raw
//! values to the decoding functions here.

mod types;

pub mod appl_arm;
pub mod arm;
pub mod blanket;
pub mod x86;

pub use types::{CacheInfoError, CacheLevel, CacheType};
