//! Normalized classification of a section from its characteristics word.
//!
//! The classification and the alignment are pure functions of the word: they
//! never fail, and unmapped alignment patterns fall back to the format's
//! documented default of 16.

use vstd::prelude::*;

use crate::pe::{
    IMAGE_SCN_ALIGN_MASK, IMAGE_SCN_CNT_CODE, IMAGE_SCN_CNT_INITIALIZED_DATA,
    IMAGE_SCN_CNT_UNINITIALIZED_DATA, IMAGE_SCN_LNK_INFO, IMAGE_SCN_MEM_DISCARDABLE,
    IMAGE_SCN_MEM_EXECUTE, IMAGE_SCN_MEM_WRITE,
};

verus! {

/// The kind of a section, normalized across container formats.
#[derive(Clone, Copy, Debug, PartialEq, Eq, Structural)]
pub enum SectionKind {
    /// Executable code.
    Text,
    /// Writable initialized data.
    Data,
    /// Read-only initialized data.
    ReadOnlyData,
    /// Data that occupies no file space and is zeroed at load time.
    UninitializedData,
    /// Common (tentative) data; never produced by this format's classifier.
    Common,
    /// Information for the linker rather than loadable contents.
    Linker,
    /// Initialized data the loader may discard.
    Other,
    /// None of the known classifications applies.
    Unknown,
}

/// The kind a characteristics word maps to. The first matching rule wins:
/// code, then initialized data (split by discardable and writable), then
/// uninitialized data, then linker information, then unknown.
pub open spec fn spec_kind(characteristics: u32) -> SectionKind {
    if characteristics & (IMAGE_SCN_CNT_CODE | IMAGE_SCN_MEM_EXECUTE) != 0 {
        SectionKind::Text
    } else if characteristics & IMAGE_SCN_CNT_INITIALIZED_DATA != 0 {
        if characteristics & IMAGE_SCN_MEM_DISCARDABLE != 0 {
            SectionKind::Other
        } else if characteristics & IMAGE_SCN_MEM_WRITE != 0 {
            SectionKind::Data
        } else {
            SectionKind::ReadOnlyData
        }
    } else if characteristics & IMAGE_SCN_CNT_UNINITIALIZED_DATA != 0 {
        SectionKind::UninitializedData
    } else if characteristics & IMAGE_SCN_LNK_INFO != 0 {
        SectionKind::Linker
    } else {
        SectionKind::Unknown
    }
}

/// Every characteristics word maps to exactly one of the seven kinds the
/// precedence rules can produce; in particular the classification is total
/// and never yields `Common`.
pub proof fn lemma_kind_total(characteristics: u32)
    ensures
        spec_kind(characteristics) == SectionKind::Text || spec_kind(characteristics)
            == SectionKind::Data || spec_kind(characteristics) == SectionKind::ReadOnlyData
            || spec_kind(characteristics) == SectionKind::UninitializedData || spec_kind(
            characteristics,
        ) == SectionKind::Linker || spec_kind(characteristics) == SectionKind::Other || spec_kind(
            characteristics,
        ) == SectionKind::Unknown,
        spec_kind(characteristics) != SectionKind::Common,
{
}

/// Classify a characteristics word.
pub fn section_kind_of(characteristics: u32) -> (k: SectionKind)
    ensures
        k == spec_kind(characteristics),
{
    if characteristics & (IMAGE_SCN_CNT_CODE | IMAGE_SCN_MEM_EXECUTE) != 0 {
        SectionKind::Text
    } else if characteristics & IMAGE_SCN_CNT_INITIALIZED_DATA != 0 {
        if characteristics & IMAGE_SCN_MEM_DISCARDABLE != 0 {
            SectionKind::Other
        } else if characteristics & IMAGE_SCN_MEM_WRITE != 0 {
            SectionKind::Data
        } else {
            SectionKind::ReadOnlyData
        }
    } else if characteristics & IMAGE_SCN_CNT_UNINITIALIZED_DATA != 0 {
        SectionKind::UninitializedData
    } else if characteristics & IMAGE_SCN_LNK_INFO != 0 {
        SectionKind::Linker
    } else {
        SectionKind::Unknown
    }
}

/// The alignment in bytes that the four alignment bits of a characteristics
/// word encode: the 14 defined patterns map to the powers of two from 1
/// through 8192, and the 2 remaining patterns map to the default of 16.
pub open spec fn spec_alignment(characteristics: u32) -> u64 {
    let pattern = characteristics & IMAGE_SCN_ALIGN_MASK;
    if pattern == 0x10_0000 {
        1
    } else if pattern == 0x20_0000 {
        2
    } else if pattern == 0x30_0000 {
        4
    } else if pattern == 0x40_0000 {
        8
    } else if pattern == 0x50_0000 {
        16
    } else if pattern == 0x60_0000 {
        32
    } else if pattern == 0x70_0000 {
        64
    } else if pattern == 0x80_0000 {
        128
    } else if pattern == 0x90_0000 {
        256
    } else if pattern == 0xa0_0000 {
        512
    } else if pattern == 0xb0_0000 {
        1024
    } else if pattern == 0xc0_0000 {
        2048
    } else if pattern == 0xd0_0000 {
        4096
    } else if pattern == 0xe0_0000 {
        8192
    } else {
        16
    }
}

/// The decoded alignment is always a power of two between 1 and 8192.
pub proof fn lemma_alignment_power_of_two(characteristics: u32)
    ensures
        1 <= spec_alignment(characteristics) <= 8192,
        spec_alignment(characteristics) & ((spec_alignment(characteristics) - 1) as u64) == 0,
{
    let a = spec_alignment(characteristics);
    assert(a & ((a - 1) as u64) == 0) by (bit_vector)
        requires
            a == 1 || a == 2 || a == 4 || a == 8 || a == 16 || a == 32 || a == 64 || a == 128
                || a == 256 || a == 512 || a == 1024 || a == 2048 || a == 4096 || a == 8192,
    ;
}

/// Decode the alignment bits of a characteristics word.
pub fn alignment_of(characteristics: u32) -> (a: u64)
    ensures
        a == spec_alignment(characteristics),
{
    let pattern = characteristics & IMAGE_SCN_ALIGN_MASK;
    if pattern == 0x10_0000 {
        1
    } else if pattern == 0x20_0000 {
        2
    } else if pattern == 0x30_0000 {
        4
    } else if pattern == 0x40_0000 {
        8
    } else if pattern == 0x50_0000 {
        16
    } else if pattern == 0x60_0000 {
        32
    } else if pattern == 0x70_0000 {
        64
    } else if pattern == 0x80_0000 {
        128
    } else if pattern == 0x90_0000 {
        256
    } else if pattern == 0xa0_0000 {
        512
    } else if pattern == 0xb0_0000 {
        1024
    } else if pattern == 0xc0_0000 {
        2048
    } else if pattern == 0xd0_0000 {
        4096
    } else if pattern == 0xe0_0000 {
        8192
    } else {
        16
    }
}

} // verus!
