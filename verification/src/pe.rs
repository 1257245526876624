//! The on-disk record layout of the COFF/PE section header table.
//!
//! All multi-byte fields are little-endian. A section header record is 40
//! bytes; a relocation record is 10 bytes.

use vstd::prelude::*;

use crate::bytes::{read_bytes_at, read_u16_le, read_u32_le, u16_from_le, u32_from_le};
use crate::kind::{alignment_of, section_kind_of, spec_alignment, spec_kind, SectionKind};
use crate::Error;

verus! {

/// Size in bytes of one on-disk section header record.
pub const SECTION_HEADER_SIZE: usize = 40;

/// Size in bytes of one on-disk relocation record.
pub const RELOCATION_SIZE: usize = 10;

/// Section characteristics bit: the section holds executable code.
pub const IMAGE_SCN_CNT_CODE: u32 = 0x20;

/// Section characteristics bit: the section holds initialized data.
pub const IMAGE_SCN_CNT_INITIALIZED_DATA: u32 = 0x40;

/// Section characteristics bit: the section holds uninitialized data.
pub const IMAGE_SCN_CNT_UNINITIALIZED_DATA: u32 = 0x80;

/// Section characteristics bit: the section holds linker information.
pub const IMAGE_SCN_LNK_INFO: u32 = 0x200;

/// Section characteristics bit: the section can be discarded.
pub const IMAGE_SCN_MEM_DISCARDABLE: u32 = 0x200_0000;

/// Section characteristics bit: the section can be executed as code.
pub const IMAGE_SCN_MEM_EXECUTE: u32 = 0x2000_0000;

/// Section characteristics bit: the section can be written to.
pub const IMAGE_SCN_MEM_WRITE: u32 = 0x8000_0000;

/// Mask of the four alignment bits inside the characteristics word.
pub const IMAGE_SCN_ALIGN_MASK: u32 = 0xf0_0000;

/// The file header of a COFF file, already parsed by the caller.
///
/// Only `number_of_sections` matters to this crate; the other fields are kept
/// so that the record is complete.
#[derive(Clone, Copy, Debug, PartialEq, Eq, Structural)]
pub struct ImageFileHeader {
    /// The architecture the file was built for.
    pub machine: u16,
    /// How many section header records follow the headers.
    pub number_of_sections: u16,
    /// When the file was produced.
    pub time_date_stamp: u32,
    /// File offset of the symbol table.
    pub pointer_to_symbol_table: u32,
    /// How many symbol records the symbol table holds.
    pub number_of_symbols: u32,
    /// Size of the optional header that may follow this one.
    pub size_of_optional_header: u16,
    /// File-level flag bits.
    pub characteristics: u16,
}

/// One section header record, with every multi-byte field already read from
/// its little-endian on-disk form.
#[derive(Clone, Copy, Debug)]
pub struct ImageSectionHeader {
    /// The raw 8-byte name field: a short name padded with null bytes, or a
    /// `/`-prefixed offset into the string table.
    pub name: [u8; 8],
    /// In-memory size of the section.
    pub virtual_size: u32,
    /// Relative load address of the section.
    pub virtual_address: u32,
    /// On-disk size of the section data.
    pub size_of_raw_data: u32,
    /// On-disk offset of the section data.
    pub pointer_to_raw_data: u32,
    /// On-disk offset of the section's relocation array.
    pub pointer_to_relocations: u32,
    /// On-disk offset of the section's line-number array.
    pub pointer_to_linenumbers: u32,
    /// How many relocation records the section has.
    pub number_of_relocations: u16,
    /// How many line-number records the section has.
    pub number_of_linenumbers: u16,
    /// The characteristics bit-flag word.
    pub characteristics: u32,
}

/// One raw relocation record. Its meaning is left to the caller; only the
/// on-disk layout is interpreted here.
#[derive(Clone, Copy, Debug, PartialEq, Eq, Structural)]
pub struct ImageRelocation {
    /// Address of the item to which the relocation applies.
    pub virtual_address: u32,
    /// Index of the symbol the relocation refers to.
    pub symbol_table_index: u32,
    /// Format-specific relocation type.
    pub typ: u16,
}

/// True when `h` is the reading of the 40 little-endian bytes `b`.
pub open spec fn is_section_header_of(h: ImageSectionHeader, b: Seq<u8>) -> bool
    recommends
        b.len() == SECTION_HEADER_SIZE,
{
    &&& h.name@ == b.subrange(0, 8)
    &&& h.virtual_size == u32_from_le(b.subrange(8, 12))
    &&& h.virtual_address == u32_from_le(b.subrange(12, 16))
    &&& h.size_of_raw_data == u32_from_le(b.subrange(16, 20))
    &&& h.pointer_to_raw_data == u32_from_le(b.subrange(20, 24))
    &&& h.pointer_to_relocations == u32_from_le(b.subrange(24, 28))
    &&& h.pointer_to_linenumbers == u32_from_le(b.subrange(28, 32))
    &&& h.number_of_relocations == u16_from_le(b.subrange(32, 34))
    &&& h.number_of_linenumbers == u16_from_le(b.subrange(34, 36))
    &&& h.characteristics == u32_from_le(b.subrange(36, 40))
}

/// True when `r` is the reading of the 10 little-endian bytes `b`.
pub open spec fn is_relocation_of(r: ImageRelocation, b: Seq<u8>) -> bool
    recommends
        b.len() == RELOCATION_SIZE,
{
    &&& r.virtual_address == u32_from_le(b.subrange(0, 4))
    &&& r.symbol_table_index == u32_from_le(b.subrange(4, 8))
    &&& r.typ == u16_from_le(b.subrange(8, 10))
}

impl ImageSectionHeader {
    /// Read the section header record that starts at `offset`.
    pub fn parse(data: &[u8], offset: usize) -> (h: ImageSectionHeader)
        requires
            offset + SECTION_HEADER_SIZE <= data@.len(),
        ensures
            is_section_header_of(h, data@.subrange(offset as int, offset + SECTION_HEADER_SIZE)),
    {
        let name = [
            data[offset],
            data[offset + 1],
            data[offset + 2],
            data[offset + 3],
            data[offset + 4],
            data[offset + 5],
            data[offset + 6],
            data[offset + 7],
        ];
        let h = ImageSectionHeader {
            name,
            virtual_size: read_u32_le(data, offset + 8),
            virtual_address: read_u32_le(data, offset + 12),
            size_of_raw_data: read_u32_le(data, offset + 16),
            pointer_to_raw_data: read_u32_le(data, offset + 20),
            pointer_to_relocations: read_u32_le(data, offset + 24),
            pointer_to_linenumbers: read_u32_le(data, offset + 28),
            number_of_relocations: read_u16_le(data, offset + 32),
            number_of_linenumbers: read_u16_le(data, offset + 34),
            characteristics: read_u32_le(data, offset + 36),
        };
        proof {
            let b = data@.subrange(offset as int, offset + SECTION_HEADER_SIZE);
            assert(h.name@ =~= b.subrange(0, 8));
            assert(b.subrange(8, 12) =~= data@.subrange(offset + 8, offset + 12));
            assert(b.subrange(12, 16) =~= data@.subrange(offset + 12, offset + 16));
            assert(b.subrange(16, 20) =~= data@.subrange(offset + 16, offset + 20));
            assert(b.subrange(20, 24) =~= data@.subrange(offset + 20, offset + 24));
            assert(b.subrange(24, 28) =~= data@.subrange(offset + 24, offset + 28));
            assert(b.subrange(28, 32) =~= data@.subrange(offset + 28, offset + 32));
            assert(b.subrange(32, 34) =~= data@.subrange(offset + 32, offset + 34));
            assert(b.subrange(34, 36) =~= data@.subrange(offset + 34, offset + 36));
            assert(b.subrange(36, 40) =~= data@.subrange(offset + 36, offset + 40));
        }
        h
    }
}

/// The on-disk range of a section: `None` for uninitialized data, which
/// occupies no file space whatever its offset and size fields hold, and the
/// raw (offset, size) pair otherwise.
pub open spec fn spec_file_range(h: ImageSectionHeader) -> Option<(u32, u32)> {
    if h.characteristics & IMAGE_SCN_CNT_UNINITIALIZED_DATA != 0 {
        None
    } else {
        Some((h.pointer_to_raw_data, h.size_of_raw_data))
    }
}

/// A section marked as uninitialized data never has an on-disk range,
/// whatever its raw offset and size fields hold.
pub proof fn lemma_uninitialized_no_file_range(h: ImageSectionHeader)
    requires
        h.characteristics & IMAGE_SCN_CNT_UNINITIALIZED_DATA != 0,
    ensures
        spec_file_range(h) is None,
{
}

/// The on-disk bytes of a section: empty for a section with no on-disk range,
/// the named byte range when it lies inside the buffer, and
/// `Error::OutOfBounds` otherwise — never a silently truncated range.
pub open spec fn spec_section_data(h: ImageSectionHeader, data: Seq<u8>) -> Result<Seq<u8>, Error> {
    match spec_file_range(h) {
        Some((offset, size)) => if offset + size <= data.len() {
            Ok(data.subrange(offset as int, offset + size))
        } else {
            Err(Error::OutOfBounds)
        },
        None => Ok(Seq::<u8>::empty()),
    }
}

impl ImageSectionHeader {
    /// The normalized kind of this section.
    pub fn kind(&self) -> (k: SectionKind)
        ensures
            k == spec_kind(self.characteristics),
    {
        section_kind_of(self.characteristics)
    }

    /// The alignment of this section in bytes, decoded from the
    /// characteristics word.
    ///
    /// This is only meaningful for sections in a COFF file.
    pub fn coff_alignment(&self) -> (a: u64)
        ensures
            a == spec_alignment(self.characteristics),
    {
        alignment_of(self.characteristics)
    }

    /// The offset and size of the section's data in a COFF file, or `None`
    /// for a section that has no data in the file.
    pub fn coff_file_range(&self) -> (r: Option<(u32, u32)>)
        ensures
            r == spec_file_range(*self),
    {
        if self.characteristics & IMAGE_SCN_CNT_UNINITIALIZED_DATA != 0 {
            None
        } else {
            Some((self.pointer_to_raw_data, self.size_of_raw_data))
        }
    }

    /// The section's data in a COFF file, borrowed from `data`: empty when
    /// the section has none, a failure when its range reads past the buffer.
    ///
    /// `data` must be the entire file data.
    pub fn coff_data<'a>(&self, data: &'a [u8]) -> (r: Result<&'a [u8], Error>)
        ensures
            r is Ok <==> spec_section_data(*self, data@) is Ok,
            r is Ok ==> r->Ok_0@ == spec_section_data(*self, data@)->Ok_0,
            r is Err ==> r->Err_0 == spec_section_data(*self, data@)->Err_0,
    {
        match self.coff_file_range() {
            Some((offset, size)) => read_bytes_at(data, offset as u64, size as u64),
            None => {
                let r = read_bytes_at(data, 0, 0);
                proof {
                    assert(r is Ok && r->Ok_0@ =~= Seq::<u8>::empty());
                }
                r
            },
        }
    }
}

impl ImageRelocation {
    /// Read the relocation record that starts at `offset`.
    pub fn parse(data: &[u8], offset: usize) -> (r: ImageRelocation)
        requires
            offset + RELOCATION_SIZE <= data@.len(),
        ensures
            is_relocation_of(r, data@.subrange(offset as int, offset + RELOCATION_SIZE)),
    {
        let n = data.len();
        assert(offset + RELOCATION_SIZE <= n);
        let r = ImageRelocation {
            virtual_address: read_u32_le(data, offset),
            symbol_table_index: read_u32_le(data, offset + 4),
            typ: read_u16_le(data, offset + 8),
        };
        proof {
            let b = data@.subrange(offset as int, offset + RELOCATION_SIZE);
            assert(b.subrange(0, 4) =~= data@.subrange(offset as int, offset + 4));
            assert(b.subrange(4, 8) =~= data@.subrange(offset + 4, offset + 8));
            assert(b.subrange(8, 10) =~= data@.subrange(offset + 8, offset + 10));
        }
        r
    }
}

} // verus!
