//! Per-record views of one section, as a loadable segment and as a logical
//! section.
//!
//! A view holds the borrowed file buffer, the string table and a copy of one
//! 40-byte header record; every property is derived from those on demand.
//! Views are created freshly per iteration step and never mutated.

use vstd::prelude::*;
use vstd::slice::slice_subrange;
use vstd::string::StringSliceAdditionalSpecFns;
use vstd::utf8::valid_utf8;

use crate::bytes::{data_range, spec_data_range};
use crate::kind::{SectionKind, spec_kind};
use crate::pe::{
    spec_file_range, spec_section_data, ImageSectionHeader, RELOCATION_SIZE,
};
use crate::reloc::{CoffRelocationIterator, RelocationRecords};
use crate::strtab::StringTable;
use crate::Error;

verus! {

/// The 1-based index of a section.
#[derive(Clone, Copy, Debug, PartialEq, Eq, Structural)]
pub struct SectionIndex(pub usize);

/// The raw flag word of a section, tagged by the format it comes from.
#[derive(Clone, Copy, Debug, PartialEq, Eq, Structural)]
pub enum SectionFlags {
    /// COFF section characteristics.
    Coff {
        /// The raw characteristics word.
        characteristics: u32,
    },
}

/// How a byte range is compressed. This format has no native section
/// compression, so ranges are always passed through uncompressed.
#[derive(Clone, Copy, Debug, PartialEq, Eq, Structural)]
pub enum CompressionFormat {
    /// The bytes are the plain section contents.
    Uncompressed,
}

/// A file range that may hold compressed data, with the size it has once
/// uncompressed.
#[derive(Clone, Copy, Debug, PartialEq, Eq, Structural)]
pub struct CompressedFileRange {
    /// How the range is compressed.
    pub format: CompressionFormat,
    /// File offset of the range.
    pub offset: u64,
    /// Size of the range in the file.
    pub compressed_size: u64,
    /// Size of the data once uncompressed.
    pub uncompressed_size: u64,
}

impl CompressedFileRange {
    /// Tag an on-disk range, or the absence of one, as uncompressed.
    pub fn uncompressed(file_range: Option<(u64, u64)>) -> (r: CompressedFileRange)
        ensures
            r.format == CompressionFormat::Uncompressed,
            match file_range {
                Some((offset, size)) => r.offset == offset && r.compressed_size == size
                    && r.uncompressed_size == size,
                None => r.offset == 0 && r.compressed_size == 0 && r.uncompressed_size == 0,
            },
    {
        match file_range {
            Some((offset, size)) => CompressedFileRange {
                format: CompressionFormat::Uncompressed,
                offset,
                compressed_size: size,
                uncompressed_size: size,
            },
            None => CompressedFileRange {
                format: CompressionFormat::Uncompressed,
                offset: 0,
                compressed_size: 0,
                uncompressed_size: 0,
            },
        }
    }
}

/// Borrowed data that may be compressed, with its uncompressed size.
#[derive(Clone, Copy, Debug)]
pub struct CompressedData<'data> {
    /// How the data is compressed.
    pub format: CompressionFormat,
    /// The borrowed bytes.
    pub data: &'data [u8],
    /// Size of the data once uncompressed.
    pub uncompressed_size: u64,
}

impl<'data> CompressedData<'data> {
    /// Tag borrowed bytes as uncompressed.
    pub fn uncompressed(data: &'data [u8]) -> (r: CompressedData<'data>)
        requires
            data@.len() <= u64::MAX,
        ensures
            r.format == CompressionFormat::Uncompressed,
            r.data@ == data@,
            r.uncompressed_size == data@.len(),
    {
        CompressedData {
            format: CompressionFormat::Uncompressed,
            data,
            uncompressed_size: data.len() as u64,
        }
    }
}

/// Relies on `core::str::from_utf8`: it succeeds exactly on valid UTF-8 and
/// the resulting string views the same bytes.
#[verifier::external_body]
fn str_from_utf8(b: &[u8]) -> (r: Option<&str>)
    ensures
        r is Some <==> valid_utf8(b@),
        r is Some ==> r->Some_0.spec_bytes() == b@,
{
    core::str::from_utf8(b).ok()
}

/// A loadable section of a COFF file: the in-memory view of one header
/// record.
#[derive(Clone, Copy, Debug)]
pub struct CoffSegment<'data> {
    /// The entire file data.
    pub file_data: &'data [u8],
    /// The symbol string table of the file.
    pub strings: StringTable<'data>,
    /// The section header record this view derives from.
    pub section: ImageSectionHeader,
}

impl<'data> CoffSegment<'data> {
    /// The on-disk bytes of the section.
    pub fn bytes(&self) -> (r: Result<&'data [u8], Error>)
        ensures
            r is Ok <==> spec_section_data(self.section, self.file_data@) is Ok,
            r is Ok ==> r->Ok_0@ == spec_section_data(self.section, self.file_data@)->Ok_0,
            r is Err ==> r->Err_0 == Error::OutOfBounds,
    {
        self.section.coff_data(self.file_data)
    }

    /// The relative load address of the segment.
    pub fn address(&self) -> (r: u64)
        ensures
            r == self.section.virtual_address as u64,
    {
        self.section.virtual_address as u64
    }

    /// The in-memory size of the segment.
    pub fn size(&self) -> (r: u64)
        ensures
            r == self.section.virtual_size as u64,
    {
        self.section.virtual_size as u64
    }

    /// The alignment of the segment in bytes.
    pub fn align(&self) -> (r: u64)
        ensures
            r == crate::kind::spec_alignment(self.section.characteristics),
    {
        self.section.coff_alignment()
    }

    /// The on-disk (offset, size) pair of the segment, or `(0, 0)` when it
    /// has no data in the file.
    pub fn file_range(&self) -> (r: (u64, u64))
        ensures
            match spec_file_range(self.section) {
                Some((offset, size)) => r == (offset as u64, size as u64),
                None => r == (0u64, 0u64),
            },
    {
        match self.section.coff_file_range() {
            Some((offset, size)) => (offset as u64, size as u64),
            None => (0u64, 0u64),
        }
    }

    /// The borrowed on-disk bytes of the segment.
    pub fn data(&self) -> (r: Result<&'data [u8], Error>)
        ensures
            r is Ok <==> spec_section_data(self.section, self.file_data@) is Ok,
            r is Ok ==> r->Ok_0@ == spec_section_data(self.section, self.file_data@)->Ok_0,
            r is Err ==> r->Err_0 == Error::OutOfBounds,
    {
        self.bytes()
    }

    /// The part of the segment's data that the address range selects, or
    /// `None` when the range does not lie inside the segment; fails only
    /// when the segment's own on-disk range is invalid.
    pub fn data_range(&self, address: u64, size: u64) -> (r: Result<Option<&'data [u8]>, Error>)
        ensures
            r is Ok <==> spec_section_data(self.section, self.file_data@) is Ok,
            r is Err ==> r->Err_0 == Error::OutOfBounds,
            r is Ok ==> {
                let d = spec_section_data(self.section, self.file_data@)->Ok_0;
                let sel = spec_data_range(d, self.section.virtual_address as u64, address, size);
                &&& (r->Ok_0 is Some <==> sel is Some)
                &&& r->Ok_0 is Some ==> r->Ok_0->Some_0@ == sel->Some_0
            },
    {
        match self.bytes() {
            Ok(bytes) => Ok(data_range(bytes, self.address(), address, size)),
            Err(e) => Err(e),
        }
    }

    /// The decoded name of the segment, always present for this format;
    /// fails when the name does not decode or is not valid text.
    pub fn name<'a>(&'a self) -> (r: Result<Option<&'a str>, Error>)
        ensures
            match crate::name::spec_name(self.section.name@, self.strings.data@) {
                Ok(n) => {
                    &&& (r is Ok <==> valid_utf8(n))
                    &&& r is Ok ==> r->Ok_0 is Some && r->Ok_0->Some_0.spec_bytes() == n
                    &&& r is Err ==> r->Err_0 == Error::InvalidText
                },
                Err(e) => r is Err && r->Err_0 == e,
            },
    {
        let raw = match self.section.name(self.strings) {
            Ok(raw) => raw,
            Err(e) => {
                return Err(e);
            },
        };
        match str_from_utf8(raw) {
            Some(s) => Ok(Some(s)),
            None => Err(Error::InvalidText),
        }
    }
}

/// A walk over the loadable sections of a COFF file, yielding one
/// [`CoffSegment`] per header in file order.
#[derive(Clone, Debug)]
pub struct CoffSegmentIterator<'data, 'file> {
    /// The entire file data.
    pub file_data: &'data [u8],
    /// The symbol string table of the file.
    pub strings: StringTable<'data>,
    /// The headers being walked.
    pub sections: &'file Vec<ImageSectionHeader>,
    /// 0-based position of the next header.
    pub next_index: usize,
}

impl<'data, 'file> CoffSegmentIterator<'data, 'file> {
    /// The next segment view, or `None` when the walk is done.
    pub fn next(&mut self) -> (r: Option<CoffSegment<'data>>)
        ensures
            final(self).file_data == old(self).file_data,
            final(self).strings == old(self).strings,
            final(self).sections == old(self).sections,
            old(self).next_index < old(self).sections@.len() ==> {
                &&& final(self).next_index == old(self).next_index + 1
                &&& r is Some
                &&& r->Some_0.file_data == old(self).file_data
                &&& r->Some_0.strings == old(self).strings
                &&& r->Some_0.section == old(self).sections@[old(self).next_index as int]
            },
            old(self).next_index >= old(self).sections@.len() ==> {
                &&& r is None
                &&& final(self).next_index == old(self).next_index
            },
    {
        if self.next_index < self.sections.len() {
            let section = self.sections[self.next_index];
            self.next_index = self.next_index + 1;
            Some(CoffSegment { file_data: self.file_data, strings: self.strings, section })
        } else {
            None
        }
    }
}

/// A logical section of a COFF file: one header record together with the
/// 1-based index recorded at iteration time.
#[derive(Clone, Copy, Debug)]
pub struct CoffSection<'data> {
    /// The entire file data.
    pub file_data: &'data [u8],
    /// The symbol string table of the file.
    pub strings: StringTable<'data>,
    /// The 1-based index of the section.
    pub index: SectionIndex,
    /// The section header record this view derives from.
    pub section: ImageSectionHeader,
}

impl<'data> CoffSection<'data> {
    /// The on-disk bytes of the section.
    pub fn bytes(&self) -> (r: Result<&'data [u8], Error>)
        ensures
            r is Ok <==> spec_section_data(self.section, self.file_data@) is Ok,
            r is Ok ==> r->Ok_0@ == spec_section_data(self.section, self.file_data@)->Ok_0,
            r is Err ==> r->Err_0 == Error::OutOfBounds,
    {
        self.section.coff_data(self.file_data)
    }

    /// The 1-based index of the section.
    pub fn index(&self) -> (r: SectionIndex)
        ensures
            r == self.index,
    {
        self.index
    }

    /// The relative load address of the section.
    pub fn address(&self) -> (r: u64)
        ensures
            r == self.section.virtual_address as u64,
    {
        self.section.virtual_address as u64
    }

    /// The on-disk size of the section.
    ///
    /// Some encodings record a more precise size in an auxiliary symbol
    /// entry; this view reports the header field only.
    pub fn size(&self) -> (r: u64)
        ensures
            r == self.section.size_of_raw_data as u64,
    {
        self.section.size_of_raw_data as u64
    }

    /// The alignment of the section in bytes.
    pub fn align(&self) -> (r: u64)
        ensures
            r == crate::kind::spec_alignment(self.section.characteristics),
    {
        self.section.coff_alignment()
    }

    /// The on-disk (offset, size) pair of the section, or `None` when it has
    /// no data in the file.
    pub fn file_range(&self) -> (r: Option<(u64, u64)>)
        ensures
            match spec_file_range(self.section) {
                Some((offset, size)) => r == Some((offset as u64, size as u64)),
                None => r is None,
            },
    {
        match self.section.coff_file_range() {
            Some((offset, size)) => Some((offset as u64, size as u64)),
            None => None,
        }
    }

    /// The borrowed on-disk bytes of the section.
    pub fn data(&self) -> (r: Result<&'data [u8], Error>)
        ensures
            r is Ok <==> spec_section_data(self.section, self.file_data@) is Ok,
            r is Ok ==> r->Ok_0@ == spec_section_data(self.section, self.file_data@)->Ok_0,
            r is Err ==> r->Err_0 == Error::OutOfBounds,
    {
        self.bytes()
    }

    /// The part of the section's data that the address range selects, or
    /// `None` when the range does not lie inside the section; fails only
    /// when the section's own on-disk range is invalid.
    pub fn data_range(&self, address: u64, size: u64) -> (r: Result<Option<&'data [u8]>, Error>)
        ensures
            r is Ok <==> spec_section_data(self.section, self.file_data@) is Ok,
            r is Err ==> r->Err_0 == Error::OutOfBounds,
            r is Ok ==> {
                let d = spec_section_data(self.section, self.file_data@)->Ok_0;
                let sel = spec_data_range(d, self.section.virtual_address as u64, address, size);
                &&& (r->Ok_0 is Some <==> sel is Some)
                &&& r->Ok_0 is Some ==> r->Ok_0->Some_0@ == sel->Some_0
            },
    {
        match self.bytes() {
            Ok(bytes) => Ok(data_range(bytes, self.address(), address, size)),
            Err(e) => Err(e),
        }
    }

    /// The on-disk range of the section, tagged as uncompressed: this format
    /// has no native section compression.
    pub fn compressed_file_range(&self) -> (r: Result<CompressedFileRange, Error>)
        ensures
            r is Ok,
            r->Ok_0.format == CompressionFormat::Uncompressed,
            match spec_file_range(self.section) {
                Some((offset, size)) => r->Ok_0.offset == offset && r->Ok_0.compressed_size == size
                    && r->Ok_0.uncompressed_size == size,
                None => r->Ok_0.offset == 0 && r->Ok_0.compressed_size == 0
                    && r->Ok_0.uncompressed_size == 0,
            },
    {
        Ok(CompressedFileRange::uncompressed(self.file_range()))
    }

    /// The on-disk bytes of the section, tagged as uncompressed.
    pub fn compressed_data(&self) -> (r: Result<CompressedData<'data>, Error>)
        ensures
            r is Ok <==> spec_section_data(self.section, self.file_data@) is Ok,
            r is Ok ==> {
                let d = spec_section_data(self.section, self.file_data@)->Ok_0;
                &&& r->Ok_0.format == CompressionFormat::Uncompressed
                &&& r->Ok_0.data@ == d
                &&& r->Ok_0.uncompressed_size == d.len()
            },
            r is Err ==> r->Err_0 == Error::OutOfBounds,
    {
        match self.data() {
            Ok(data) => Ok(CompressedData::uncompressed(data)),
            Err(e) => Err(e),
        }
    }

    /// The decoded name of the section; fails when the name does not decode
    /// or is not valid text.
    pub fn name<'a>(&'a self) -> (r: Result<&'a str, Error>)
        ensures
            match crate::name::spec_name(self.section.name@, self.strings.data@) {
                Ok(n) => {
                    &&& (r is Ok <==> valid_utf8(n))
                    &&& r is Ok ==> r->Ok_0.spec_bytes() == n
                    &&& r is Err ==> r->Err_0 == Error::InvalidText
                },
                Err(e) => r is Err && r->Err_0 == e,
            },
    {
        let raw = match self.section.name(self.strings) {
            Ok(raw) => raw,
            Err(e) => {
                return Err(e);
            },
        };
        match str_from_utf8(raw) {
            Some(s) => Ok(s),
            None => Err(Error::InvalidText),
        }
    }

    /// The name of the segment the section belongs to: always absent, since
    /// this format has no distinct segment naming.
    pub fn segment_name(&self) -> (r: Result<Option<&str>, Error>)
        ensures
            r is Ok,
            r->Ok_0 is None,
    {
        Ok(None)
    }

    /// The normalized kind of the section.
    pub fn kind(&self) -> (k: SectionKind)
        ensures
            k == spec_kind(self.section.characteristics),
    {
        self.section.kind()
    }

    /// A walk over the raw relocation records of the section. A header whose
    /// relocation offset and count reach past the buffer yields an empty
    /// walk rather than a failure.
    pub fn relocations(&self) -> (it: CoffRelocationIterator<'data>)
        ensures
            it.next_index == 0,
            self.section.pointer_to_relocations + self.section.number_of_relocations
                * RELOCATION_SIZE <= self.file_data@.len() ==> it.records.bytes@
                == self.file_data@.subrange(
                self.section.pointer_to_relocations as int,
                self.section.pointer_to_relocations + self.section.number_of_relocations
                    * RELOCATION_SIZE,
            ),
            self.section.pointer_to_relocations + self.section.number_of_relocations
                * RELOCATION_SIZE > self.file_data@.len() ==> it.records.bytes@.len() == 0,
    {
        match self.section.coff_relocations(self.file_data) {
            Ok(records) => records.iter(),
            Err(_) => {
                let records = RelocationRecords {
                    bytes: slice_subrange(self.file_data, 0, 0),
                };
                records.iter()
            },
        }
    }

    /// The raw characteristics word of the section, tagged by format.
    pub fn flags(&self) -> (f: SectionFlags)
        ensures
            f == (SectionFlags::Coff { characteristics: self.section.characteristics }),
    {
        SectionFlags::Coff { characteristics: self.section.characteristics }
    }
}

/// A walk over the sections of a COFF file, yielding one [`CoffSection`] per
/// header in file order, each carrying its 1-based index.
#[derive(Clone, Debug)]
pub struct CoffSectionIterator<'data, 'file> {
    /// The entire file data.
    pub file_data: &'data [u8],
    /// The symbol string table of the file.
    pub strings: StringTable<'data>,
    /// The headers being walked.
    pub sections: &'file Vec<ImageSectionHeader>,
    /// 0-based position of the next header.
    pub next_index: usize,
}

impl<'data, 'file> CoffSectionIterator<'data, 'file> {
    /// The next section view, or `None` when the walk is done.
    pub fn next(&mut self) -> (r: Option<CoffSection<'data>>)
        ensures
            final(self).file_data == old(self).file_data,
            final(self).strings == old(self).strings,
            final(self).sections == old(self).sections,
            old(self).next_index < old(self).sections@.len() ==> {
                &&& final(self).next_index == old(self).next_index + 1
                &&& r is Some
                &&& r->Some_0.file_data == old(self).file_data
                &&& r->Some_0.strings == old(self).strings
                &&& r->Some_0.index.0 == old(self).next_index + 1
                &&& r->Some_0.section == old(self).sections@[old(self).next_index as int]
            },
            old(self).next_index >= old(self).sections@.len() ==> {
                &&& r is None
                &&& final(self).next_index == old(self).next_index
            },
    {
        if self.next_index < self.sections.len() {
            let section = self.sections[self.next_index];
            self.next_index = self.next_index + 1;
            Some(
                CoffSection {
                    file_data: self.file_data,
                    strings: self.strings,
                    index: SectionIndex(self.next_index),
                    section,
                },
            )
        } else {
            None
        }
    }
}

} // verus!
