//! The table of section headers in a COFF or PE file.

use vstd::prelude::*;

use crate::bytes::bytes_equal;
use crate::name::spec_name;
use crate::pe::{
    is_section_header_of, ImageFileHeader, ImageSectionHeader, SECTION_HEADER_SIZE,
};
use crate::strtab::StringTable;
use crate::Error;

verus! {

/// True when `h` decodes, against the string table bytes `strings`, to
/// exactly the name `name`. A header whose name does not decode matches
/// nothing.
pub open spec fn name_matches(h: ImageSectionHeader, strings: Seq<u8>, name: Seq<u8>) -> bool {
    spec_name(h.name@, strings) == Ok::<Seq<u8>, Error>(name)
}

/// The table of section headers, parsed from the file buffer.
///
/// Section indices start at 1, mirroring the symbol-table convention of the
/// format, where index 0 is reserved.
#[derive(Clone, Debug)]
pub struct SectionTable {
    sections: Vec<ImageSectionHeader>,
}

impl View for SectionTable {
    type V = Seq<ImageSectionHeader>;

    closed spec fn view(&self) -> Seq<ImageSectionHeader> {
        self.sections@
    }
}

impl SectionTable {
    /// Parse the section table: `count` records at `offset`, where the count
    /// comes from the already-parsed file header.
    ///
    /// `data` must be the entire file data.
    /// `offset` must be after the optional file header.
    ///
    /// Fails exactly when the record array would read past the buffer;
    /// record contents are not validated here but on access.
    pub fn parse(header: &ImageFileHeader, data: &[u8], offset: u64) -> (r: Result<
        SectionTable,
        Error,
    >)
        ensures
            r is Ok <==> offset + header.number_of_sections * SECTION_HEADER_SIZE <= data@.len(),
            r is Ok ==> {
                let t = r->Ok_0;
                &&& t@.len() == header.number_of_sections
                &&& forall|i: int|
                    0 <= i < t@.len() ==> is_section_header_of(
                        #[trigger] t@[i],
                        data@.subrange(
                            offset + i * SECTION_HEADER_SIZE,
                            offset + i * SECTION_HEADER_SIZE + SECTION_HEADER_SIZE,
                        ),
                    )
            },
            r is Err ==> r->Err_0 == Error::OutOfBounds,
    {
        let len = data.len();
        let count = header.number_of_sections as usize;
        let total = (count * SECTION_HEADER_SIZE) as u64;
        if !(offset <= len as u64 && total <= len as u64 - offset) {
            return Err(Error::OutOfBounds);
        }
        let base = offset as usize;
        let mut sections: Vec<ImageSectionHeader> = Vec::new();
        let mut i: usize = 0;
        while i < count
            invariant
                i <= count,
                base == offset,
                base + count * SECTION_HEADER_SIZE <= data@.len(),
                data@.len() <= usize::MAX,
                sections@.len() == i,
                forall|j: int|
                    0 <= j < i ==> is_section_header_of(
                        #[trigger] sections@[j],
                        data@.subrange(
                            offset + j * SECTION_HEADER_SIZE,
                            offset + j * SECTION_HEADER_SIZE + SECTION_HEADER_SIZE,
                        ),
                    ),
            decreases count - i,
        {
            let h = ImageSectionHeader::parse(data, base + i * SECTION_HEADER_SIZE);
            sections.push(h);
            i = i + 1;
        }
        Ok(SectionTable { sections })
    }

    /// Walk the section headers in file order.
    ///
    /// Warning: section indices start at 1.
    pub fn iter<'a>(&'a self) -> (it: SectionTableIter<'a>)
        ensures
            it.sections@ == self@,
            it.next_index == 0,
    {
        SectionTableIter { sections: &self.sections, next_index: 0 }
    }

    /// True when the table has no section headers.
    pub fn is_empty(&self) -> (r: bool)
        ensures
            r <==> self@.len() == 0,
    {
        self.sections.is_empty()
    }

    /// The number of section headers.
    pub fn len(&self) -> (n: usize)
        ensures
            n == self@.len(),
    {
        self.sections.len()
    }

    /// The section header at the given index.
    ///
    /// The index is 1-based; 0 and anything past the table fail.
    pub fn section(&self, index: usize) -> (r: Result<ImageSectionHeader, Error>)
        ensures
            r is Ok <==> 1 <= index <= self@.len(),
            r is Ok ==> r->Ok_0 == self@[index - 1],
            r is Err ==> r->Err_0 == Error::InvalidIndex,
    {
        if index >= 1 && index <= self.sections.len() {
            Ok(self.sections[index - 1])
        } else {
            Err(Error::InvalidIndex)
        }
    }

    /// The first section header whose decoded name is `name`, with its
    /// 1-based index.
    ///
    /// Sections whose names do not decode are skipped, not reported as
    /// failures.
    pub fn section_by_name<'a>(&self, strings: StringTable<'a>, name: &[u8]) -> (r: Option<
        (usize, ImageSectionHeader),
    >)
        ensures
            match r {
                Some((index, h)) => {
                    &&& 1 <= index <= self@.len()
                    &&& h == self@[index - 1]
                    &&& name_matches(h, strings.data@, name@)
                    &&& forall|j: int|
                        0 <= j < index - 1 ==> !name_matches(#[trigger] self@[j], strings.data@, name@)
                },
                None => forall|j: int|
                    0 <= j < self@.len() ==> !name_matches(#[trigger] self@[j], strings.data@, name@),
            },
    {
        let n = self.sections.len();
        let mut i: usize = 0;
        while i < n
            invariant
                i <= n,
                n == self@.len(),
                forall|j: int|
                    0 <= j < i ==> !name_matches(#[trigger] self@[j], strings.data@, name@),
            decreases n - i,
        {
            let h = self.sections[i];
            match h.name(strings) {
                Ok(decoded) => {
                    if bytes_equal(decoded, name) {
                        return Some((i + 1, h));
                    }
                },
                Err(_) => {},
            }
            i = i + 1;
        }
        None
    }
}

/// A lazy, restartable walk over the headers of a [`SectionTable`], in file
/// order.
#[derive(Clone, Debug)]
pub struct SectionTableIter<'a> {
    /// The headers being walked.
    pub sections: &'a Vec<ImageSectionHeader>,
    /// 0-based position of the next header.
    pub next_index: usize,
}

impl<'a> SectionTableIter<'a> {
    /// The next header, or `None` when the walk is done.
    pub fn next(&mut self) -> (r: Option<ImageSectionHeader>)
        ensures
            final(self).sections == old(self).sections,
            old(self).next_index < old(self).sections@.len() ==> {
                &&& r == Some(old(self).sections@[old(self).next_index as int])
                &&& final(self).next_index == old(self).next_index + 1
            },
            old(self).next_index >= old(self).sections@.len() ==> {
                &&& r is None
                &&& final(self).next_index == old(self).next_index
            },
    {
        if self.next_index < self.sections.len() {
            let h = self.sections[self.next_index];
            self.next_index = self.next_index + 1;
            Some(h)
        } else {
            None
        }
    }
}

} // verus!
