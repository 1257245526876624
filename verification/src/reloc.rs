//! The raw relocation array of a section.
//!
//! A section header names a file offset and a count; the array is `count`
//! 10-byte records there. Records are parsed one at a time, on demand, and
//! the walk can always be restarted from the raw array.

use vstd::prelude::*;
use vstd::slice::slice_subrange;

use crate::bytes::{read_bytes_at, u16_from_le, u32_from_le};
use crate::pe::{ImageRelocation, ImageSectionHeader, RELOCATION_SIZE};
use crate::Error;

verus! {

/// The relocation record encoded at record index `i` of the raw array `b`.
pub open spec fn spec_record_at(b: Seq<u8>, i: int) -> ImageRelocation {
    ImageRelocation {
        virtual_address: u32_from_le(b.subrange(10 * i, 10 * i + 4)),
        symbol_table_index: u32_from_le(b.subrange(10 * i + 4, 10 * i + 8)),
        typ: u16_from_le(b.subrange(10 * i + 8, 10 * i + 10)),
    }
}

/// The raw relocation array of one section, borrowed from the file buffer.
#[derive(Clone, Copy, Debug)]
pub struct RelocationRecords<'data> {
    /// The bytes of the whole array.
    pub bytes: &'data [u8],
}

impl<'data> RelocationRecords<'data> {
    /// How many whole records the array holds.
    pub open spec fn spec_count(self) -> nat {
        self.bytes@.len() / (RELOCATION_SIZE as nat)
    }

    /// How many records the array holds.
    pub fn count(&self) -> (n: usize)
        ensures
            n == self.spec_count(),
    {
        self.bytes.len() / RELOCATION_SIZE
    }

    /// The record at index `i`.
    pub fn get(&self, i: usize) -> (r: ImageRelocation)
        requires
            i < self.spec_count(),
        ensures
            r == spec_record_at(self.bytes@, i as int),
    {
        let n = self.bytes.len();
        proof {
            assert(RELOCATION_SIZE * (n as int / RELOCATION_SIZE as int) <= n as int) by (nonlinear_arith);
            assert(10 * (i as int) + 10 <= 10 * (n as int / 10));
        }
        let rec = ImageRelocation::parse(self.bytes, i * RELOCATION_SIZE);
        proof {
            let b = self.bytes@;
            let off = 10 * (i as int);
            assert(b.subrange(off, off + 10).subrange(0, 4) =~= b.subrange(off, off + 4));
            assert(b.subrange(off, off + 10).subrange(4, 8) =~= b.subrange(off + 4, off + 8));
            assert(b.subrange(off, off + 10).subrange(8, 10) =~= b.subrange(off + 8, off + 10));
        }
        rec
    }

    /// A fresh walk over the records, starting at the first.
    pub fn iter(&self) -> (it: CoffRelocationIterator<'data>)
        ensures
            it.records == *self,
            it.next_index == 0,
    {
        CoffRelocationIterator { records: *self, next_index: 0 }
    }
}

/// A lazy walk over the raw relocation records of one section.
#[derive(Clone, Copy, Debug)]
pub struct CoffRelocationIterator<'data> {
    /// The raw array being walked.
    pub records: RelocationRecords<'data>,
    /// 0-based index of the next record.
    pub next_index: usize,
}

impl<'data> CoffRelocationIterator<'data> {
    /// The next record, or `None` when the walk is done.
    pub fn next(&mut self) -> (r: Option<ImageRelocation>)
        ensures
            final(self).records == old(self).records,
            old(self).next_index < old(self).records.spec_count() ==> {
                &&& r == Some(spec_record_at(old(self).records.bytes@, old(self).next_index as int))
                &&& final(self).next_index == old(self).next_index + 1
            },
            old(self).next_index >= old(self).records.spec_count() ==> {
                &&& r is None
                &&& final(self).next_index == old(self).next_index
            },
    {
        let n = self.records.count();
        if self.next_index < n {
            let rec = self.records.get(self.next_index);
            self.next_index = self.next_index + 1;
            Some(rec)
        } else {
            None
        }
    }
}

impl ImageSectionHeader {
    /// The raw relocation array the header points at, or
    /// `Error::OutOfBounds` when its offset and count reach past the buffer.
    ///
    /// `data` must be the entire file data.
    pub fn coff_relocations<'data>(&self, data: &'data [u8]) -> (r: Result<
        RelocationRecords<'data>,
        Error,
    >)
        ensures
            r is Ok <==> self.pointer_to_relocations + self.number_of_relocations
                * RELOCATION_SIZE <= data@.len(),
            r is Ok ==> {
                let recs = r->Ok_0;
                &&& recs.bytes@ == data@.subrange(
                    self.pointer_to_relocations as int,
                    self.pointer_to_relocations + self.number_of_relocations * RELOCATION_SIZE,
                )
                &&& recs.spec_count() == self.number_of_relocations
            },
            r is Err ==> r->Err_0 == Error::OutOfBounds,
    {
        let pointer = self.pointer_to_relocations as u64;
        let number = self.number_of_relocations as u64;
        match read_bytes_at(data, pointer, number * (RELOCATION_SIZE as u64)) {
            Ok(bytes) => {
                let recs = RelocationRecords { bytes };
                proof {
                    assert(recs.bytes@.len() == 10 * (number as int));
                    assert((10 * (number as int)) as nat / 10 == number as nat);
                }
                Ok(recs)
            },
            Err(e) => Err(e),
        }
    }
}

} // verus!
