//! Lookup into the symbol string table, where long section names live.
//!
//! The table is a byte region borrowed from the file; an entry is addressed by
//! a byte offset and runs to the first null byte.

use vstd::prelude::*;
use vstd::slice::slice_subrange;

use crate::bytes::{find_byte, lemma_find_byte, spec_find_byte};
use crate::Error;

verus! {

/// The entry at `offset`: the bytes from `offset` up to the first null byte,
/// or `Error::InvalidStringOffset` when `offset` is past the end or no null
/// byte follows.
pub open spec fn spec_strtab_get(data: Seq<u8>, offset: u64) -> Result<Seq<u8>, Error> {
    if offset <= data.len() {
        match spec_find_byte(data.skip(offset as int), 0u8) {
            Some(i) => Ok(data.subrange(offset as int, offset + i)),
            None => Err(Error::InvalidStringOffset),
        }
    } else {
        Err(Error::InvalidStringOffset)
    }
}

/// The symbol string table of the file, borrowed from the file buffer.
#[derive(Clone, Copy, Debug)]
pub struct StringTable<'data> {
    /// The bytes of the whole string table region.
    pub data: &'data [u8],
}

impl<'data> StringTable<'data> {
    /// The null-terminated entry at `offset`.
    pub fn get(&self, offset: u64) -> (r: Result<&'data [u8], Error>)
        ensures
            r is Ok <==> spec_strtab_get(self.data@, offset) is Ok,
            r is Ok ==> r->Ok_0@ == spec_strtab_get(self.data@, offset)->Ok_0,
            r is Err ==> r->Err_0 == spec_strtab_get(self.data@, offset)->Err_0,
    {
        let len = self.data.len();
        if offset <= len as u64 {
            let tail = slice_subrange(self.data, offset as usize, len);
            proof {
                assert(tail@ =~= self.data@.skip(offset as int));
                lemma_find_byte(tail@, 0u8);
            }
            match find_byte(tail, 0) {
                Some(end) => {
                    let entry = slice_subrange(tail, 0, end);
                    proof {
                        let spec_end = spec_find_byte(tail@, 0u8)->Some_0;
                        assert(spec_end == end);
                        assert(entry@ =~= self.data@.subrange(
                            offset as int,
                            offset + end,
                        ));
                    }
                    Ok(entry)
                },
                None => Err(Error::InvalidStringOffset),
            }
        } else {
            Err(Error::InvalidStringOffset)
        }
    }
}

} // verus!
