//! Bounded, read-only access to the file buffer.
//!
//! Every read is checked against the buffer length and fails with
//! [`Error::OutOfBounds`](crate::Error::OutOfBounds) instead of reading past
//! the end. Returned slices borrow from the buffer; nothing is copied.

use vstd::prelude::*;
use vstd::slice::slice_subrange;

use crate::Error;

verus! {

/// True when the byte range `[offset, offset + size)` lies inside a buffer of
/// `len` bytes.
pub open spec fn range_in_bounds(offset: u64, size: u64, len: nat) -> bool {
    offset + size <= len
}

/// The value of two little-endian bytes.
pub open spec fn u16_from_le(b: Seq<u8>) -> u16
    recommends
        b.len() == 2,
{
    (b[0] + b[1] * 0x100) as u16
}

/// The value of four little-endian bytes.
pub open spec fn u32_from_le(b: Seq<u8>) -> u32
    recommends
        b.len() == 4,
{
    (b[0] + b[1] * 0x100 + b[2] * 0x10000 + b[3] * 0x1000000) as u32
}

/// The position of the first occurrence of `needle` in `s`, if any.
pub open spec fn spec_find_byte(s: Seq<u8>, needle: u8) -> Option<int>
    decreases s.len(),
{
    if s.len() == 0 {
        None
    } else if s[0] == needle {
        Some(0)
    } else {
        match spec_find_byte(s.drop_first(), needle) {
            Some(i) => Some(i + 1),
            None => None,
        }
    }
}

/// `spec_find_byte` returns the first occurrence: the byte there is `needle`
/// and no earlier byte is, and it returns `None` exactly when `needle` does
/// not occur.
pub proof fn lemma_find_byte(s: Seq<u8>, needle: u8)
    ensures
        match spec_find_byte(s, needle) {
            Some(i) => 0 <= i < s.len() && s[i] == needle && forall|j: int|
                0 <= j < i ==> s[j] != needle,
            None => forall|j: int| 0 <= j < s.len() ==> s[j] != needle,
        },
    decreases s.len(),
{
    if s.len() > 0 && s[0] != needle {
        let t = s.drop_first();
        lemma_find_byte(t, needle);
        match spec_find_byte(t, needle) {
            Some(i) => {
                assert(s[i + 1] == t[i]);
                assert forall|j: int| 0 <= j < i + 1 implies s[j] != needle by {
                    if j >= 1 {
                        assert(s[j] == t[j - 1]);
                    }
                }
            },
            None => {
                assert forall|j: int| 0 <= j < s.len() implies s[j] != needle by {
                    if j >= 1 {
                        assert(s[j] == t[j - 1]);
                    }
                }
            },
        }
    }
}

/// Relies on `memchr::memchr`: the index of the first occurrence of `needle`
/// in `haystack`, or `None` when it does not occur.
#[verifier::external_body]
pub fn find_byte(haystack: &[u8], needle: u8) -> (r: Option<usize>)
    ensures
        match r {
            Some(i) => i < haystack@.len() && haystack@[i as int] == needle && forall|j: int|
                0 <= j < i ==> haystack@[j] != needle,
            None => forall|j: int| 0 <= j < haystack@.len() ==> haystack@[j] != needle,
        },
{
    memchr::memchr(needle, haystack)
}

/// `size` bytes at `offset`, borrowed from `data`; fails when the range ends
/// past the buffer.
pub fn read_bytes_at<'a>(data: &'a [u8], offset: u64, size: u64) -> (r: Result<&'a [u8], Error>)
    ensures
        r is Ok <==> range_in_bounds(offset, size, data@.len()),
        r is Ok ==> r->Ok_0@ == data@.subrange(offset as int, offset + size),
        r is Err ==> r->Err_0 == Error::OutOfBounds,
{
    let len = data.len();
    if offset <= len as u64 && size <= len as u64 - offset {
        Ok(slice_subrange(data, offset as usize, (offset + size) as usize))
    } else {
        Err(Error::OutOfBounds)
    }
}

/// The two little-endian bytes at `offset`, as a `u16`.
pub fn read_u16_le(data: &[u8], offset: usize) -> (r: u16)
    requires
        offset + 2 <= data@.len(),
    ensures
        r == u16_from_le(data@.subrange(offset as int, offset + 2)),
{
    let b0 = data[offset];
    let b1 = data[offset + 1];
    let r = b0 as u16 + b1 as u16 * 0x100;
    assert(data@.subrange(offset as int, offset + 2)[0] == b0);
    assert(data@.subrange(offset as int, offset + 2)[1] == b1);
    r
}

/// The four little-endian bytes at `offset`, as a `u32`.
pub fn read_u32_le(data: &[u8], offset: usize) -> (r: u32)
    requires
        offset + 4 <= data@.len(),
    ensures
        r == u32_from_le(data@.subrange(offset as int, offset + 4)),
{
    let b0 = data[offset];
    let b1 = data[offset + 1];
    let b2 = data[offset + 2];
    let b3 = data[offset + 3];
    let r = b0 as u32 + b1 as u32 * 0x100 + b2 as u32 * 0x10000 + b3 as u32 * 0x1000000;
    assert(data@.subrange(offset as int, offset + 4)[0] == b0);
    assert(data@.subrange(offset as int, offset + 4)[1] == b1);
    assert(data@.subrange(offset as int, offset + 4)[2] == b2);
    assert(data@.subrange(offset as int, offset + 4)[3] == b3);
    r
}

/// Byte-for-byte equality of two slices.
pub fn bytes_equal(a: &[u8], b: &[u8]) -> (r: bool)
    ensures
        r <==> a@ == b@,
{
    if a.len() != b.len() {
        return false;
    }
    let n = a.len();
    let mut i: usize = 0;
    while i < n
        invariant
            i <= n,
            n == a@.len() == b@.len(),
            forall|j: int| 0 <= j < i ==> a@[j] == b@[j],
        decreases n - i,
    {
        if a[i] != b[i] {
            return false;
        }
        i = i + 1;
    }
    proof {
        assert(a@ =~= b@);
    }
    true
}

/// The part of `data` that the address range `[range_address,
/// range_address + size)` selects, when `data` itself starts at address
/// `data_address`: the whole requested range when it lies inside the data,
/// and `None` otherwise.
pub open spec fn spec_data_range(
    data: Seq<u8>,
    data_address: u64,
    range_address: u64,
    size: u64,
) -> Option<Seq<u8>> {
    if data_address <= range_address && range_address - data_address + size <= data.len() {
        Some(data.subrange(range_address - data_address, range_address - data_address + size))
    } else {
        None
    }
}

/// A non-empty address range that does not overlap `[data_address,
/// data_address + data.len())` selects nothing.
pub proof fn lemma_data_range_no_overlap(
    data: Seq<u8>,
    data_address: u64,
    range_address: u64,
    size: u64,
)
    requires
        size > 0,
        range_address + size <= data_address || range_address >= data_address + data.len(),
    ensures
        spec_data_range(data, data_address, range_address, size) is None,
{
}

/// The bytes of `data` that the address range selects, borrowed from `data`;
/// `None` when the range does not lie inside it.
pub fn data_range<'a>(data: &'a [u8], data_address: u64, range_address: u64, size: u64) -> (r:
    Option<&'a [u8]>)
    ensures
        r is Some <==> spec_data_range(data@, data_address, range_address, size) is Some,
        r is Some ==> r->Some_0@ == spec_data_range(data@, data_address, range_address, size)->Some_0,
{
    if range_address < data_address {
        return None;
    }
    let offset = range_address - data_address;
    match read_bytes_at(data, offset, size) {
        Ok(b) => Some(b),
        Err(_) => None,
    }
}

} // verus!
