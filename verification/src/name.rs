//! Decoding of the 8-byte section name field.
//!
//! A name that does not start with `/` is the field itself, truncated at the
//! first null byte. `//` is followed by a base-64 offset and a single `/` by a
//! base-10 offset into the string table, where the long name lives. The two
//! paths are told apart by the first byte alone and are mutually exclusive.

use vstd::prelude::*;
use vstd::slice::slice_subrange;

use crate::bytes::{find_byte, lemma_find_byte, spec_find_byte};
use crate::pe::ImageSectionHeader;
use crate::strtab::{spec_strtab_get, StringTable};
use crate::Error;

verus! {

/// ASCII `/`.
pub const SLASH: u8 = 47;

/// ASCII `+`.
pub const PLUS: u8 = 43;

/// ASCII `A`.
pub const UPPER_A: u8 = 65;

/// ASCII `Z`.
pub const UPPER_Z: u8 = 90;

/// ASCII `a`.
pub const LOWER_A: u8 = 97;

/// ASCII `z`.
pub const LOWER_Z: u8 = 122;

/// ASCII `0`.
pub const DIGIT_0: u8 = 48;

/// ASCII `9`.
pub const DIGIT_9: u8 = 57;

/// `base` raised to `n`.
pub open spec fn pow_int(base: int, n: nat) -> int
    decreases n,
{
    if n == 0 {
        1
    } else {
        base * pow_int(base, (n - 1) as nat)
    }
}

proof fn lemma_pow_int_pos(base: int, n: nat)
    requires
        1 <= base,
    ensures
        1 <= pow_int(base, n),
    decreases n,
{
    if n > 0 {
        lemma_pow_int_pos(base, (n - 1) as nat);
        assert(1 <= base * pow_int(base, (n - 1) as nat)) by (nonlinear_arith)
            requires
                1 <= base && 1 <= pow_int(base, (n - 1) as nat),
        ;
    }
}

proof fn lemma_pow_int_le(base: int, a: nat, b: nat)
    requires
        1 <= base,
        a <= b,
    ensures
        pow_int(base, a) <= pow_int(base, b),
    decreases b,
{
    if a < b {
        lemma_pow_int_le(base, a, (b - 1) as nat);
        lemma_pow_int_pos(base, (b - 1) as nat);
        assert(pow_int(base, (b - 1) as nat) <= base * pow_int(base, (b - 1) as nat))
            by (nonlinear_arith)
            requires
                1 <= base && 1 <= pow_int(base, (b - 1) as nat),
        ;
    }
}

proof fn lemma_pow64_units()
    ensures
        pow_int(64, 5) == 0x4000_0000,
        pow_int(64, 6) == 0x10_0000_0000,
{
    assert(pow_int(64, 0) == 1);
    assert(pow_int(64, 1) == 64);
    assert(pow_int(64, 2) == 0x1000);
    assert(pow_int(64, 3) == 0x4_0000);
    assert(pow_int(64, 4) == 0x100_0000);
    assert(pow_int(64, 5) == 0x4000_0000);
    assert(pow_int(64, 6) == 0x10_0000_0000);
}

proof fn lemma_pow10_units()
    ensures
        pow_int(10, 6) == 1_000_000,
        pow_int(10, 7) == 10_000_000,
{
    assert(pow_int(10, 0) == 1);
    assert(pow_int(10, 1) == 10);
    assert(pow_int(10, 2) == 100);
    assert(pow_int(10, 3) == 1000);
    assert(pow_int(10, 4) == 10_000);
    assert(pow_int(10, 5) == 100_000);
    assert(pow_int(10, 6) == 1_000_000);
    assert(pow_int(10, 7) == 10_000_000);
}

/// The value of one base-64 digit: `A`-`Z` are 0 to 25, `a`-`z` are 26 to 51,
/// `0`-`9` are 52 to 61, `+` is 62 and `/` is 63.
pub open spec fn base64_digit(b: u8) -> Option<int> {
    if UPPER_A <= b <= UPPER_Z {
        Some(b - UPPER_A)
    } else if LOWER_A <= b <= LOWER_Z {
        Some(b - LOWER_A + 26)
    } else if DIGIT_0 <= b <= DIGIT_9 {
        Some(b - DIGIT_0 + 52)
    } else if b == PLUS {
        Some(62)
    } else if b == SLASH {
        Some(63)
    } else {
        None
    }
}

/// The value of one decimal digit.
pub open spec fn base10_digit(b: u8) -> Option<int> {
    if DIGIT_0 <= b <= DIGIT_9 {
        Some(b - DIGIT_0)
    } else {
        None
    }
}

/// The unsigned base-64 reading of `s`, most significant digit first, or
/// `None` when some byte is not a base-64 digit.
pub open spec fn spec_base64_value(s: Seq<u8>) -> Option<int>
    decreases s.len(),
{
    if s.len() == 0 {
        Some(0)
    } else {
        match spec_base64_value(s.drop_last()) {
            Some(v) => match base64_digit(s.last()) {
                Some(d) => Some(v * 64 + d),
                None => None,
            },
            None => None,
        }
    }
}

/// The unsigned base-10 reading of `s`, most significant digit first, or
/// `None` when some byte is not a decimal digit.
pub open spec fn spec_base10_value(s: Seq<u8>) -> Option<int>
    decreases s.len(),
{
    if s.len() == 0 {
        Some(0)
    } else {
        match spec_base10_value(s.drop_last()) {
            Some(v) => match base10_digit(s.last()) {
                Some(d) => Some(v * 10 + d),
                None => None,
            },
            None => None,
        }
    }
}

proof fn lemma_base64_value_none(s: Seq<u8>, k: int)
    requires
        0 <= k < s.len(),
        base64_digit(s[k]) is None,
    ensures
        spec_base64_value(s) is None,
    decreases s.len(),
{
    if k < s.len() - 1 {
        assert(s.drop_last()[k] == s[k]);
        lemma_base64_value_none(s.drop_last(), k);
    }
}

proof fn lemma_base10_value_none(s: Seq<u8>, k: int)
    requires
        0 <= k < s.len(),
        base10_digit(s[k]) is None,
    ensures
        spec_base10_value(s) is None,
    decreases s.len(),
{
    if k < s.len() - 1 {
        assert(s.drop_last()[k] == s[k]);
        lemma_base10_value_none(s.drop_last(), k);
    }
}

/// `s` up to its first null byte, or all of `s` when it has none.
pub open spec fn spec_truncate_at_nul(s: Seq<u8>) -> Seq<u8> {
    match spec_find_byte(s, 0u8) {
        Some(i) => s.take(i),
        None => s,
    }
}

/// The base-10 reading of a single-slash name suffix: digits up to the first
/// null byte, which ends the scan early; `None` when a byte before it is not
/// a decimal digit.
pub open spec fn spec_base10_offset(s: Seq<u8>) -> Option<int> {
    spec_base10_value(spec_truncate_at_nul(s))
}

/// The decoded name of a section whose raw 8-byte name field is `name`,
/// against the string table bytes `strings`. A field that does not start
/// with `/` is its own name, truncated at the first null byte, and cannot
/// fail; `//` and `/` fields are offsets into the string table.
pub open spec fn spec_name(name: Seq<u8>, strings: Seq<u8>) -> Result<Seq<u8>, Error>
    recommends
        name.len() == 8,
{
    if name[0] != SLASH {
        Ok(spec_truncate_at_nul(name))
    } else if name[1] == SLASH {
        match spec_base64_value(name.skip(2)) {
            Some(off) => spec_strtab_get(strings, off as u64),
            None => Err(Error::InvalidBase64Name),
        }
    } else {
        match spec_base10_offset(name.skip(1)) {
            Some(off) => spec_strtab_get(strings, off as u64),
            None => Err(Error::InvalidBase10Name),
        }
    }
}

/// Short-name round trip: a name without null bytes that does not start with
/// `/`, padded with null bytes to the 8-byte field, decodes to exactly
/// itself, whatever the string table holds.
pub proof fn lemma_short_name_roundtrip(s: Seq<u8>, strings: Seq<u8>)
    requires
        1 <= s.len() <= 8,
        s[0] != SLASH,
        forall|i: int| 0 <= i < s.len() ==> s[i] != 0,
    ensures
        spec_name(s + Seq::new((8 - s.len()) as nat, |i: int| 0u8), strings) == Ok::<
            Seq<u8>,
            Error,
        >(s),
{
    let padded = s + Seq::new((8 - s.len()) as nat, |i: int| 0u8);
    lemma_find_byte(padded, 0u8);
    if s.len() < 8 {
        assert(padded[s.len() as int] == 0);
        assert(spec_find_byte(padded, 0u8) == Some(s.len() as int));
        assert(padded.take(s.len() as int) =~= s);
    } else {
        assert(padded =~= s);
        assert(spec_find_byte(padded, 0u8) is None);
    }
}

impl ImageSectionHeader {
    /// The raw name field truncated at its first null byte. Never fails and
    /// never touches the string table.
    pub fn raw_name(&self) -> (r: &[u8])
        ensures
            r@ == spec_truncate_at_nul(self.name@),
    {
        let bytes = self.name.as_slice();
        proof {
            lemma_find_byte(bytes@, 0u8);
        }
        match find_byte(bytes, 0) {
            Some(end) => {
                let r = slice_subrange(bytes, 0, end);
                proof {
                    let spec_end = spec_find_byte(bytes@, 0u8)->Some_0;
                    assert(spec_end == end);
                    assert(r@ =~= self.name@.take(end as int));
                }
                r
            },
            None => bytes,
        }
    }

    /// The decoded section name: the raw field for a short name, or the
    /// string-table entry a `/`-prefixed field points at.
    #[verifier::loop_isolation(false)]
    pub fn name<'a>(&'a self, strings: StringTable<'a>) -> (r: Result<&'a [u8], Error>)
        ensures
            r is Ok <==> spec_name(self.name@, strings.data@) is Ok,
            r is Ok ==> r->Ok_0@ == spec_name(self.name@, strings.data@)->Ok_0,
            r is Err ==> r->Err_0 == spec_name(self.name@, strings.data@)->Err_0,
    {
        if self.name[0] != SLASH {
            Ok(self.raw_name())
        } else if self.name[1] == SLASH {
            let ghost s = self.name@.skip(2);
            let mut offset: u64 = 0;
            let mut i: usize = 2;
            proof {
                assert(s.take(0) =~= Seq::<u8>::empty());
            }
            while i < 8
                invariant
                    2 <= i <= 8,
                    s == self.name@.skip(2),
                    s.len() == 6,
                    spec_base64_value(s.take(i - 2)) == Some(offset as int),
                    offset < pow_int(64, (i - 2) as nat),
                decreases 8 - i,
            {
                let b = self.name[i];
                let d: u64;
                if UPPER_A <= b && b <= UPPER_Z {
                    d = (b - UPPER_A) as u64;
                } else if LOWER_A <= b && b <= LOWER_Z {
                    d = (b - LOWER_A + 26) as u64;
                } else if DIGIT_0 <= b && b <= DIGIT_9 {
                    d = (b - DIGIT_0 + 52) as u64;
                } else if b == PLUS {
                    d = 62;
                } else if b == SLASH {
                    d = 63;
                } else {
                    proof {
                        assert(s[i - 2] == b);
                        lemma_base64_value_none(s, i - 2);
                    }
                    return Err(Error::InvalidBase64Name);
                }
                proof {
                    lemma_pow64_units();
                    lemma_pow_int_le(64, (i - 2) as nat, 5);
                    let t = s.take(i - 1);
                    assert(t.drop_last() =~= s.take(i - 2));
                    assert(t.last() == s[i - 2]);
                    assert(s[i - 2] == self.name@[i as int]);
                    assert(base64_digit(b) == Some(d as int));
                    assert(pow_int(64, (i - 1) as nat) == 64 * pow_int(64, (i - 2) as nat));
                }
                offset = offset * 64 + d;
                i = i + 1;
            }
            proof {
                assert(s.take(6) =~= s);
                lemma_pow64_units();
                assert((offset as int) as u64 == offset);
            }
            strings.get(offset)
        } else {
            let ghost s = self.name@.skip(1);
            let mut offset: u64 = 0;
            let mut i: usize = 1;
            proof {
                assert(s.take(0) =~= Seq::<u8>::empty());
            }
            while i < 8
                invariant
                    1 <= i <= 8,
                    s == self.name@.skip(1),
                    s.len() == 7,
                    spec_base10_value(s.take(i - 1)) == Some(offset as int),
                    forall|k: int| 0 <= k < i - 1 ==> s[k] != 0,
                    offset < pow_int(10, (i - 1) as nat),
                decreases 8 - i,
            {
                let b = self.name[i];
                proof {
                    assert(s[i - 1] == self.name@[i as int]);
                }
                if b == 0 {
                    proof {
                        lemma_find_byte(s, 0u8);
                        assert(spec_find_byte(s, 0u8) == Some(i - 1));
                        assert(spec_truncate_at_nul(s) == s.take(i - 1));
                    }
                    return strings.get(offset);
                }
                let d: u64;
                if DIGIT_0 <= b && b <= DIGIT_9 {
                    d = (b - DIGIT_0) as u64;
                } else {
                    proof {
                        lemma_find_byte(s, 0u8);
                        let t = spec_truncate_at_nul(s);
                        assert(i - 1 < t.len() && t[i - 1] == s[i - 1]);
                        lemma_base10_value_none(t, i - 1);
                    }
                    return Err(Error::InvalidBase10Name);
                }
                proof {
                    lemma_pow10_units();
                    lemma_pow_int_le(10, (i - 1) as nat, 6);
                    let t = s.take(i as int);
                    assert(t.drop_last() =~= s.take(i - 1));
                    assert(t.last() == s[i - 1]);
                    assert(base10_digit(b) == Some(d as int));
                    assert(pow_int(10, i as nat) == 10 * pow_int(10, (i - 1) as nat));
                }
                offset = offset * 10 + d;
                i = i + 1;
            }
            proof {
                lemma_find_byte(s, 0u8);
                assert(spec_find_byte(s, 0u8) is None);
                assert(s.take(7) =~= s);
                lemma_pow10_units();
                assert((offset as int) as u64 == offset);
            }
            strings.get(offset)
        }
    }
}

} // verus!
