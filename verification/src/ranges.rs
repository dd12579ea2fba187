//! Parsing of `min..max` range arguments.
//!
//! A range argument is two decimal numbers joined by a single `..`. Each
//! side must parse as a 32-bit unsigned integer (an optional leading `+`
//! is accepted, as the standard parser does); a missing or repeated `..`
//! is a format error. The parser works over the argument's UTF-8 bytes.

use vstd::prelude::*;

use core::ops::Range;

verus! {

/// Why a range argument was rejected.
#[derive(Debug, Clone, Copy, PartialEq, Eq, Structural)]
pub enum RangeParseError {
    /// Not exactly two parts joined by `..`.
    InvalidFormat,
    /// The part before `..` is not a 32-bit unsigned integer.
    InvalidStart,
    /// The part after `..` is not a 32-bit unsigned integer.
    InvalidEnd,
}

/// An ASCII decimal digit.
pub open spec fn is_ascii_digit_byte(b: u8) -> bool {
    48 <= b <= 57
}

/// Every byte an ASCII decimal digit.
pub open spec fn all_digits(s: Seq<u8>) -> bool {
    forall|i: int| 0 <= i < s.len() ==> is_ascii_digit_byte(s[i])
}

/// The number a digit string denotes, most significant digit first.
pub open spec fn dec_value(s: Seq<u8>) -> nat
    decreases s.len(),
{
    if s.len() == 0 {
        0
    } else {
        dec_value(s.drop_last()) * 10 + (s.last() - 48) as nat
    }
}

/// The digits of a number: the bytes with any single leading `+` sign
/// removed.
pub open spec fn digits_of(s: Seq<u8>) -> Seq<u8> {
    if s.len() > 0 && s[0] == 43 {
        s.drop_first()
    } else {
        s
    }
}

/// A byte string the standard `u32` parser accepts: an optional `+`
/// sign, then at least one digit, denoting a value that fits.
pub open spec fn valid_u32_bytes(s: Seq<u8>) -> bool {
    &&& digits_of(s).len() > 0
    &&& all_digits(digits_of(s))
    &&& dec_value(digits_of(s)) <= u32::MAX
}

/// The value a valid byte string denotes.
pub open spec fn u32_value_of(s: Seq<u8>) -> nat {
    dec_value(digits_of(s))
}

/// The position of the first `..` at or after `from`, scanning left to
/// right.
pub open spec fn find_dotdot(s: Seq<u8>, from: int) -> Option<int>
    decreases s.len() - from,
{
    if from < 0 || from + 2 > s.len() {
        None
    } else if s[from] == 46 && s[from + 1] == 46 {
        Some(from)
    } else {
        find_dotdot(s, from + 1)
    }
}

/// The result `parse_range` owes for an argument with these bytes: split
/// at the first `..`, reject a second `..` in the remainder, then parse
/// the two sides.
pub open spec fn spec_parse_range(bytes: Seq<u8>) -> Result<Range<u32>, RangeParseError> {
    match find_dotdot(bytes, 0) {
        None => Err(RangeParseError::InvalidFormat),
        Some(f) => {
            let a = bytes.subrange(0, f);
            let b = bytes.subrange(f + 2, bytes.len() as int);
            if find_dotdot(b, 0) is Some {
                Err(RangeParseError::InvalidFormat)
            } else if !valid_u32_bytes(a) {
                Err(RangeParseError::InvalidStart)
            } else if !valid_u32_bytes(b) {
                Err(RangeParseError::InvalidEnd)
            } else {
                Ok(Range { start: u32_value_of(a) as u32, end: u32_value_of(b) as u32 })
            }
        },
    }
}

/// A digit string never denotes less than any of its prefixes.
proof fn lemma_dec_value_prefix(t: Seq<u8>, n: int)
    requires
        0 <= n <= t.len(),
    ensures
        dec_value(t.subrange(0, n)) <= dec_value(t),
    decreases t.len(),
{
    if n == t.len() {
        assert(t.subrange(0, n) =~= t);
    } else {
        lemma_dec_value_prefix(t.drop_last(), n);
        assert(t.drop_last().subrange(0, n) =~= t.subrange(0, n));
    }
}

/// Parses the window `[from, to)` of `s` as the standard `u32` parser
/// would: `None` exactly where that parser fails on those bytes.
fn parse_u32_window(s: &[u8], from: usize, to: usize) -> (r: Option<u32>)
    requires
        from <= to <= s@.len(),
    ensures
        r is Some <==> valid_u32_bytes(s@.subrange(from as int, to as int)),
        r matches Some(v) ==> v as nat == u32_value_of(s@.subrange(from as int, to as int)),
{
    let ghost w = s@.subrange(from as int, to as int);
    let ghost ds = digits_of(w);

    let mut start: usize = from;
    if to > from && *vstd::slice::slice_index_get(s, from) == 43 {
        start = from + 1;
    }
    proof {
        assert(ds =~= s@.subrange(start as int, to as int));
    }
    if start == to {
        return None;
    }

    let mut acc: u64 = 0;
    let mut i: usize = start;
    while i < to
        invariant
            from <= start <= i <= to <= s@.len(),
            ds == s@.subrange(start as int, to as int),
            ds == digits_of(s@.subrange(from as int, to as int)),
            forall|k: int| start <= k < i ==> is_ascii_digit_byte(s@[k]),
            acc == dec_value(s@.subrange(start as int, i as int)),
            acc <= u32::MAX,
        decreases to - i,
    {
        let b = *vstd::slice::slice_index_get(s, i);
        if b < 48 || b > 57 {
            proof {
                assert(ds[i - start as int] == s@[i as int]);
            }
            return None;
        }
        proof {
            assert(s@.subrange(start as int, i + 1 as int).drop_last() =~= s@.subrange(
                start as int,
                i as int,
            ));
            assert(s@.subrange(start as int, i + 1 as int).last() == s@[i as int]);
        }
        acc = acc * 10 + (b - 48) as u64;
        i += 1;
        if acc > 0xffff_ffffu64 {
            proof {
                lemma_dec_value_prefix(ds, i - start as int);
                assert(ds.subrange(0, i - start as int) =~= s@.subrange(
                    start as int,
                    i as int,
                ));
            }
            return None;
        }
    }
    proof {
        assert(ds =~= s@.subrange(start as int, i as int));
        assert(forall|k: int| 0 <= k < ds.len() ==> ds[k] == s@[start as int + k]);
    }
    Some(acc as u32)
}

/// Parses a `min..max` argument, saying exactly why it is rejected: no
/// single `..` separator, or a side that is not a `u32`.
pub fn parse_range(s: &str) -> (r: Result<Range<u32>, RangeParseError>)
    ensures
        r == spec_parse_range(vstd::utf8::encode_utf8(s@)),
{
    let bytes = s.as_bytes();
    let len = bytes.len();

    // Find the first `..`.
    let mut f: usize = 0;
    let mut found = false;
    while !found && f < len && f + 1 < len
        invariant
            0 <= f <= len,
            len == bytes@.len(),
            !found ==> find_dotdot(bytes@, 0) == find_dotdot(bytes@, f as int),
            found ==> find_dotdot(bytes@, 0) == Some(f as int) && f + 2 <= len,
        decreases len - f, (if found { 0int } else { 1int }),
    {
        if *vstd::slice::slice_index_get(bytes, f) == 46 && *vstd::slice::slice_index_get(
            bytes,
            f + 1,
        ) == 46 {
            found = true;
        } else {
            f = f + 1;
        }
    }
    if !found {
        return Err(RangeParseError::InvalidFormat);
    }

    let ghost rem = bytes@.subrange(f + 2 as int, len as int);

    // Reject a second `..` anywhere in the remainder.
    let mut k: usize = f + 2;
    while k < len && k + 1 < len
        invariant
            f + 2 <= k <= len,
            len == bytes@.len(),
            f + 2 <= len,
            bytes@ == vstd::utf8::encode_utf8(s@),
            find_dotdot(bytes@, 0) == Some(f as int),
            rem == bytes@.subrange(f + 2 as int, len as int),
            find_dotdot(rem, 0) == find_dotdot(rem, k - (f + 2 as int)),
        decreases len - k,
    {
        if *vstd::slice::slice_index_get(bytes, k) == 46 && *vstd::slice::slice_index_get(
            bytes,
            k + 1,
        ) == 46 {
            proof {
                assert(rem[k - (f + 2 as int)] == bytes@[k as int]);
                assert(rem[k - (f + 2 as int) + 1] == bytes@[k + 1 as int]);
            }
            return Err(RangeParseError::InvalidFormat);
        }
        k = k + 1;
    }

    let start = match parse_u32_window(bytes, 0, f) {
        Some(v) => v,
        None => {
            return Err(RangeParseError::InvalidStart);
        },
    };
    let end = match parse_u32_window(bytes, f + 2, len) {
        Some(v) => v,
        None => {
            return Err(RangeParseError::InvalidEnd);
        },
    };

    Ok(start..end)
}

} // verus!
