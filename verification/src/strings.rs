//! String helpers: truncating a line at a byte position without splitting a
//! character, used when long matched lines are shortened for display.

use vstd::prelude::*;
use vstd::string::StringSliceAdditionalSpecFns;

verus! {

broadcast use vstd::utf8::encode_utf8_valid_utf8, vstd::utf8::is_char_boundary_start_end_of_seq;

/// The largest character-boundary index at or below `index` (zero for a
/// non-positive index: the start of the text is always a boundary).
pub open spec fn spec_boundary_at(bytes: Seq<u8>, index: int) -> int
    decreases index,
{
    if index <= 0 {
        0
    } else if vstd::utf8::is_char_boundary(bytes, index) {
        index
    } else {
        spec_boundary_at(bytes, index - 1)
    }
}

/// Where the truncation cuts: the largest byte index that starts a character
/// and lies at or below `byte_index` — capped one byte short of the end, so
/// that on an in-range index the character at the index itself is cut off
/// rather than kept, and zero on empty text.
pub open spec fn spec_slice_boundary(bytes: Seq<u8>, byte_index: int, byte_len: int) -> int {
    if byte_len == 0 {
        0
    } else {
        spec_boundary_at(
            bytes,
            if byte_index < byte_len {
                byte_index
            } else {
                byte_len - 1
            },
        )
    }
}

/// Truncate `s` near byte position `byte_index` without splitting a
/// character: keep the bytes before the last character that starts at or
/// below the position.
pub fn slice_at_char_boundary(s: &str, byte_index: usize) -> (r: &str)
    ensures
        r.spec_bytes() == s.spec_bytes().subrange(
            0,
            spec_slice_boundary(s.spec_bytes(), byte_index as int, s.len() as int),
        ),
{
    let ghost bytes = s.spec_bytes();
    let len = s.len();
    if len == 0 {
        let (prefix, _) = s.split_at(0);
        proof {
            assert(prefix.spec_bytes() =~= bytes.subrange(0, 0));
        }
        return prefix;
    }
    let ghost target = if byte_index < len {
        byte_index as int
    } else {
        len - 1
    };
    let mut i: usize = if byte_index < len {
        byte_index
    } else {
        len - 1
    };
    while !s.is_char_boundary(i)
        invariant
            bytes == s.spec_bytes(),
            0 <= i <= target,
            vstd::utf8::valid_utf8(bytes),
            spec_boundary_at(bytes, target) == spec_boundary_at(bytes, i as int),
        decreases i,
    {
        i = i - 1;
    }
    proof {
        assert(spec_boundary_at(bytes, i as int) == i as int);
    }
    let (prefix, _) = s.split_at(i);
    proof {
        assert(prefix.spec_bytes() =~= bytes.subrange(0, i as int));
    }
    prefix
}

} // verus!
