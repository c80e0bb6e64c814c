use vstd::prelude::*;
use vstd::std_specs::iter::IteratorSpec;
use vstd::string::*;

use crate::error::VersionError;

verus! {

/// The UTF-16 code units of one character.
pub open spec fn utf16_char(c: char) -> Seq<u16> {
    let v = c as u32;
    if v < 0x1_0000 {
        seq![v as u16]
    } else {
        seq![
            (0xd800 + (v - 0x1_0000) / 0x400) as u16,
            (0xdc00 + (v - 0x1_0000) % 0x400) as u16,
        ]
    }
}

/// The UTF-16 code units of a character sequence.
pub open spec fn utf16(s: Seq<char>) -> Seq<u16>
    decreases s.len(),
{
    if s.len() == 0 {
        seq![]
    } else {
        utf16(s.drop_last()) + utf16_char(s.last())
    }
}

/// Whether `p` is the index of the first zero unit of `w`.
pub open spec fn first_zero_at(w: Seq<u16>, p: int) -> bool {
    &&& 0 <= p < w.len()
    &&& w[p] == 0
    &&& forall|j: int| 0 <= j < p ==> w[j] != 0
}

fn push_utf16(out: &mut Vec<u16>, c: char)
    ensures
        final(out)@ == old(out)@ + utf16_char(c),
{
    let v = c as u32;
    if v < 0x1_0000 {
        out.push(v as u16);
    } else {
        proof {
            assert(v <= 0x10ffff);
        }
        out.push((0xd800 + (v - 0x1_0000) / 0x400) as u16);
        out.push((0xdc00 + (v - 0x1_0000) % 0x400) as u16);
    }
    assert(out@ =~= old(out)@ + utf16_char(c));
}

/// The UTF-16 code units of `s`, without a terminator.
pub fn encode_utf16(s: &str) -> (w: Vec<u16>)
    ensures
        w@ == utf16(s@),
{
    let mut w: Vec<u16> = Vec::new();
    for c in it: s.chars()
        invariant
            it.seq() == s@,
            w@ == utf16(s@.take(it.index() as int)),
    {
        proof {
            let k = it.index() as int;
            assert(s@.take(k + 1).drop_last() =~= s@.take(k));
        }
        push_utf16(&mut w, c);
    }
    assert(s@.take(s@.len() as int) =~= s@);
    w
}

/// Converts a path into the NUL-terminated wide form that the system's
/// version calls take. A path holding a NUL character is refused, with the
/// index of the first zero code unit.
pub fn to_wide_string(path: &str) -> (r: Result<Vec<u16>, VersionError>)
    ensures
        r is Ok <==> forall|j: int| 0 <= j < utf16(path@).len() ==> utf16(path@)[j] != 0,
        r is Ok ==> r.unwrap()@ == utf16(path@).push(0),
        r is Err ==> exists|p: usize|
            first_zero_at(utf16(path@), p as int) && r.unwrap_err() == (
            VersionError::EncodingError { position: p }),
{
    let mut w = encode_utf16(path);
    let n = w.len();
    let mut i: usize = 0;
    while i < n
        invariant
            n == w@.len(),
            w@ == utf16(path@),
            i <= n,
            forall|j: int| 0 <= j < i ==> w@[j] != 0,
        decreases n - i,
    {
        if w[i] == 0 {
            assert(first_zero_at(utf16(path@), i as int));
            return Err(VersionError::EncodingError { position: i });
        }
        i = i + 1;
    }
    w.push(0);
    Ok(w)
}

} // verus!
