use vstd::prelude::*;

use crate::error::ExtractError;
use crate::tree::SourceRange;

verus! {

/// Whether `range` delimits a span of a source text of `len` bytes.
pub open spec fn range_fits(range: SourceRange, len: int) -> bool {
    range.begin.offset <= range.end.offset && range.end.offset <= len
}

/// The bytes of `source` that `range` covers, if it delimits a span of it.
pub open spec fn range_slice(source: Seq<u8>, range: SourceRange) -> Option<Seq<u8>> {
    if range_fits(range, source.len() as int) {
        Some(source.subrange(range.begin.offset as int, range.end.offset as int))
    } else {
        None
    }
}

/// Copies out the bytes of `source` from `range.begin.offset` up to, not
/// including, `range.end.offset`, unchanged.
pub fn resolve(source: &[u8], range: &SourceRange) -> (r: Result<Vec<u8>, ExtractError>)
    ensures
        match r {
            Ok(text) => range_slice(source@, *range) == Some(text@),
            Err(e) => e == ExtractError::RangeOutOfBounds && range_slice(source@, *range) is None,
        },
{
    let begin = range.begin.offset;
    let end = range.end.offset;
    if begin > end || end > source.len() {
        return Err(ExtractError::RangeOutOfBounds);
    }
    let mut text: Vec<u8> = Vec::new();
    let mut i: usize = begin;
    while i < end
        invariant
            begin <= i <= end <= source@.len(),
            text@ == source@.subrange(begin as int, i as int),
        decreases end - i,
    {
        text.push(source[i]);
        i = i + 1;
    }
    Ok(text)
}

} // verus!
