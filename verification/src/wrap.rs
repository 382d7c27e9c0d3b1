//! The line-break rule of the word-wrapper.
//!
//! The host measures how many bytes fit on a line (font metrics, live
//! region width) and hands the measurement here; this module owns the
//! decision: where the current line ends, given the text length, the
//! byte positions of its word boundaries, the current position and the
//! line's capacity.

use vstd::prelude::*;

verus! {

/// The first index into `boundaries`, scanning from `k`, whose boundary
/// lies strictly past `limit`.
pub open spec fn first_boundary_past(boundaries: Seq<usize>, limit: int, k: int) -> Option<int>
    decreases boundaries.len() - k,
{
    if k < 0 || k >= boundaries.len() {
        None
    } else if boundaries[k] > limit {
        Some(k)
    } else {
        first_boundary_past(boundaries, limit, k + 1)
    }
}

/// Where the line starting at `fpos` ends: at the line's capacity (or
/// the text's end, whichever comes first), pulled back to just after the
/// last word boundary before the first boundary past that point — unless
/// the very first boundary already lies past it, in which case the line
/// breaks mid-word at the capacity.
pub open spec fn next_break_spec(
    text_len: int,
    fpos: int,
    line_len: int,
    boundaries: Seq<usize>,
) -> int {
    let limit = if fpos + line_len <= text_len {
        fpos + line_len
    } else {
        text_len
    };
    match first_boundary_past(boundaries, limit, 0) {
        Some(bi) => if bi > 0 {
            boundaries[bi - 1] + 1
        } else {
            limit
        },
        None => limit,
    }
}

/// Compute the end of the current line.
pub fn next_break(text_len: usize, fpos: usize, line_len: usize, boundaries: &Vec<usize>) -> (end:
    usize)
    requires
        fpos + line_len <= usize::MAX,
        forall|j: int| 0 <= j < boundaries@.len() ==> boundaries@[j] < text_len,
    ensures
        end == next_break_spec(text_len as int, fpos as int, line_len as int, boundaries@),
        end <= text_len,
{
    let limit = if fpos + line_len <= text_len {
        fpos + line_len
    } else {
        text_len
    };
    let mut k: usize = 0;
    while k < boundaries.len() && boundaries[k] <= limit
        invariant
            k <= boundaries@.len(),
            first_boundary_past(boundaries@, limit as int, 0) == first_boundary_past(
                boundaries@,
                limit as int,
                k as int,
            ),
        decreases boundaries@.len() - k,
    {
        k = k + 1;
    }
    if k < boundaries.len() && k > 0 {
        boundaries[k - 1] + 1
    } else {
        limit
    }
}

} // verus!
