//! Laying out a long text for display.

use vstd::prelude::*;

verus! {

/// Number of bytes of background text shown on one line.
pub const BACKGROUND_WIDTH: usize = 50;

/// The number of lines that a text of `len` bytes takes at `width` bytes a
/// line.
pub open spec fn line_count(len: nat, width: nat) -> nat {
    if len % width == 0 {
        len / width
    } else {
        len / width + 1
    }
}

/// The bytes of line `i`: from `i * width` up to the next multiple of the
/// width, or to the end of the text where that comes first.
pub open spec fn line_bounds(len: nat, width: nat, i: nat) -> (usize, usize) {
    (
        (i * width) as usize,
        if i * width + width <= len {
            (i * width + width) as usize
        } else {
            len as usize
        },
    )
}

/// Cuts a text of `len` bytes into lines of `width` bytes, the last one as
/// long as what is left. Each line is given by the offsets of its first byte
/// and of the byte after its last.
pub fn line_ranges(len: usize, width: usize) -> (lines: Vec<(usize, usize)>)
    requires
        width > 0,
    ensures
        lines.len() == line_count(len as nat, width as nat),
        forall|i: int|
            0 <= i < lines.len() ==> #[trigger] lines[i] == line_bounds(
                len as nat,
                width as nat,
                i as nat,
            ),
{
    let mut lines: Vec<(usize, usize)> = Vec::new();
    let mut start: usize = 0;
    assert(0 * width == 0) by (nonlinear_arith);
    while start < len
        invariant
            width > 0,
            start <= len,
            start == len ==> len == 0,
            start == lines.len() * width,
            forall|i: int|
                0 <= i < lines.len() ==> #[trigger] lines[i] == line_bounds(
                    len as nat,
                    width as nat,
                    i as nat,
                ),
        decreases len - start,
    {
        let end: usize = if len - start >= width {
            start + width
        } else {
            len
        };
        proof {
            assert((lines.len() + 1) * width == lines.len() * width + width) by (nonlinear_arith);
        }
        lines.push((start, end));
        if end == len {
            proof {
                lemma_line_count(len as nat, width as nat, lines.len() as nat);
            }
            return lines;
        }
        start = end;
    }
    proof {
        assert(len == 0);
        assert(lines.len() == 0) by (nonlinear_arith)
            requires
                lines.len() * width == 0,
                width > 0,
        ;
        assert(0nat % (width as nat) == 0 && 0nat / (width as nat) == 0) by (nonlinear_arith)
            requires
                width > 0,
        ;
    }
    lines
}

/// A text whose last line is line `count - 1` has `count` lines.
proof fn lemma_line_count(len: nat, width: nat, count: nat)
    requires
        width > 0,
        count >= 1,
        (count - 1) * width < len <= count * width,
    ensures
        line_count(len, width) == count,
{
    assert(line_count(len, width) == count) by (nonlinear_arith)
        requires
            width > 0,
            count >= 1,
            (count - 1) * width < len <= count * width,
            line_count(len, width) == (if len % width == 0 {
                len / width
            } else {
                len / width + 1
            }),
    ;
}

} // verus!
