//! Caret positions within text: line/column derivation and the line-move
//! reordering step.
//!
//! The host owns the text itself; these functions compute what the
//! coordination layer decides from it — the 1-based line and column shown in
//! the status bar, the swap that moves a line up or down, and where the
//! caret lands afterwards.
use vstd::prelude::*;
use vstd::string::StrSliceExecFns;

verus! {

/// The 1-based (line, column) of the character position `p` in `s`: a
/// newline starts the next line at column one, every other character
/// advances the column.
pub open spec fn spec_line_col(s: Seq<char>, p: int) -> (int, int)
    decreases p,
{
    if p <= 0 {
        (1, 1)
    } else {
        let prev = spec_line_col(s, p - 1);
        if s[p - 1] == '\n' {
            (prev.0 + 1, 1)
        } else {
            (prev.0, prev.1 + 1)
        }
    }
}

/// The line and column of caret position `pos` in `text`, 1-based; a
/// position beyond the end counts as the end.
pub fn line_col_of_pos(text: &str, pos: usize) -> (r: (u64, u64))
    requires
        text@.len() < u64::MAX,
    ensures
        ({
            let p = if pos <= text@.len() {
                pos as int
            } else {
                text@.len() as int
            };
            (r.0 as int, r.1 as int) == spec_line_col(text@, p)
        }),
{
    let n = text.unicode_len();
    let stop = if pos < n {
        pos
    } else {
        n
    };
    let mut line: u64 = 1;
    let mut col: u64 = 1;
    let mut i: usize = 0;
    while i < stop
        invariant
            i <= stop <= n,
            n == text@.len(),
            n < u64::MAX,
            (line as int, col as int) == spec_line_col(text@, i as int),
            line <= i + 1,
            col <= i + 1,
        decreases stop - i,
    {
        if text.get_char(i) == '\n' {
            line = line + 1;
            col = 1;
        } else {
            col = col + 1;
        }
        i += 1;
    }
    (line, col)
}

/// Swap the line at `idx` with the one after it.  One such swap moves a
/// line down; a swap at `idx - 1` moves it up.
pub fn swap_with_next_line(lines: &mut Vec<String>, idx: usize)
    requires
        idx + 1 < old(lines)@.len(),
    ensures
        final(lines)@ == old(lines)@.update(idx as int, old(lines)@[idx as int + 1]).update(
            idx as int + 1,
            old(lines)@[idx as int],
        ),
{
    let n = lines.len();
    proof {
        assert(idx + 1 < n);
    }
    let moved = lines.remove(idx);
    lines.insert(idx + 1, moved);
    proof {
        assert(lines@ =~= old(lines)@.update(idx as int, old(lines)@[idx as int + 1]).update(
            idx as int + 1,
            old(lines)@[idx as int],
        ));
    }
}

/// Swapping the same pair of neighbours twice restores the lines.
pub proof fn lemma_swap_involution(ls: Seq<String>, idx: int)
    requires
        0 <= idx,
        idx + 1 < ls.len(),
    ensures
        ({
            let once = ls.update(idx, ls[idx + 1]).update(idx + 1, ls[idx]);
            once.update(idx, once[idx + 1]).update(idx + 1, once[idx]) =~= ls
        }),
{
}

/// The character position at which line `idx` starts, counting each earlier
/// line plus its newline; saturating at the top of `u64`.
pub open spec fn spec_line_start(ls: Seq<String>, idx: int) -> int
    decreases idx,
{
    if idx <= 0 {
        0
    } else {
        spec_line_start(ls, idx - 1) + ls[idx - 1]@.len() + 1
    }
}

/// Where the caret lands after its line moved to `target_idx`: the start of
/// that line plus the old column, clamped to the line's length.  Saturates
/// at the top of `u64` for absurdly long texts.
pub fn caret_pos_after_move(lines: &Vec<String>, target_idx: usize, col: u64) -> (r: u64)
    requires
        target_idx < lines@.len(),
    ensures
        ({
            let clamped_col = if col <= lines@[target_idx as int]@.len() {
                col as int
            } else {
                lines@[target_idx as int]@.len() as int
            };
            let exact = spec_line_start(lines@, target_idx as int) + clamped_col;
            r as int == (if exact <= u64::MAX {
                exact
            } else {
                u64::MAX as int
            })
        }),
{
    let mut acc: u64 = 0;
    let mut i: usize = 0;
    while i < target_idx
        invariant
            i <= target_idx < lines@.len(),
            acc as int == (if spec_line_start(lines@, i as int) <= u64::MAX {
                spec_line_start(lines@, i as int)
            } else {
                u64::MAX as int
            }),
        decreases target_idx - i,
    {
        let step = lines[i].as_str().unicode_len();
        proof {
            lemma_line_start_mono(lines@, i as int);
        }
        if step as u64 <= u64::MAX - 1 && acc <= u64::MAX - 1 - step as u64 {
            acc = acc + step as u64 + 1;
        } else {
            acc = u64::MAX;
        }
        i += 1;
    }
    let line_len = lines[target_idx].as_str().unicode_len();
    let clamped: u64 = if col <= line_len as u64 {
        col
    } else {
        line_len as u64
    };
    if acc <= u64::MAX - clamped {
        acc + clamped
    } else {
        u64::MAX
    }
}

/// Line starts never decrease as the index grows.
proof fn lemma_line_start_mono(ls: Seq<String>, idx: int)
    requires
        0 <= idx,
    ensures
        spec_line_start(ls, idx + 1) >= spec_line_start(ls, idx) + 1,
{
}

} // verus!
