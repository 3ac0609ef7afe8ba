use vstd::prelude::*;

verus! {

/// How many context lines to show before and after each matched line.
/// Supplied once at engine construction and immutable thereafter.
pub struct ContextSpec {
    pub before: usize,
    pub after: usize,
}

/// First index of the before-window for a match at `m`, clamped at the
/// start of the document.
pub open spec fn before_start(m: int, before: int) -> int {
    if m - before >= 0 {
        m - before
    } else {
        0
    }
}

/// One past the last index of the after-window for a match at `m` in a
/// document of `len` lines, clamped at the end of the document.
pub open spec fn after_end(m: int, after: int, len: int) -> int {
    if m + 1 + after <= len {
        m + 1 + after
    } else {
        len
    }
}

/// The resolved, clamped context ranges for one match: the before-window
/// is `[before_start, match_index)` and the after-window is
/// `[match_index + 1, after_end)`. Both ranges are always well-formed.
pub struct ContextWindow {
    pub before_start: usize,
    pub match_index: usize,
    pub after_end: usize,
}

/// Computes the clamped before/after index ranges for a match at `m`
/// against a document of `len` lines. Pure: no side effects, total on
/// every valid match index.
pub fn resolve_context(m: usize, len: usize, ctx: &ContextSpec) -> (w: ContextWindow)
    requires
        m < len,
    ensures
        w.match_index == m,
        w.before_start == before_start(m as int, ctx.before as int),
        w.after_end == after_end(m as int, ctx.after as int, len as int),
        w.before_start <= m,
        m < w.after_end <= len,
        // The before-range has exactly min(before, m) lines.
        m - w.before_start == if ctx.before <= m { ctx.before as int } else { m as int },
        // The after-range has exactly min(after, len - 1 - m) lines.
        w.after_end - (m + 1) == if ctx.after <= len - 1 - m { ctx.after as int } else { len - 1 - m },
        // A match on the first line has an empty before-range.
        m == 0 ==> w.before_start == m,
        // A match on the last line has an empty after-range.
        m == len - 1 ==> w.after_end == m + 1,
{
    let bs = if m >= ctx.before {
        m - ctx.before
    } else {
        0
    };
    let remaining = len - m - 1;
    let ae = if ctx.after <= remaining {
        m + 1 + ctx.after
    } else {
        len
    };
    ContextWindow { before_start: bs, match_index: m, after_end: ae }
}

} // verus!
