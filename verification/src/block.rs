use vstd::prelude::*;
use crate::context::{ContextSpec, before_start, after_end, resolve_context};
use crate::document::Document;

verus! {

/// One document line together with its 0-based document index (never a
/// block-relative offset).
pub struct IndexedLine {
    pub index: usize,
    pub text: String,
}

/// The unit of output for one match `m`: the clamped before-context, the
/// matched line itself, and the clamped after-context, each line carrying
/// its document index, in ascending index order.
pub struct ResultBlock {
    pub before_lines: Vec<IndexedLine>,
    pub match_line: IndexedLine,
    pub after_lines: Vec<IndexedLine>,
}

/// `b` is exactly the result block for a match at `m` in `doc` under a
/// context of `before` preceding and `after` following lines: the
/// before-window covers `[max(0, m - before), m)`, the after-window
/// `[m + 1, min(len, m + 1 + after))`, and every line's text and index
/// are taken unchanged from the document.
pub open spec fn block_wf(
    b: ResultBlock,
    doc: Seq<Seq<char>>,
    m: int,
    before: int,
    after: int,
) -> bool {
    let bs = before_start(m, before);
    let ae = after_end(m, after, doc.len() as int);
    &&& b.before_lines@.len() == m - bs
    &&& (forall|k: int|
        0 <= k < m - bs ==> (#[trigger] b.before_lines@[k]).index == bs + k
            && b.before_lines@[k].text@ == doc[bs + k])
    &&& b.match_line.index == m
    &&& b.match_line.text@ == doc[m]
    &&& b.after_lines@.len() == ae - (m + 1)
    &&& (forall|k: int|
        0 <= k < ae - (m + 1) ==> (#[trigger] b.after_lines@[k]).index == m + 1 + k
            && b.after_lines@[k].text@ == doc[m + 1 + k])
}

/// Slices the buffered document to build the result block for the match
/// at `m`, clamping both context windows against the document bounds.
pub fn build_block(doc: &Document, m: usize, ctx: &ContextSpec) -> (b: ResultBlock)
    requires
        m < doc@.len(),
    ensures
        block_wf(b, doc@, m as int, ctx.before as int, ctx.after as int),
{
    let w = resolve_context(m, doc.len(), ctx);

    let mut before_lines: Vec<IndexedLine> = Vec::new();
    let mut i: usize = w.before_start;
    while i < m
        invariant
            w.before_start <= i <= m,
            m < doc@.len(),
            before_lines@.len() == i - w.before_start,
            forall|k: int|
                0 <= k < before_lines@.len() ==> (#[trigger] before_lines@[k]).index
                    == w.before_start + k && before_lines@[k].text@ == doc@[w.before_start + k],
        decreases m - i,
    {
        before_lines.push(IndexedLine { index: i, text: doc.line(i).clone() });
        i = i + 1;
    }

    let match_line = IndexedLine { index: m, text: doc.line(m).clone() };

    let mut after_lines: Vec<IndexedLine> = Vec::new();
    let mut j: usize = m + 1;
    while j < w.after_end
        invariant
            m + 1 <= j <= w.after_end,
            w.after_end <= doc@.len(),
            after_lines@.len() == j - (m + 1),
            forall|k: int|
                0 <= k < after_lines@.len() ==> (#[trigger] after_lines@[k]).index == m + 1 + k
                    && after_lines@[k].text@ == doc@[m + 1 + k],
        decreases w.after_end - j,
    {
        after_lines.push(IndexedLine { index: j, text: doc.line(j).clone() });
        j = j + 1;
    }

    ResultBlock { before_lines, match_line, after_lines }
}

} // verus!
