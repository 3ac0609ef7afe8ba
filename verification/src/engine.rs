use vstd::prelude::*;
use crate::block::{IndexedLine, ResultBlock, block_wf, build_block};
use crate::context::{ContextSpec, before_start, after_end};
use crate::document::Document;
use crate::errors::GrepError;
use crate::matcher::{match_indices, find_matches, lemma_match_set_properties};
use crate::pattern::{Pattern, regex_ok};
use crate::render::{
    rendered_line, rendered_indexed, rendered_block, rendered_blocks_up_to, render_output,
};

verus! {

/// Scans the whole document and builds one result block per match, in
/// ascending match order. Overlapping context windows of adjacent matches
/// are each emitted in full, with no de-duplication.
pub fn run(doc: &Document, pat: &Pattern, ctx: &ContextSpec) -> (blocks: Vec<ResultBlock>)
    ensures
        blocks@.len() == match_indices(doc@, pat@).len(),
        forall|k: int|
            0 <= k < blocks@.len() ==> block_wf(
                #[trigger] blocks@[k],
                doc@,
                match_indices(doc@, pat@)[k],
                ctx.before as int,
                ctx.after as int,
            ),
{
    let markers = find_matches(doc, pat);
    proof {
        lemma_match_set_properties(doc@, pat@);
    }
    let n = markers.len();
    let mut blocks: Vec<ResultBlock> = Vec::new();
    let mut i: usize = 0;
    while i < n
        invariant
            i <= n,
            n == markers@.len(),
            markers@.map_values(|m: usize| m as int) == match_indices(doc@, pat@),
            forall|k: int|
                0 <= k < markers@.len() ==> 0 <= #[trigger] match_indices(doc@, pat@)[k]
                    < doc@.len(),
            blocks@.len() == i,
            forall|k: int|
                0 <= k < i ==> block_wf(
                    #[trigger] blocks@[k],
                    doc@,
                    match_indices(doc@, pat@)[k],
                    ctx.before as int,
                    ctx.after as int,
                ),
        decreases n - i,
    {
        proof {
            assert(markers@[i as int] as int == match_indices(doc@, pat@)[i as int]);
        }
        let b = build_block(doc, markers[i], ctx);
        blocks.push(b);
        i = i + 1;
    }
    blocks
}

/// The rendering of the result block for a match at `m`, as a function of
/// the document and the context spec alone.
pub open spec fn rendered_match(doc: Seq<Seq<char>>, m: int, before: int, after: int) -> Seq<
    Seq<char>,
> {
    let bs = before_start(m, before);
    let ae = after_end(m, after, doc.len() as int);
    Seq::new((m - bs) as nat, |k: int| rendered_line(false, bs + k, doc[bs + k])) + seq![
        rendered_line(true, m, doc[m]),
    ] + Seq::new((ae - (m + 1)) as nat, |k: int| rendered_line(false, m + 1 + k, doc[m + 1 + k]))
        + seq![Seq::<char>::empty()]
}

/// The rendering of the blocks for the first `n` matches of `doc`.
pub open spec fn grep_output_up_to(
    doc: Seq<Seq<char>>,
    pat: Seq<char>,
    before: int,
    after: int,
    n: int,
) -> Seq<Seq<char>>
    decreases n,
{
    if n <= 0 {
        Seq::empty()
    } else {
        grep_output_up_to(doc, pat, before, after, n - 1) + rendered_match(
            doc,
            match_indices(doc, pat)[n - 1],
            before,
            after,
        )
    }
}

/// The entire rendered output of a run: one rendered block per match, in
/// ascending match order. A function of the document, the pattern text and
/// the context spec alone.
pub open spec fn grep_output(doc: Seq<Seq<char>>, pat: Seq<char>, before: int, after: int) -> Seq<
    Seq<char>,
> {
    grep_output_up_to(doc, pat, before, after, match_indices(doc, pat).len() as int)
}

/// A well-formed block for a match at `m` renders to exactly the rendered
/// block that the document itself determines.
proof fn lemma_block_render(b: ResultBlock, doc: Seq<Seq<char>>, m: int, before: int, after: int)
    requires
        block_wf(b, doc, m, before, after),
    ensures
        rendered_block(b) == rendered_match(doc, m, before, after),
{
    let bs = before_start(m, before);
    let ae = after_end(m, after, doc.len() as int);
    assert(b.before_lines@.map_values(|l: IndexedLine| rendered_indexed(false, l)) =~= Seq::new(
        (m - bs) as nat,
        |k: int| rendered_line(false, bs + k, doc[bs + k]),
    ));
    assert(b.after_lines@.map_values(|l: IndexedLine| rendered_indexed(false, l)) =~= Seq::new(
        (ae - (m + 1)) as nat,
        |k: int| rendered_line(false, m + 1 + k, doc[m + 1 + k]),
    ));
    assert(rendered_block(b) =~= rendered_match(doc, m, before, after));
}

proof fn lemma_blocks_render(
    blocks: Seq<ResultBlock>,
    doc: Seq<Seq<char>>,
    pat: Seq<char>,
    before: int,
    after: int,
    n: int,
)
    requires
        0 <= n <= blocks.len(),
        blocks.len() == match_indices(doc, pat).len(),
        forall|k: int|
            0 <= k < blocks.len() ==> block_wf(
                #[trigger] blocks[k],
                doc,
                match_indices(doc, pat)[k],
                before,
                after,
            ),
    ensures
        rendered_blocks_up_to(blocks, n) == grep_output_up_to(doc, pat, before, after, n),
    decreases n,
{
    if n > 0 {
        lemma_blocks_render(blocks, doc, pat, before, after, n - 1);
        lemma_block_render(blocks[n - 1], doc, match_indices(doc, pat)[n - 1], before, after);
    }
}

/// Applies the pattern to a loaded document and renders every result
/// block: the complete engine behind a caller that does the reading and
/// the printing. Zero matches give an empty output, a successful run.
pub fn grep_document(doc: &Document, pat: &Pattern, ctx: &ContextSpec) -> (out: Vec<String>)
    ensures
        out@.map_values(|s: String| s@) == grep_output(
            doc@,
            pat@,
            ctx.before as int,
            ctx.after as int,
        ),
{
    let blocks = run(doc, pat, ctx);
    let out = render_output(&blocks);
    proof {
        lemma_blocks_render(
            blocks@,
            doc@,
            pat@,
            ctx.before as int,
            ctx.after as int,
            blocks@.len() as int,
        );
    }
    out
}

/// One-call front door: compiles the pattern text, loads the lines as a
/// document, and returns the rendered output; fails exactly when the
/// pattern text is not a valid pattern.
pub fn grep_lines(lines: Vec<String>, pattern: &str, ctx: &ContextSpec) -> (r: Result<
    Vec<String>,
    GrepError,
>)
    ensures
        r is Ok <==> regex_ok(pattern@),
        r matches Ok(out) ==> out@.map_values(|s: String| s@) == grep_output(
            lines@.map_values(|s: String| s@),
            pattern@,
            ctx.before as int,
            ctx.after as int,
        ),
        r matches Err(e) ==> e == GrepError::PatternError,
{
    let pat = match Pattern::compile(pattern) {
        Ok(p) => p,
        Err(e) => {
            return Err(e);
        },
    };
    let doc = Document::from_lines(lines);
    proof {
        assert(doc@ =~= lines@.map_values(|s: String| s@));
    }
    Ok(grep_document(&doc, &pat, ctx))
}

/// Idempotence: the rendered output is a function of the document, the
/// pattern text and the context spec alone, so two runs of the engine on
/// the same inputs agree line for line and byte for byte.
pub proof fn lemma_grep_deterministic(
    out1: Seq<Seq<char>>,
    out2: Seq<Seq<char>>,
    doc: Seq<Seq<char>>,
    pat: Seq<char>,
    before: int,
    after: int,
)
    requires
        out1 == grep_output(doc, pat, before, after),
        out2 == grep_output(doc, pat, before, after),
    ensures
        out1 == out2,
{
}

} // verus!
