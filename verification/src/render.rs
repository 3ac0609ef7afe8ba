use vstd::prelude::*;
use vstd::string::StringExecFns;
use crate::block::{IndexedLine, ResultBlock};

verus! {

/// The decimal digit character for `d` in `0..10`.
pub open spec fn digit_char(d: int) -> char {
    if d == 0 {
        '0'
    } else if d == 1 {
        '1'
    } else if d == 2 {
        '2'
    } else if d == 3 {
        '3'
    } else if d == 4 {
        '4'
    } else if d == 5 {
        '5'
    } else if d == 6 {
        '6'
    } else if d == 7 {
        '7'
    } else if d == 8 {
        '8'
    } else {
        '9'
    }
}

/// The decimal rendering of a non-negative number, most significant
/// digit first, with no leading zeros (a lone `0` for zero).
pub open spec fn dec_str(n: int) -> Seq<char>
    recommends
        0 <= n,
    decreases n,
{
    if n < 10 {
        seq![digit_char(n)]
    } else {
        dec_str(n / 10).push(digit_char(n % 10))
    }
}

fn digit_str(d: usize) -> (s: &'static str)
    requires
        d < 10,
    ensures
        s@ == seq![digit_char(d as int)],
{
    if d == 0 {
        proof {
            reveal_strlit("0");
        }
        "0"
    } else if d == 1 {
        proof {
            reveal_strlit("1");
        }
        "1"
    } else if d == 2 {
        proof {
            reveal_strlit("2");
        }
        "2"
    } else if d == 3 {
        proof {
            reveal_strlit("3");
        }
        "3"
    } else if d == 4 {
        proof {
            reveal_strlit("4");
        }
        "4"
    } else if d == 5 {
        proof {
            reveal_strlit("5");
        }
        "5"
    } else if d == 6 {
        proof {
            reveal_strlit("6");
        }
        "6"
    } else if d == 7 {
        proof {
            reveal_strlit("7");
        }
        "7"
    } else if d == 8 {
        proof {
            reveal_strlit("8");
        }
        "8"
    } else {
        proof {
            reveal_strlit("9");
        }
        "9"
    }
}

/// Renders a line index in decimal.
pub fn usize_to_string(n: usize) -> (s: String)
    ensures
        s@ == dec_str(n as int),
    decreases n,
{
    if n < 10 {
        digit_str(n).to_owned()
    } else {
        let mut s = usize_to_string(n / 10);
        s.append(digit_str(n % 10));
        proof {
            assert(s@ =~= dec_str(n as int));
        }
        s
    }
}

/// The marker that distinguishes the matched line (`"> "`) from a
/// context line (`"- "`).
pub open spec fn line_prefix(is_match: bool) -> Seq<char> {
    if is_match {
        seq!['>', ' ']
    } else {
        seq!['-', ' ']
    }
}

/// One rendered output line: marker, document index in decimal, a colon
/// and tab, then the original line text, unchanged.
pub open spec fn rendered_line(is_match: bool, idx: int, text: Seq<char>) -> Seq<char> {
    line_prefix(is_match) + dec_str(idx) + seq![':', '\t'] + text
}

/// Renders one document line with its marker and index.
pub fn render_line(is_match: bool, idx: usize, text: &str) -> (s: String)
    ensures
        s@ == rendered_line(is_match, idx as int, text@),
{
    let mut s: String = if is_match {
        proof {
            reveal_strlit("> ");
        }
        "> ".to_owned()
    } else {
        proof {
            reveal_strlit("- ");
        }
        "- ".to_owned()
    };
    let num = usize_to_string(idx);
    s.append(num.as_str());
    proof {
        reveal_strlit(":\t");
    }
    s.append(":\t");
    s.append(text);
    proof {
        assert(s@ =~= rendered_line(is_match, idx as int, text@));
    }
    s
}

/// The rendering of one indexed line under the given marker.
pub open spec fn rendered_indexed(is_match: bool, l: IndexedLine) -> Seq<char> {
    rendered_line(is_match, l.index as int, l.text@)
}

/// The rendering of one result block: its before-context, the matched
/// line, its after-context, each in ascending index order, then an empty
/// delimiter line.
pub open spec fn rendered_block(b: ResultBlock) -> Seq<Seq<char>> {
    b.before_lines@.map_values(|l: IndexedLine| rendered_indexed(false, l)) + seq![
        rendered_indexed(true, b.match_line),
    ] + b.after_lines@.map_values(|l: IndexedLine| rendered_indexed(false, l)) + seq![
        Seq::<char>::empty(),
    ]
}

/// Renders one result block. This stage only renders: it never re-scans
/// or re-matches, and it copies every line's text and index unchanged.
pub fn render_block(b: &ResultBlock) -> (out: Vec<String>)
    ensures
        out@.map_values(|s: String| s@) == rendered_block(*b),
{
    let mut out: Vec<String> = Vec::new();
    let nb = b.before_lines.len();
    let mut i: usize = 0;
    while i < nb
        invariant
            i <= nb,
            nb == b.before_lines@.len(),
            out@.len() == i,
            forall|k: int|
                0 <= k < i ==> (#[trigger] out@[k])@ == rendered_indexed(
                    false,
                    b.before_lines@[k],
                ),
        decreases nb - i,
    {
        let l = &b.before_lines[i];
        out.push(render_line(false, l.index, l.text.as_str()));
        i = i + 1;
    }

    out.push(render_line(true, b.match_line.index, b.match_line.text.as_str()));

    let na = b.after_lines.len();
    let mut j: usize = 0;
    while j < na
        invariant
            j <= na,
            na == b.after_lines@.len(),
            nb == b.before_lines@.len(),
            out@.len() == nb + 1 + j,
            forall|k: int|
                0 <= k < nb ==> (#[trigger] out@[k])@ == rendered_indexed(
                    false,
                    b.before_lines@[k],
                ),
            out@[nb as int]@ == rendered_indexed(true, b.match_line),
            forall|k: int|
                0 <= k < j ==> (#[trigger] out@[nb + 1 + k])@ == rendered_indexed(
                    false,
                    b.after_lines@[k],
                ),
        decreases na - j,
    {
        let l = &b.after_lines[j];
        out.push(render_line(false, l.index, l.text.as_str()));
        j = j + 1;
    }

    out.push(String::new());
    proof {
        let outv = out@.map_values(|s: String| s@);
        let bs = b.before_lines@.map_values(|l: IndexedLine| rendered_indexed(false, l));
        let asq = b.after_lines@.map_values(|l: IndexedLine| rendered_indexed(false, l));
        let rbv = rendered_block(*b);
        let mid = seq![rendered_indexed(true, b.match_line)];
        let trail = seq![Seq::<char>::empty()];
        assert(rbv == bs + mid + asq + trail);
        assert forall|k: int| 0 <= k < outv.len() implies outv[k] == rbv[k] by {
            assert(rbv[k] == ((bs + mid + asq) + trail)[k]);
            if k < nb {
                assert((bs + mid)[k] == bs[k]);
                assert(outv[k] == bs[k]);
            } else if k == nb {
                assert((bs + mid)[k] == mid[0]);
                assert(outv[k] == mid[0]);
            } else if k < nb + 1 + na {
                assert(((bs + mid) + asq)[k] == asq[k - nb - 1]);
                assert(out@[nb + 1 + (k - nb - 1)]@ == rendered_indexed(
                    false,
                    b.after_lines@[k - nb - 1],
                ));
            } else {
                assert(((bs + mid + asq) + trail)[k] == trail[0]);
            }
        }
        assert(outv =~= rbv);
    }
    out
}

/// The rendering of the first `n` result blocks, concatenated in order.
pub open spec fn rendered_blocks_up_to(blocks: Seq<ResultBlock>, n: int) -> Seq<Seq<char>>
    decreases n,
{
    if n <= 0 {
        Seq::empty()
    } else {
        rendered_blocks_up_to(blocks, n - 1) + rendered_block(blocks[n - 1])
    }
}

/// The rendering of a whole run: every result block in order, each
/// followed by its delimiter line.
pub open spec fn rendered_blocks(blocks: Seq<ResultBlock>) -> Seq<Seq<char>> {
    rendered_blocks_up_to(blocks, blocks.len() as int)
}

/// Renders every result block, in block order.
pub fn render_output(blocks: &Vec<ResultBlock>) -> (out: Vec<String>)
    ensures
        out@.map_values(|s: String| s@) == rendered_blocks(blocks@),
{
    let mut out: Vec<String> = Vec::new();
    let n = blocks.len();
    let mut i: usize = 0;
    while i < n
        invariant
            i <= n,
            n == blocks@.len(),
            out@.map_values(|s: String| s@) == rendered_blocks_up_to(blocks@, i as int),
        decreases n - i,
    {
        let mut rb = render_block(&blocks[i]);
        let ghost old_out = out@;
        let ghost rb_view = rb@;
        out.append(&mut rb);
        proof {
            assert(out@ == old_out + rb_view);
            assert(out@.map_values(|s: String| s@) =~= rendered_blocks_up_to(
                blocks@,
                i + 1,
            ));
        }
        i = i + 1;
    }
    out
}

} // verus!
