use linegrep::block::build_block;
use linegrep::context::{resolve_context, ContextSpec};
use linegrep::document::Document;
use linegrep::engine::{grep_lines, run};
use linegrep::errors::GrepError;
use linegrep::matcher::find_matches;
use linegrep::pattern::Pattern;
use linegrep::render::{render_line, usize_to_string};

fn lines(texts: &[&str]) -> Vec<String> {
    texts.iter().map(|t| t.to_string()).collect()
}

fn ctx(before: usize, after: usize) -> ContextSpec {
    ContextSpec { before, after }
}

#[test]
fn scenario_single_match_with_context() {
    let out = grep_lines(lines(&["a", "MATCH", "c"]), "MATCH", &ctx(1, 1)).unwrap();
    assert_eq!(out, vec!["- 0:\ta", "> 1:\tMATCH", "- 2:\tc", ""]);
}

#[test]
fn scenario_match_at_start_clamped_before() {
    let out = grep_lines(lines(&["MATCH", "b"]), "MATCH", &ctx(2, 0)).unwrap();
    assert_eq!(out, vec!["> 0:\tMATCH", ""]);
}

#[test]
fn scenario_no_match_is_success_with_no_blocks() {
    let out = grep_lines(lines(&["x", "y", "z"]), "MATCH", &ctx(1, 1)).unwrap();
    assert!(out.is_empty());
}

#[test]
fn scenario_overlapping_blocks_not_deduplicated() {
    let out = grep_lines(lines(&["M1", "a", "M2"]), "M", &ctx(1, 1)).unwrap();
    assert_eq!(
        out,
        vec!["> 0:\tM1", "- 1:\ta", "", "- 1:\ta", "> 2:\tM2", ""]
    );
}

#[test]
fn boundary_first_line_empty_before_range() {
    let doc = Document::from_lines(lines(&["hit", "b", "c"]));
    let b = build_block(&doc, 0, &ctx(3, 0));
    assert!(b.before_lines.is_empty());
    assert_eq!(b.match_line.index, 0);
    assert_eq!(b.match_line.text, "hit");
    assert!(b.after_lines.is_empty());
}

#[test]
fn boundary_last_line_empty_after_range() {
    let doc = Document::from_lines(lines(&["a", "b", "hit"]));
    let b = build_block(&doc, 2, &ctx(0, 3));
    assert!(b.before_lines.is_empty());
    assert_eq!(b.match_line.index, 2);
    assert_eq!(b.match_line.text, "hit");
    assert!(b.after_lines.is_empty());
}

#[test]
fn resolved_range_lengths_are_clamped_minima() {
    // before-range length is min(before, m); after-range length is
    // min(after, len - 1 - m).
    let w = resolve_context(5, 10, &ctx(3, 2));
    assert_eq!(5 - w.before_start, 3);
    assert_eq!(w.after_end - 6, 2);

    let w = resolve_context(1, 10, &ctx(3, 2));
    assert_eq!(1 - w.before_start, 1);

    let w = resolve_context(8, 10, &ctx(0, 5));
    assert_eq!(8 - w.before_start, 0);
    assert_eq!(w.after_end - 9, 1);
}

#[test]
fn zero_context_yields_match_line_only() {
    let out = grep_lines(lines(&["a", "hit", "c"]), "hit", &ctx(0, 0)).unwrap();
    assert_eq!(out, vec!["> 1:\thit", ""]);
}

#[test]
fn match_set_is_strictly_increasing_and_valid() {
    let doc = Document::from_lines(lines(&["ab", "zz", "ab", "ab", "q"]));
    let pat = Pattern::compile("ab").unwrap();
    let markers = find_matches(&doc, &pat);
    assert_eq!(markers, vec![0, 2, 3]);
}

#[test]
fn regex_syntax_is_honoured_not_plain_containment() {
    // Anchors and classes must reach the real matcher: a line that merely
    // contains the letters must not match the anchored pattern.
    let doc = Document::from_lines(lines(&["M1", "xM2", "MM", "M3"]));
    let pat = Pattern::compile("^M[0-9]$").unwrap();
    let markers = find_matches(&doc, &pat);
    assert_eq!(markers, vec![0, 3]);
}

#[test]
fn running_twice_is_byte_identical() {
    let doc = &["alpha", "beta hit", "gamma", "hit delta", "epsilon"];
    let first = grep_lines(lines(doc), "hit", &ctx(2, 1)).unwrap();
    let second = grep_lines(lines(doc), "hit", &ctx(2, 1)).unwrap();
    assert_eq!(first, second);
}

#[test]
fn blocks_come_in_ascending_match_order() {
    let doc = Document::from_lines(lines(&["hit a", "x", "hit b", "y", "hit c"]));
    let pat = Pattern::compile("hit").unwrap();
    let blocks = run(&doc, &pat, &ctx(0, 0));
    assert_eq!(blocks.len(), 3);
    assert_eq!(blocks[0].match_line.index, 0);
    assert_eq!(blocks[1].match_line.index, 2);
    assert_eq!(blocks[2].match_line.index, 4);
    assert_eq!(blocks[2].match_line.text, "hit c");
}

#[test]
fn invalid_pattern_is_pattern_error() {
    let r = grep_lines(lines(&["a"]), "foo(bar", &ctx(0, 0));
    assert_eq!(r.unwrap_err(), GrepError::PatternError);
    let r = Pattern::compile("foo(bar");
    assert!(r.is_err());
}

#[test]
fn error_descriptions_name_the_kind() {
    assert_eq!(GrepError::PatternError.describe(), "invalid pattern");
    assert_eq!(GrepError::SourceOpenError.describe(), "source cannot be opened");
    assert_eq!(GrepError::ConfigError.describe(), "invalid context configuration");
    assert_eq!(
        GrepError::IoError { last_line: 42 }.describe(),
        "read failure after line 42"
    );
}

#[test]
fn indices_render_in_decimal() {
    assert_eq!(usize_to_string(0), "0");
    assert_eq!(usize_to_string(7), "7");
    assert_eq!(usize_to_string(10), "10");
    assert_eq!(usize_to_string(105), "105");
    assert_eq!(usize_to_string(usize::MAX), usize::MAX.to_string());
}

#[test]
fn rendered_line_carries_document_index_and_exact_text() {
    assert_eq!(render_line(true, 12, "some text"), "> 12:\tsome text");
    assert_eq!(render_line(false, 3, ""), "- 3:\t");
}

#[test]
fn empty_document_has_no_blocks() {
    let out = grep_lines(Vec::new(), "anything", &ctx(5, 5)).unwrap();
    assert!(out.is_empty());
}

#[test]
fn empty_pattern_matches_every_line() {
    let out = grep_lines(lines(&["a", "b"]), "", &ctx(0, 0)).unwrap();
    assert_eq!(out, vec!["> 0:\ta", "", "> 1:\tb", ""]);
}

#[test]
fn two_digit_indices_in_output() {
    let mut texts: Vec<String> = (0..11).map(|i| format!("line {}", i)).collect();
    texts.push("the hit".to_string());
    let out = grep_lines(texts, "hit", &ctx(1, 0)).unwrap();
    assert_eq!(out, vec!["- 10:\tline 10", "> 11:\tthe hit", ""]);
}
