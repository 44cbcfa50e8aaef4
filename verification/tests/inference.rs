use sourcelines::infer::{count_matches, infer_comment_syntax_from_content};
use sourcelines::syntax::CommentSyntax;

fn lines(raw: &[&str]) -> Vec<String> {
    raw.iter().map(|s| s.to_string()).collect()
}

fn markers(s: &CommentSyntax) -> (Option<&str>, Option<&str>, Option<&str>) {
    (
        s.line.as_deref(),
        s.block_start.as_deref(),
        s.block_end.as_deref(),
    )
}

#[test]
fn infers_hash_comments() {
    let content = lines(&["# one", "# two", "x = 1", "# three"]);
    let s = infer_comment_syntax_from_content(&content);
    assert_eq!(markers(&s), (Some("#"), None, None));
}

#[test]
fn infers_c_style_comments() {
    let content = lines(&["// header", "int x;", "// more"]);
    let s = infer_comment_syntax_from_content(&content);
    assert_eq!(markers(&s), (Some("//"), Some("/*"), Some("*/")));
}

#[test]
fn block_state_carries_through_inference() {
    // The block keeps matching until the end marker, so the C-style
    // candidate explains all three lines.
    let content = lines(&["/*", "middle has no marker", "*/"]);
    let s = infer_comment_syntax_from_content(&content);
    assert_eq!(markers(&s), (Some("//"), Some("/*"), Some("*/")));
    let c_like = CommentSyntax {
        line: Some("//".to_string()),
        block_start: Some("/*".to_string()),
        block_end: Some("*/".to_string()),
    };
    assert_eq!(count_matches(&content, &c_like), 3);
}

#[test]
fn no_matches_yields_empty_syntax() {
    let content = lines(&["plain words", "more words", ""]);
    let s = infer_comment_syntax_from_content(&content);
    assert_eq!(markers(&s), (None, None, None));
}

#[test]
fn unmatched_marker_majority_still_picks_counted_candidate() {
    // Nine lines start with ';', which no candidate recognizes; one line
    // starts with '#'. The hash candidate wins with its single match.
    let mut raw: Vec<&str> = vec!["; x"; 9];
    raw.push("# note");
    let content = lines(&raw);
    let s = infer_comment_syntax_from_content(&content);
    assert_eq!(markers(&s), (Some("#"), None, None));
}

#[test]
fn ties_go_to_the_earlier_candidate() {
    // "/* x" opens a block for every candidate with a "/*" start marker;
    // the C-style candidate comes first in the list and wins the tie.
    let content = lines(&["/* x"]);
    let s = infer_comment_syntax_from_content(&content);
    assert_eq!(markers(&s), (Some("//"), Some("/*"), Some("*/")));
}

#[test]
fn markup_candidate_is_recognized() {
    let content = lines(&["<!-- a -->", "<p>text</p>"]);
    let s = infer_comment_syntax_from_content(&content);
    assert_eq!(markers(&s), (None, Some("<!--"), Some("-->")));
}

#[test]
fn percent_and_quote_candidates() {
    let content = lines(&["% a", "% b", "text"]);
    assert_eq!(markers(&infer_comment_syntax_from_content(&content)), (Some("%"), None, None));
    let content = lines(&["' a", "' b", "text"]);
    assert_eq!(markers(&infer_comment_syntax_from_content(&content)), (Some("'"), None, None));
}

#[test]
fn count_matches_counts_comment_lines_only() {
    let hash = CommentSyntax { line: Some("#".to_string()), block_start: None, block_end: None };
    let content = lines(&["# a", "x", "  # indented", "", "# b"]);
    // Lines are trimmed before the prefix test, so the indented comment counts.
    assert_eq!(count_matches(&content, &hash), 3);
}
