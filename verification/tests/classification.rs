use sourcelines::classify::is_pure_comment;
use sourcelines::syntax::CommentSyntax;

fn c_like() -> CommentSyntax {
    CommentSyntax {
        line: Some("//".to_string()),
        block_start: Some("/*".to_string()),
        block_end: Some("*/".to_string()),
    }
}

#[test]
fn line_comment_is_prefix_not_substring() {
    let syn = c_like();
    let mut in_block = false;
    assert!(is_pure_comment("// whole line", &syn, &mut in_block));
    assert!(!in_block);
    assert!(!is_pure_comment("int x; // trailing", &syn, &mut in_block));
    assert!(!in_block);
}

#[test]
fn block_start_enters_block_state() {
    let syn = c_like();
    let mut in_block = false;
    assert!(is_pure_comment("/* begin", &syn, &mut in_block));
    assert!(in_block);
}

#[test]
fn one_line_block_still_enters_block_state() {
    // Only closing is checked while inside a block, so a line that both
    // opens and closes a block leaves the state inside it.
    let syn = c_like();
    let mut in_block = false;
    assert!(is_pure_comment("/* whole thing */", &syn, &mut in_block));
    assert!(in_block);
}

#[test]
fn block_end_is_substring_and_leaves_block() {
    let syn = c_like();
    let mut in_block = true;
    // The end marker can sit mid-line; the whole line still counts as comment.
    assert!(is_pure_comment("*/ int x;", &syn, &mut in_block));
    assert!(!in_block);
}

#[test]
fn inside_block_everything_is_comment() {
    let syn = c_like();
    let mut in_block = true;
    assert!(is_pure_comment("int not_really_code;", &syn, &mut in_block));
    assert!(in_block);
}

#[test]
fn trailing_block_comment_does_not_open_block() {
    // Outside a block only a *leading* start marker is checked, so code
    // followed by an inline block comment stays code.
    let syn = c_like();
    let mut in_block = false;
    assert!(!is_pure_comment("int x; /* note */", &syn, &mut in_block));
    assert!(!in_block);
}

#[test]
fn empty_syntax_never_comments() {
    let syn = CommentSyntax { line: None, block_start: None, block_end: None };
    let mut in_block = false;
    assert!(!is_pure_comment("# not a comment here", &syn, &mut in_block));
    assert!(!is_pure_comment("// nor this", &syn, &mut in_block));
    assert!(!in_block);
}

#[test]
fn block_without_end_marker_never_leaves() {
    let syn = CommentSyntax {
        line: None,
        block_start: Some("{-".to_string()),
        block_end: None,
    };
    let mut in_block = true;
    assert!(is_pure_comment("anything", &syn, &mut in_block));
    assert!(in_block);
}

#[test]
fn sql_line_marker() {
    let syn = CommentSyntax {
        line: Some("--".to_string()),
        block_start: Some("/*".to_string()),
        block_end: Some("*/".to_string()),
    };
    let mut in_block = false;
    assert!(is_pure_comment("-- select", &syn, &mut in_block));
    assert!(!is_pure_comment("select 1; -- trailing", &syn, &mut in_block));
}
