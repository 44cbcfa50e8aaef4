use sourcelines::syntax::{detect_comment_syntax, CommentSyntax};

fn no_lines() -> Vec<String> {
    Vec::new()
}

fn markers(s: &CommentSyntax) -> (Option<&str>, Option<&str>, Option<&str>) {
    (
        s.line.as_deref(),
        s.block_start.as_deref(),
        s.block_end.as_deref(),
    )
}

#[test]
fn c_family_table_entries() {
    for lang in ["rust", "c", "cpp", "javascript", "typescript", "java", "php", "go", "scala",
        "kotlin", "jsp", "vala"] {
        let s = detect_comment_syntax(lang, &no_lines());
        assert_eq!(markers(&s), (Some("//"), Some("/*"), Some("*/")), "lang {lang}");
    }
}

#[test]
fn hash_table_entries() {
    for lang in ["python", "shell", "perl", "tcl", "yaml", "config"] {
        let s = detect_comment_syntax(lang, &no_lines());
        assert_eq!(markers(&s), (Some("#"), None, None), "lang {lang}");
    }
}

#[test]
fn css_is_treated_like_the_c_family() {
    let s = detect_comment_syntax("css", &no_lines());
    assert_eq!(markers(&s), (Some("//"), Some("/*"), Some("*/")));
}

#[test]
fn markup_table_entries() {
    for lang in ["html", "xml"] {
        let s = detect_comment_syntax(lang, &no_lines());
        assert_eq!(markers(&s), (None, Some("<!--"), Some("-->")), "lang {lang}");
    }
}

#[test]
fn sql_table_entry() {
    let s = detect_comment_syntax("sql", &no_lines());
    assert_eq!(markers(&s), (Some("--"), Some("/*"), Some("*/")));
}

#[test]
fn batch_vb_tex_table_entries() {
    assert_eq!(markers(&detect_comment_syntax("batch", &no_lines())), (Some("REM"), None, None));
    assert_eq!(markers(&detect_comment_syntax("vb", &no_lines())), (Some("'"), None, None));
    assert_eq!(markers(&detect_comment_syntax("tex", &no_lines())), (Some("%"), None, None));
}

#[test]
fn text_recognizes_no_comments() {
    let s = detect_comment_syntax("text", &no_lines());
    assert_eq!(markers(&s), (None, None, None));
}

#[test]
fn unknown_language_falls_back_to_inference() {
    let lines: Vec<String> = vec![
        "# leading comment\n".to_string(),
        "value = 1\n".to_string(),
    ];
    let s = detect_comment_syntax("somelang", &lines);
    assert_eq!(markers(&s), (Some("#"), None, None));
}
