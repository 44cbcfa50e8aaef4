//! The comment-syntax descriptor: which markers introduce line comments and
//! which pair of markers delimits block comments, plus the static table that
//! assigns a descriptor to each known language.

use vstd::prelude::*;
use crate::infer::{infer_comment_syntax_from_content, spec_infer};
use crate::text::str_eq;

verus! {

/// The comment conventions of one language: an optional line-comment
/// marker and an optional pair of block-comment delimiters.
#[derive(Debug, Clone)]
pub struct CommentSyntax {
    pub line: Option<String>,
    pub block_start: Option<String>,
    pub block_end: Option<String>,
}

/// The mathematical image of a `CommentSyntax`: each marker as a
/// character sequence.
pub struct SyntaxView {
    pub line: Option<Seq<char>>,
    pub block_start: Option<Seq<char>>,
    pub block_end: Option<Seq<char>>,
}

impl View for CommentSyntax {
    type V = SyntaxView;

    open spec fn view(&self) -> SyntaxView {
        SyntaxView {
            line: match self.line {
                Some(s) => Some(s@),
                None => None,
            },
            block_start: match self.block_start {
                Some(s) => Some(s@),
                None => None,
            },
            block_end: match self.block_end {
                Some(s) => Some(s@),
                None => None,
            },
        }
    }
}

/// Both block markers present, or neither: a start without an end could
/// never be left, and an end without a start never entered.
pub open spec fn syntax_wf(s: SyntaxView) -> bool {
    s.block_start is Some <==> s.block_end is Some
}

/// The syntax that recognizes no comments at all: every non-blank line is
/// code under it.
pub open spec fn empty_syntax() -> SyntaxView {
    SyntaxView { line: None, block_start: None, block_end: None }
}

/// `//` line comments with `/*` .. `*/` blocks, shared by the C family.
pub open spec fn c_like_syntax() -> SyntaxView {
    SyntaxView { line: Some("//"@), block_start: Some("/*"@), block_end: Some("*/"@) }
}

/// `#` line comments and no blocks, shared by the script family.
pub open spec fn hash_syntax() -> SyntaxView {
    SyntaxView { line: Some("#"@), block_start: None, block_end: None }
}

/// `<!--` .. `-->` blocks and no line comments, shared by markup languages.
pub open spec fn markup_syntax() -> SyntaxView {
    SyntaxView { line: None, block_start: Some("<!--"@), block_end: Some("-->"@) }
}

/// Whether `lang` is in the C family for comment purposes. `css` is kept
/// here deliberately, `//` line marker included, although CSS itself has no
/// line comments: the table treats it uniformly with the C family.
pub open spec fn is_c_like_lang(lang: Seq<char>) -> bool {
    ||| lang == "rust"@
    ||| lang == "c"@
    ||| lang == "cpp"@
    ||| lang == "javascript"@
    ||| lang == "typescript"@
    ||| lang == "java"@
    ||| lang == "css"@
    ||| lang == "php"@
    ||| lang == "go"@
    ||| lang == "scala"@
    ||| lang == "kotlin"@
    ||| lang == "jsp"@
    ||| lang == "vala"@
}

/// Whether `lang` uses `#` line comments and no blocks.
pub open spec fn is_hash_lang(lang: Seq<char>) -> bool {
    ||| lang == "python"@
    ||| lang == "shell"@
    ||| lang == "perl"@
    ||| lang == "tcl"@
    ||| lang == "yaml"@
    ||| lang == "config"@
}

/// The comment syntax resolved for `lang`, falling back to content
/// inference (over `lines`) when the language is not in the table.
pub open spec fn spec_comment_syntax(lang: Seq<char>, lines: Seq<Seq<char>>) -> SyntaxView {
    if is_c_like_lang(lang) {
        c_like_syntax()
    } else if is_hash_lang(lang) {
        hash_syntax()
    } else if lang == "html"@ || lang == "xml"@ {
        markup_syntax()
    } else if lang == "sql"@ {
        SyntaxView { line: Some("--"@), block_start: Some("/*"@), block_end: Some("*/"@) }
    } else if lang == "batch"@ {
        SyntaxView { line: Some("REM"@), block_start: None, block_end: None }
    } else if lang == "vb"@ {
        SyntaxView { line: Some("'"@), block_start: None, block_end: None }
    } else if lang == "tex"@ {
        SyntaxView { line: Some("%"@), block_start: None, block_end: None }
    } else if lang == "text"@ {
        empty_syntax()
    } else {
        spec_infer(lines)
    }
}

/// Resolve the comment syntax for `lang`. For a language outside the
/// built-in table the syntax is inferred from the file's own `lines`.
pub fn detect_comment_syntax(lang: &str, lines: &Vec<String>) -> (r: CommentSyntax)
    ensures
        r@ == spec_comment_syntax(lang@, lines.deep_view()),
{
    if str_eq(lang, "rust") || str_eq(lang, "c") || str_eq(lang, "cpp") || str_eq(
        lang,
        "javascript",
    ) || str_eq(lang, "typescript") || str_eq(lang, "java") || str_eq(lang, "css") || str_eq(
        lang,
        "php",
    ) || str_eq(lang, "go") || str_eq(lang, "scala") || str_eq(lang, "kotlin") || str_eq(
        lang,
        "jsp",
    ) || str_eq(lang, "vala") {
        CommentSyntax {
            line: Some("//".to_owned()),
            block_start: Some("/*".to_owned()),
            block_end: Some("*/".to_owned()),
        }
    } else if str_eq(lang, "python") || str_eq(lang, "shell") || str_eq(lang, "perl") || str_eq(
        lang,
        "tcl",
    ) || str_eq(lang, "yaml") || str_eq(lang, "config") {
        CommentSyntax { line: Some("#".to_owned()), block_start: None, block_end: None }
    } else if str_eq(lang, "html") || str_eq(lang, "xml") {
        CommentSyntax {
            line: None,
            block_start: Some("<!--".to_owned()),
            block_end: Some("-->".to_owned()),
        }
    } else if str_eq(lang, "sql") {
        CommentSyntax {
            line: Some("--".to_owned()),
            block_start: Some("/*".to_owned()),
            block_end: Some("*/".to_owned()),
        }
    } else if str_eq(lang, "batch") {
        CommentSyntax { line: Some("REM".to_owned()), block_start: None, block_end: None }
    } else if str_eq(lang, "vb") {
        CommentSyntax { line: Some("'".to_owned()), block_start: None, block_end: None }
    } else if str_eq(lang, "tex") {
        CommentSyntax { line: Some("%".to_owned()), block_start: None, block_end: None }
    } else if str_eq(lang, "text") {
        CommentSyntax { line: None, block_start: None, block_end: None }
    } else {
        infer_comment_syntax_from_content(lines)
    }
}

} // verus!
