//! Language detection: a shebang probe on the file's first line takes
//! priority; otherwise the file extension is looked up in a fixed table,
//! an unmapped extension naming the language verbatim.

use vstd::prelude::*;
use crate::text::{chars_eq_str, chars_of, seq_contains, str_contains, str_starts_with};

verus! {

/// The interpreter named by a shebang line, probed by substring in this
/// fixed order, the first hit winning. The probes are substring tests, not
/// exact interpreter names, so `bash` must be probed before `sh`; the
/// order is deliberate and observable.
pub open spec fn spec_shebang_lang(l: Seq<char>) -> Option<Seq<char>> {
    if seq_contains(l, "python"@) {
        Some("python"@)
    } else if seq_contains(l, "perl"@) {
        Some("perl"@)
    } else if seq_contains(l, "ruby"@) {
        Some("ruby"@)
    } else if seq_contains(l, "bash"@) {
        Some("shell"@)
    } else if seq_contains(l, "sh"@) {
        Some("shell"@)
    } else if seq_contains(l, "zsh"@) {
        Some("shell"@)
    } else if seq_contains(l, "node"@) {
        Some("javascript"@)
    } else if seq_contains(l, "php"@) {
        Some("php"@)
    } else if seq_contains(l, "lua"@) {
        Some("lua"@)
    } else if seq_contains(l, "awk"@) {
        Some("awk"@)
    } else if seq_contains(l, "tcl"@) {
        Some("tcl"@)
    } else {
        None
    }
}

/// `p` without its trailing `/` characters.
pub open spec fn strip_trailing_slashes(p: Seq<char>) -> Seq<char>
    decreases p.len(),
{
    if p.len() > 0 && p.last() == '/' {
        strip_trailing_slashes(p.drop_last())
    } else {
        p
    }
}

/// The suffix of `p` after the last occurrence of `sep`: empty when `p`
/// ends with `sep`, all of `p` when `sep` does not occur.
pub open spec fn suffix_after(p: Seq<char>, sep: char) -> Seq<char>
    decreases p.len(),
{
    if p.len() == 0 {
        Seq::<char>::empty()
    } else if p.last() == sep {
        Seq::<char>::empty()
    } else {
        suffix_after(p.drop_last(), sep).push(p.last())
    }
}

/// The extension of a path: the part of the final path component after its
/// last dot. A name without a dot, a name whose only dot leads it (a
/// hidden file), and an empty extension all count as no extension.
pub open spec fn spec_extension(path: Seq<char>) -> Option<Seq<char>> {
    let fname = suffix_after(strip_trailing_slashes(path), '/');
    let ext = suffix_after(fname, '.');
    if ext.len() == fname.len() {
        None
    } else if fname.len() == ext.len() + 1 && fname[0] == '.' {
        None
    } else if ext.len() == 0 {
        None
    } else {
        Some(ext)
    }
}

/// An ASCII letter mapped to lower case; anything else unchanged.
pub open spec fn lower_char(c: char) -> char {
    if c == 'A' {
        'a'
    } else if c == 'B' {
        'b'
    } else if c == 'C' {
        'c'
    } else if c == 'D' {
        'd'
    } else if c == 'E' {
        'e'
    } else if c == 'F' {
        'f'
    } else if c == 'G' {
        'g'
    } else if c == 'H' {
        'h'
    } else if c == 'I' {
        'i'
    } else if c == 'J' {
        'j'
    } else if c == 'K' {
        'k'
    } else if c == 'L' {
        'l'
    } else if c == 'M' {
        'm'
    } else if c == 'N' {
        'n'
    } else if c == 'O' {
        'o'
    } else if c == 'P' {
        'p'
    } else if c == 'Q' {
        'q'
    } else if c == 'R' {
        'r'
    } else if c == 'S' {
        's'
    } else if c == 'T' {
        't'
    } else if c == 'U' {
        'u'
    } else if c == 'V' {
        'v'
    } else if c == 'W' {
        'w'
    } else if c == 'X' {
        'x'
    } else if c == 'Y' {
        'y'
    } else if c == 'Z' {
        'z'
    } else {
        c
    }
}

/// `s` with its ASCII letters lowered.
pub open spec fn lower_seq(s: Seq<char>) -> Seq<char> {
    s.map_values(|c: char| lower_char(c))
}

fn lower_char_exec(c: char) -> (r: char)
    ensures
        r == lower_char(c),
{
    match c {
        'A' => 'a',
        'B' => 'b',
        'C' => 'c',
        'D' => 'd',
        'E' => 'e',
        'F' => 'f',
        'G' => 'g',
        'H' => 'h',
        'I' => 'i',
        'J' => 'j',
        'K' => 'k',
        'L' => 'l',
        'M' => 'm',
        'N' => 'n',
        'O' => 'o',
        'P' => 'p',
        'Q' => 'q',
        'R' => 'r',
        'S' => 's',
        'T' => 't',
        'U' => 'u',
        'V' => 'v',
        'W' => 'w',
        'X' => 'x',
        'Y' => 'y',
        'Z' => 'z',
        _ => c,
    }
}

/// The language assigned to a lower-cased extension by the fixed table; an
/// unmapped extension names the language verbatim.
pub open spec fn spec_ext_lang(x: Seq<char>) -> Seq<char> {
    if x == "rs"@ {
        "rust"@
    } else if x == "c"@ || x == "h"@ {
        "c"@
    } else if x == "cpp"@ || x == "cxx"@ || x == "cc"@ || x == "hpp"@ || x == "hxx"@ {
        "cpp"@
    } else if x == "py"@ || x == "python"@ {
        "python"@
    } else if x == "js"@ {
        "javascript"@
    } else if x == "ts"@ {
        "typescript"@
    } else if x == "java"@ {
        "java"@
    } else if x == "sh"@ || x == "bash"@ || x == "zsh"@ || x == "env"@ {
        "shell"@
    } else if x == "css"@ || x == "scss"@ {
        "css"@
    } else if x == "html"@ || x == "htm"@ {
        "html"@
    } else if x == "xml"@ || x == "xsl"@ || x == "xslt"@ || x == "xsd"@ || x == "dtd"@ || x
        == "xq"@ {
        "xml"@
    } else if x == "php"@ {
        "php"@
    } else if x == "pl"@ || x == "pm"@ {
        "perl"@
    } else if x == "go"@ {
        "go"@
    } else if x == "scala"@ {
        "scala"@
    } else if x == "kt"@ || x == "kts"@ {
        "kotlin"@
    } else if x == "sql"@ {
        "sql"@
    } else if x == "bat"@ {
        "batch"@
    } else if x == "bas"@ || x == "cls"@ || x == "ctl"@ || x == "frm"@ {
        "vb"@
    } else if x == "jsp"@ {
        "jsp"@
    } else if x == "vala"@ {
        "vala"@
    } else if x == "sty"@ {
        "tex"@
    } else if x == "tcl"@ {
        "tcl"@
    } else if x == "txt"@ {
        "text"@
    } else if x == "yaml"@ || x == "yml"@ {
        "yaml"@
    } else if x == "conf"@ || x == "ini"@ {
        "config"@
    } else {
        x
    }
}

/// The view of an optional first line.
pub open spec fn opt_line_view(first_line: Option<&str>) -> Option<Seq<char>> {
    match first_line {
        Some(l) => Some(l@),
        None => None,
    }
}

/// The language detected for a path and (optionally) the file's first
/// line: a shebang interpreter match wins; otherwise the extension table
/// decides; with neither, the language is `unknown`.
pub open spec fn spec_detect_language(path: Seq<char>, first_line: Option<Seq<char>>) -> Seq<
    char,
> {
    let sheb = match first_line {
        Some(l) => if "#!"@.is_prefix_of(l) {
            spec_shebang_lang(l)
        } else {
            None
        },
        None => None,
    };
    match sheb {
        Some(lang) => lang,
        None => match spec_extension(path) {
            Some(ext) => spec_ext_lang(lower_seq(ext)),
            None => "unknown"@,
        },
    }
}

/// Relies on String's FromIterator over char: collecting characters yields
/// a string of exactly those characters, in order.
#[verifier::external_body]
fn string_from_chars(v: &Vec<char>) -> (r: String)
    ensures
        r@ == v@,
{
    v.iter().collect()
}

fn extension_language(path: &str) -> (r: String)
    ensures
        r@ == match spec_extension(path@) {
            Some(ext) => spec_ext_lang(lower_seq(ext)),
            None => "unknown"@,
        },
{
    let cs = chars_of(path);
    let n: usize = cs.len();
    proof {
        assert(path@.take(n as int) =~= path@);
    }
    // Drop trailing slashes, as a path lookup of the final component would.
    let mut e: usize = n;
    while e > 0 && cs[e - 1] == '/'
        invariant
            e <= n,
            n == path@.len(),
            cs@ == path@,
            strip_trailing_slashes(path@) == strip_trailing_slashes(path@.take(e as int)),
        decreases e,
    {
        proof {
            let t = path@.take(e as int);
            assert(t.last() == path@[e - 1]);
            assert(t.drop_last() =~= path@.take(e - 1));
        }
        e = e - 1;
    }
    proof {
        let t = path@.take(e as int);
        assert(strip_trailing_slashes(t) == t) by {
            if e > 0 {
                assert(t.last() == path@[e - 1]);
            }
        }
    }
    // Find the final path component: the suffix after the last slash.
    let mut k: usize = e;
    proof {
        assert(path@.subrange(e as int, e as int) =~= Seq::<char>::empty());
        assert(suffix_after(path@.take(e as int), '/') + Seq::<char>::empty() =~= suffix_after(
            path@.take(e as int),
            '/',
        ));
    }
    while k > 0 && cs[k - 1] != '/'
        invariant
            k <= e <= n,
            n == path@.len(),
            cs@ == path@,
            suffix_after(path@.take(e as int), '/') == suffix_after(path@.take(k as int), '/')
                + path@.subrange(k as int, e as int),
        decreases k,
    {
        proof {
            let t = path@.take(k as int);
            assert(t.last() == path@[k - 1]);
            assert(t.drop_last() =~= path@.take(k - 1));
            assert(suffix_after(path@.take(k - 1), '/') + path@.subrange(k - 1, e as int)
                =~= suffix_after(path@.take(k - 1), '/').push(path@[k - 1]) + path@.subrange(
                k as int,
                e as int,
            ));
        }
        k = k - 1;
    }
    proof {
        assert(suffix_after(path@.take(k as int), '/') == Seq::<char>::empty()) by {
            if k > 0 {
                assert(path@.take(k as int).last() == path@[k - 1]);
            }
        }
        assert(Seq::<char>::empty() + path@.subrange(k as int, e as int) =~= path@.subrange(
            k as int,
            e as int,
        ));
    }
    let ghost fname = path@.subrange(k as int, e as int);
    // Find the last dot of the component.
    let mut d: usize = e;
    proof {
        assert(path@.subrange(e as int, e as int) =~= Seq::<char>::empty());
        assert(suffix_after(path@.subrange(k as int, e as int), '.') + Seq::<char>::empty()
            =~= suffix_after(path@.subrange(k as int, e as int), '.'));
    }
    while d > k && cs[d - 1] != '.'
        invariant
            k <= d <= e <= n,
            n == path@.len(),
            cs@ == path@,
            suffix_after(path@.subrange(k as int, e as int), '.') == suffix_after(
                path@.subrange(k as int, d as int),
                '.',
            ) + path@.subrange(d as int, e as int),
        decreases d,
    {
        proof {
            let t = path@.subrange(k as int, d as int);
            assert(t.last() == path@[d - 1]);
            assert(t.drop_last() =~= path@.subrange(k as int, d - 1));
            assert(suffix_after(path@.subrange(k as int, d - 1), '.') + path@.subrange(
                d - 1,
                e as int,
            ) =~= suffix_after(path@.subrange(k as int, d - 1), '.').push(path@[d - 1])
                + path@.subrange(d as int, e as int));
        }
        d = d - 1;
    }
    proof {
        assert(suffix_after(path@.subrange(k as int, d as int), '.') == Seq::<char>::empty()) by {
            if d > k {
                assert(path@.subrange(k as int, d as int).last() == path@[d - 1]);
            }
        }
        assert(Seq::<char>::empty() + path@.subrange(d as int, e as int) =~= path@.subrange(
            d as int,
            e as int,
        ));
        assert(suffix_after(fname, '.') == path@.subrange(d as int, e as int));
    }
    if d == k {
        // No dot in the component.
        return "unknown".to_owned();
    }
    if d == k + 1 && cs[k] == '.' {
        // The only dot leads the component: a hidden file has no extension.
        proof {
            assert(fname[0] == path@[k as int]);
        }
        return "unknown".to_owned();
    }
    if d == e {
        // The component ends with its dot: an empty extension.
        return "unknown".to_owned();
    }
    let ghost ext = path@.subrange(d as int, e as int);
    let mut lext: Vec<char> = Vec::new();
    let mut i: usize = d;
    proof {
        assert(lext@ =~= lower_seq(path@.subrange(d as int, d as int)));
    }
    while i < e
        invariant
            d <= i <= e <= n,
            n == path@.len(),
            cs@ == path@,
            lext@ == lower_seq(path@.subrange(d as int, i as int)),
        decreases e - i,
    {
        lext.push(lower_char_exec(cs[i]));
        proof {
            let prev = path@.subrange(d as int, i as int);
            let cur = path@.subrange(d as int, i + 1);
            assert(cur =~= prev.push(path@[i as int]));
            assert(lower_seq(cur) =~= lower_seq(prev).push(lower_char(path@[i as int])));
        }
        i = i + 1;
    }
    if chars_eq_str(&lext, "rs") {
        return "rust".to_owned();
    }
    if chars_eq_str(&lext, "c") || chars_eq_str(&lext, "h") {
        return "c".to_owned();
    }
    if chars_eq_str(&lext, "cpp") || chars_eq_str(&lext, "cxx") || chars_eq_str(&lext, "cc")
        || chars_eq_str(&lext, "hpp") || chars_eq_str(&lext, "hxx") {
        return "cpp".to_owned();
    }
    if chars_eq_str(&lext, "py") || chars_eq_str(&lext, "python") {
        return "python".to_owned();
    }
    if chars_eq_str(&lext, "js") {
        return "javascript".to_owned();
    }
    if chars_eq_str(&lext, "ts") {
        return "typescript".to_owned();
    }
    if chars_eq_str(&lext, "java") {
        return "java".to_owned();
    }
    if chars_eq_str(&lext, "sh") || chars_eq_str(&lext, "bash") || chars_eq_str(&lext, "zsh")
        || chars_eq_str(&lext, "env") {
        return "shell".to_owned();
    }
    if chars_eq_str(&lext, "css") || chars_eq_str(&lext, "scss") {
        return "css".to_owned();
    }
    if chars_eq_str(&lext, "html") || chars_eq_str(&lext, "htm") {
        return "html".to_owned();
    }
    if chars_eq_str(&lext, "xml") || chars_eq_str(&lext, "xsl") || chars_eq_str(&lext, "xslt")
        || chars_eq_str(&lext, "xsd") || chars_eq_str(&lext, "dtd") || chars_eq_str(&lext, "xq") {
        return "xml".to_owned();
    }
    if chars_eq_str(&lext, "php") {
        return "php".to_owned();
    }
    if chars_eq_str(&lext, "pl") || chars_eq_str(&lext, "pm") {
        return "perl".to_owned();
    }
    if chars_eq_str(&lext, "go") {
        return "go".to_owned();
    }
    if chars_eq_str(&lext, "scala") {
        return "scala".to_owned();
    }
    if chars_eq_str(&lext, "kt") || chars_eq_str(&lext, "kts") {
        return "kotlin".to_owned();
    }
    if chars_eq_str(&lext, "sql") {
        return "sql".to_owned();
    }
    if chars_eq_str(&lext, "bat") {
        return "batch".to_owned();
    }
    if chars_eq_str(&lext, "bas") || chars_eq_str(&lext, "cls") || chars_eq_str(&lext, "ctl")
        || chars_eq_str(&lext, "frm") {
        return "vb".to_owned();
    }
    if chars_eq_str(&lext, "jsp") {
        return "jsp".to_owned();
    }
    if chars_eq_str(&lext, "vala") {
        return "vala".to_owned();
    }
    if chars_eq_str(&lext, "sty") {
        return "tex".to_owned();
    }
    if chars_eq_str(&lext, "tcl") {
        return "tcl".to_owned();
    }
    if chars_eq_str(&lext, "txt") {
        return "text".to_owned();
    }
    if chars_eq_str(&lext, "yaml") || chars_eq_str(&lext, "yml") {
        return "yaml".to_owned();
    }
    if chars_eq_str(&lext, "conf") || chars_eq_str(&lext, "ini") {
        return "config".to_owned();
    }
    string_from_chars(&lext)
}

/// Detect the language of the file at `path` whose first line, when it
/// could be read, is `first_line`. A shebang on the first line takes
/// priority over the extension.
pub fn detect_language(path: &str, first_line: Option<&str>) -> (r: String)
    ensures
        r@ == spec_detect_language(path@, opt_line_view(first_line)),
{
    if let Some(l) = first_line {
        if str_starts_with(l, "#!") {
            if str_contains(l, "python") {
                return "python".to_owned();
            }
            if str_contains(l, "perl") {
                return "perl".to_owned();
            }
            if str_contains(l, "ruby") {
                return "ruby".to_owned();
            }
            if str_contains(l, "bash") {
                return "shell".to_owned();
            }
            if str_contains(l, "sh") {
                return "shell".to_owned();
            }
            if str_contains(l, "zsh") {
                return "shell".to_owned();
            }
            if str_contains(l, "node") {
                return "javascript".to_owned();
            }
            if str_contains(l, "php") {
                return "php".to_owned();
            }
            if str_contains(l, "lua") {
                return "lua".to_owned();
            }
            if str_contains(l, "awk") {
                return "awk".to_owned();
            }
            if str_contains(l, "tcl") {
                return "tcl".to_owned();
            }
        }
    }
    extension_language(path)
}

} // verus!
