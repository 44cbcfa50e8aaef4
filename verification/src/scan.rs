//! Scanning a file's lines into statistics: every line counts toward the
//! raw totals, and a line counts as actual code exactly when its trimmed
//! form is non-empty and the classifier does not call it a comment.

use vstd::prelude::*;
use vstd::utf8::{encode_scalar, encode_utf8};
use vstd::string::StrSliceExecFns;
use crate::classify::{is_pure_comment, spec_is_comment, spec_next_in_block};
use crate::lang::{detect_language, spec_detect_language};
use crate::stats::{is_binary_sample, sv_add, sv_zero, Stats, StatsView};
use crate::syntax::{detect_comment_syntax, spec_comment_syntax, CommentSyntax, SyntaxView};
use crate::text::{count_words, lemma_wc_le_len, spec_trim, spec_word_count, trim_str};

verus! {

/// The contribution of a single raw line (terminator included, as read):
/// one raw line, its words, characters and bytes, and one actual line
/// exactly when the trimmed line is non-empty and not a comment.
pub open spec fn spec_line_stats(line: Seq<char>, syn: SyntaxView, in_block: bool) -> StatsView {
    let t = spec_trim(line);
    StatsView {
        actual_loc: if t.len() > 0 && !spec_is_comment(t, syn, in_block) {
            1nat
        } else {
            0nat
        },
        raw_loc: 1,
        words: spec_word_count(line),
        chars: line.len(),
        bytes: encode_utf8(line).len(),
    }
}

/// The statistics of `lines` scanned under `syn`, starting in block state
/// `in_block` and threading the state line to line.
pub open spec fn spec_scan_from(lines: Seq<Seq<char>>, syn: SyntaxView, in_block: bool) -> StatsView
    decreases lines.len(),
{
    if lines.len() == 0 {
        sv_zero()
    } else {
        sv_add(
            spec_line_stats(lines[0], syn, in_block),
            spec_scan_from(
                lines.drop_first(),
                syn,
                spec_next_in_block(spec_trim(lines[0]), syn, in_block),
            ),
        )
    }
}

/// The statistics of one file's lines: scanning always starts outside any
/// block comment.
pub open spec fn spec_scan(lines: Seq<Seq<char>>, syn: SyntaxView) -> StatsView {
    spec_scan_from(lines, syn, false)
}

/// A character never encodes to fewer bytes than one.
pub proof fn lemma_utf8_len_ge(s: Seq<char>)
    ensures
        encode_utf8(s).len() >= s.len(),
    decreases s.len(),
{
    if s.len() > 0 {
        lemma_utf8_len_ge(s.drop_first());
        assert(encode_scalar(s[0] as u32).len() >= 1);
    }
}

/// Within any scan, words never outnumber characters, characters never
/// outnumber bytes, and the line counters never exceed the line count.
pub proof fn lemma_scan_bounds(lines: Seq<Seq<char>>, syn: SyntaxView, in_block: bool)
    ensures
        spec_scan_from(lines, syn, in_block).raw_loc == lines.len(),
        spec_scan_from(lines, syn, in_block).actual_loc <= lines.len(),
        spec_scan_from(lines, syn, in_block).words <= spec_scan_from(lines, syn, in_block).chars,
        spec_scan_from(lines, syn, in_block).chars <= spec_scan_from(lines, syn, in_block).bytes,
    decreases lines.len(),
{
    if lines.len() > 0 {
        let t = spec_trim(lines[0]);
        lemma_scan_bounds(lines.drop_first(), syn, spec_next_in_block(t, syn, in_block));
        lemma_utf8_len_ge(lines[0]);
        lemma_wc_le_len(lines[0], true);
    }
}

/// The raw counters of a scan do not depend on the block state it starts
/// in: whatever the state, every line still counts its words, characters
/// and bytes; only the actual-line count is affected.
pub proof fn lemma_scan_raw_totals_state_independent(
    lines: Seq<Seq<char>>,
    syn: SyntaxView,
    b1: bool,
    b2: bool,
)
    ensures
        spec_scan_from(lines, syn, b1).raw_loc == spec_scan_from(lines, syn, b2).raw_loc,
        spec_scan_from(lines, syn, b1).words == spec_scan_from(lines, syn, b2).words,
        spec_scan_from(lines, syn, b1).chars == spec_scan_from(lines, syn, b2).chars,
        spec_scan_from(lines, syn, b1).bytes == spec_scan_from(lines, syn, b2).bytes,
    decreases lines.len(),
{
    if lines.len() > 0 {
        let t = spec_trim(lines[0]);
        lemma_scan_raw_totals_state_independent(
            lines.drop_first(),
            syn,
            spec_next_in_block(t, syn, b1),
            spec_next_in_block(t, syn, b2),
        );
    }
}

/// Scan one file's lines under `syntax`, from a fresh out-of-block state.
/// The byte total must fit the machine word; the other counters then fit
/// as well.
pub fn scan_lines(lines: &Vec<String>, syntax: &CommentSyntax) -> (r: Stats)
    requires
        spec_scan(lines.deep_view(), syntax@).bytes <= usize::MAX,
    ensures
        r@ == spec_scan(lines.deep_view(), syntax@),
{
    let ghost dv = lines.deep_view();
    let ghost total = spec_scan(dv, syntax@);
    proof {
        lemma_scan_bounds(dv, syntax@, false);
        assert(dv.skip(0) =~= dv);
    }
    let mut actual_loc: usize = 0;
    let mut raw_loc: usize = 0;
    let mut words: usize = 0;
    let mut chars: usize = 0;
    let mut bytes: usize = 0;
    let mut in_block: bool = false;
    let mut i: usize = 0;
    while i < lines.len()
        invariant
            i <= lines.len(),
            dv == lines.deep_view(),
            dv.len() == lines.len(),
            total == spec_scan(dv, syntax@),
            total.bytes <= usize::MAX,
            total.words <= total.chars <= total.bytes,
            raw_loc == i,
            actual_loc <= i,
            total.actual_loc == actual_loc + spec_scan_from(
                dv.skip(i as int),
                syntax@,
                in_block,
            ).actual_loc,
            total.raw_loc == raw_loc + spec_scan_from(dv.skip(i as int), syntax@, in_block).raw_loc,
            total.words == words + spec_scan_from(dv.skip(i as int), syntax@, in_block).words,
            total.chars == chars + spec_scan_from(dv.skip(i as int), syntax@, in_block).chars,
            total.bytes == bytes + spec_scan_from(dv.skip(i as int), syntax@, in_block).bytes,
        decreases lines.len() - i,
    {
        proof {
            assert(dv.skip(i as int)[0] == dv[i as int]);
            assert(dv[i as int] == lines@[i as int]@);
            assert(dv.skip(i as int).drop_first() =~= dv.skip(i + 1));
        }
        let line_chars: usize = lines[i].as_str().unicode_len();
        let line_bytes: usize = lines[i].as_str().len();
        proof {
            assert(encode_utf8(dv[i as int]).len() <= usize::MAX);
        }
        let line_words: usize = count_words(lines[i].as_str());
        let trimmed = trim_str(lines[i].as_str());
        let blank = trimmed.is_empty();
        let is_comment = is_pure_comment(trimmed, syntax, &mut in_block);
        raw_loc = raw_loc + 1;
        bytes = bytes + line_bytes;
        chars = chars + line_chars;
        words = words + line_words;
        if !blank && !is_comment {
            actual_loc = actual_loc + 1;
        }
        i = i + 1;
    }
    proof {
        assert(dv.skip(dv.len() as int) =~= Seq::<Seq<char>>::empty());
    }
    Stats { actual_loc, raw_loc, words, chars, bytes }
}

/// Scan one file's lines, first checking at run time that the byte total
/// fits the machine word; `None` exactly when it does not.
pub fn try_scan_lines(lines: &Vec<String>, syntax: &CommentSyntax) -> (r: Option<Stats>)
    ensures
        r is Some <==> spec_scan(lines.deep_view(), syntax@).bytes <= usize::MAX,
        r matches Some(s) ==> s@ == spec_scan(lines.deep_view(), syntax@),
{
    let ghost dv = lines.deep_view();
    let ghost total = spec_scan(dv, syntax@);
    proof {
        assert(dv.skip(0) =~= dv);
    }
    let mut bytes: usize = 0;
    let mut i: usize = 0;
    while i < lines.len()
        invariant
            i <= lines.len(),
            dv == lines.deep_view(),
            dv.len() == lines.len(),
            total == spec_scan(dv, syntax@),
            total.bytes == bytes + spec_scan_from(dv.skip(i as int), syntax@, false).bytes,
        decreases lines.len() - i,
    {
        proof {
            assert(dv.skip(i as int)[0] == dv[i as int]);
            assert(dv[i as int] == lines@[i as int]@);
            assert(dv.skip(i as int).drop_first() =~= dv.skip(i + 1));
            lemma_scan_raw_totals_state_independent(
                dv.skip(i + 1),
                syntax@,
                spec_next_in_block(spec_trim(dv[i as int]), syntax@, false),
                false,
            );
        }
        let line_bytes: usize = lines[i].as_str().as_bytes().len();
        bytes = match bytes.checked_add(line_bytes) {
            Some(b) => b,
            None => {
                return None;
            },
        };
        i = i + 1;
    }
    proof {
        assert(dv.skip(dv.len() as int) =~= Seq::<Seq<char>>::empty());
    }
    Some(scan_lines(lines, syntax))
}

/// The file's first line, the one the shebang probe reads, if the file
/// has any line at all.
pub open spec fn spec_first_line(lines: Seq<Seq<char>>) -> Option<Seq<char>> {
    if lines.len() > 0 {
        Some(lines[0])
    } else {
        None
    }
}

/// The statistics owed for a readable, non-binary file at `path` whose
/// raw lines are `lines`: language detection, syntax resolution, then the
/// line scan.
pub open spec fn spec_process(path: Seq<char>, lines: Seq<Seq<char>>) -> StatsView {
    let lang = spec_detect_language(path, spec_first_line(lines));
    let syn = spec_comment_syntax(lang, lines);
    spec_scan(lines, syn)
}

/// Produce the statistics for one file: a binary file (any null byte in
/// its leading sample) contributes exactly zero; otherwise the language
/// is detected from first line and path, its comment syntax resolved, and
/// the lines scanned from a fresh state.
pub fn process_file(path: &str, sample: &Vec<u8>, lines: &Vec<String>) -> (r: Stats)
    requires
        !sample@.contains(0u8) ==> spec_process(path@, lines.deep_view()).bytes <= usize::MAX,
    ensures
        sample@.contains(0u8) ==> r@ == sv_zero(),
        !sample@.contains(0u8) ==> r@ == spec_process(path@, lines.deep_view()),
{
    if is_binary_sample(sample) {
        return Stats::default();
    }
    let first_line: Option<&str> = if lines.len() > 0 {
        Some(lines[0].as_str())
    } else {
        None
    };
    let lang = detect_language(path, first_line);
    let syntax = detect_comment_syntax(lang.as_str(), lines);
    scan_lines(lines, &syntax)
}

/// Produce the statistics for one file as `process_file` does, but check
/// the byte-total bound at run time instead of demanding it up front:
/// `None` exactly when a non-binary file's byte total would not fit.
pub fn try_process_file(path: &str, sample: &Vec<u8>, lines: &Vec<String>) -> (r: Option<Stats>)
    ensures
        sample@.contains(0u8) ==> (r matches Some(s) && s@ == sv_zero()),
        !sample@.contains(0u8) ==> (r is Some <==> spec_process(path@, lines.deep_view()).bytes
            <= usize::MAX),
        !sample@.contains(0u8) ==> (r matches Some(s) ==> s@ == spec_process(
            path@,
            lines.deep_view(),
        )),
{
    if is_binary_sample(sample) {
        return Some(Stats::default());
    }
    let first_line: Option<&str> = if lines.len() > 0 {
        Some(lines[0].as_str())
    } else {
        None
    };
    let lang = detect_language(path, first_line);
    let syntax = detect_comment_syntax(lang.as_str(), lines);
    try_scan_lines(lines, &syntax)
}

} // verus!
