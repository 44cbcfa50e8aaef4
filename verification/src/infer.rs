//! Statistical inference of a comment syntax from file content: each of a
//! fixed list of candidate syntaxes is run over the file with the ordinary
//! line classifier, and the candidate that classifies the most lines as
//! comments wins, earlier candidates winning ties.

use vstd::prelude::*;
use crate::classify::{is_pure_comment, spec_is_comment, spec_next_in_block};
use crate::syntax::{
    c_like_syntax, empty_syntax, hash_syntax, markup_syntax, CommentSyntax, SyntaxView,
};
use crate::text::{spec_trim, trim_str};

verus! {

/// The fixed candidate list, in priority order for ties.
pub open spec fn spec_candidates() -> Seq<SyntaxView> {
    seq![
        c_like_syntax(),
        hash_syntax(),
        SyntaxView { line: Some("--"@), block_start: Some("/*"@), block_end: Some("*/"@) },
        markup_syntax(),
        SyntaxView { line: None, block_start: Some("/*"@), block_end: Some("*/"@) },
        SyntaxView { line: Some("%"@), block_start: None, block_end: None },
        SyntaxView { line: Some("!"@), block_start: None, block_end: None },
        SyntaxView { line: Some("REM"@), block_start: None, block_end: None },
        SyntaxView { line: Some("'"@), block_start: None, block_end: None },
    ]
}

/// How many of `lines` the classifier calls comments under `syn`,
/// threading the block state from `in_block` onward. Each line is trimmed
/// before classification, exactly as the scanner trims it.
pub open spec fn spec_match_count(lines: Seq<Seq<char>>, syn: SyntaxView, in_block: bool) -> nat
    decreases lines.len(),
{
    if lines.len() == 0 {
        0
    } else {
        let t = spec_trim(lines[0]);
        (if spec_is_comment(t, syn, in_block) {
            1nat
        } else {
            0nat
        }) + spec_match_count(lines.drop_first(), syn, spec_next_in_block(t, syn, in_block))
    }
}

/// The match count of every candidate against `lines`, each starting
/// outside any block.
pub open spec fn spec_counts(lines: Seq<Seq<char>>) -> Seq<nat> {
    Seq::new(
        spec_candidates().len(),
        |i: int| spec_match_count(lines, spec_candidates()[i], false),
    )
}

/// The index of the maximum among the first `k` counts, the earliest index
/// winning ties.
pub open spec fn spec_best_of(counts: Seq<nat>, k: int) -> int
    decreases k,
{
    if k <= 1 {
        0
    } else {
        let b = spec_best_of(counts, k - 1);
        if counts[k - 1] > counts[b] {
            k - 1
        } else {
            b
        }
    }
}

pub proof fn lemma_best_of_range(counts: Seq<nat>, k: int)
    requires
        1 <= k,
    ensures
        0 <= spec_best_of(counts, k) < k,
    decreases k,
{
    if k > 1 {
        lemma_best_of_range(counts, k - 1);
    }
}

/// The syntax inferred from `lines`: the best-matching candidate, or the
/// empty syntax when no candidate matches any line at all.
pub open spec fn spec_infer(lines: Seq<Seq<char>>) -> SyntaxView {
    let counts = spec_counts(lines);
    let b = spec_best_of(counts, counts.len() as int);
    if counts[b] == 0 {
        empty_syntax()
    } else {
        spec_candidates()[b]
    }
}

/// Count the lines of the file that the classifier would call comments
/// under `syntax`, starting outside any block.
pub fn count_matches(lines: &Vec<String>, syntax: &CommentSyntax) -> (n: usize)
    ensures
        n as nat == spec_match_count(lines.deep_view(), syntax@, false),
{
    let ghost dv = lines.deep_view();
    let mut count: usize = 0;
    let mut in_block: bool = false;
    let mut i: usize = 0;
    proof {
        assert(dv.skip(0) =~= dv);
    }
    while i < lines.len()
        invariant
            i <= lines.len(),
            dv == lines.deep_view(),
            dv.len() == lines.len(),
            count <= i,
            spec_match_count(dv, syntax@, false) == count + spec_match_count(
                dv.skip(i as int),
                syntax@,
                in_block,
            ),
        decreases lines.len() - i,
    {
        proof {
            assert(dv.skip(i as int)[0] == dv[i as int]);
            assert(dv.skip(i as int).drop_first() =~= dv.skip(i + 1));
            assert(dv[i as int] == lines@[i as int]@);
        }
        let trimmed = trim_str(lines[i].as_str());
        let is_comment = is_pure_comment(trimmed, syntax, &mut in_block);
        if is_comment {
            count = count + 1;
        }
        i = i + 1;
    }
    count
}

/// Infer a comment syntax for a file of unknown language from its own
/// lines: run every candidate over the file and keep the one that explains
/// the most lines as comments, ties going to the earlier candidate; when
/// every count is zero, recognize no comments at all.
pub fn infer_comment_syntax_from_content(lines: &Vec<String>) -> (r: CommentSyntax)
    ensures
        r@ == spec_infer(lines.deep_view()),
{
    let ghost dv = lines.deep_view();
    let mut cands: Vec<CommentSyntax> = Vec::new();
    cands.push(
        CommentSyntax {
            line: Some("//".to_owned()),
            block_start: Some("/*".to_owned()),
            block_end: Some("*/".to_owned()),
        },
    );
    cands.push(CommentSyntax { line: Some("#".to_owned()), block_start: None, block_end: None });
    cands.push(
        CommentSyntax {
            line: Some("--".to_owned()),
            block_start: Some("/*".to_owned()),
            block_end: Some("*/".to_owned()),
        },
    );
    cands.push(
        CommentSyntax {
            line: None,
            block_start: Some("<!--".to_owned()),
            block_end: Some("-->".to_owned()),
        },
    );
    cands.push(
        CommentSyntax {
            line: None,
            block_start: Some("/*".to_owned()),
            block_end: Some("*/".to_owned()),
        },
    );
    cands.push(CommentSyntax { line: Some("%".to_owned()), block_start: None, block_end: None });
    cands.push(CommentSyntax { line: Some("!".to_owned()), block_start: None, block_end: None });
    cands.push(CommentSyntax { line: Some("REM".to_owned()), block_start: None, block_end: None });
    cands.push(CommentSyntax { line: Some("'".to_owned()), block_start: None, block_end: None });
    proof {
        assert(cands@.len() == spec_candidates().len());
        assert(forall|k: int|
            0 <= k < spec_candidates().len() ==> cands@[k]@ == #[trigger] spec_candidates()[k]);
    }
    let mut counts: Vec<usize> = Vec::new();
    let mut ci: usize = 0;
    while ci < cands.len()
        invariant
            ci <= cands.len(),
            dv == lines.deep_view(),
            cands@.len() == spec_candidates().len(),
            forall|k: int|
                0 <= k < spec_candidates().len() ==> cands@[k]@ == #[trigger] spec_candidates()[k],
            counts@.len() == ci,
            forall|k: int| 0 <= k < ci ==> counts@[k] as nat == #[trigger] spec_counts(dv)[k],
        decreases cands.len() - ci,
    {
        let n = count_matches(lines, &cands[ci]);
        counts.push(n);
        ci = ci + 1;
    }
    let mut best: usize = 0;
    let mut bi: usize = 1;
    proof {
        lemma_best_of_range(spec_counts(dv), spec_candidates().len() as int);
    }
    while bi < counts.len()
        invariant
            1 <= bi <= counts.len(),
            best < bi,
            dv == lines.deep_view(),
            cands@.len() == spec_candidates().len(),
            counts@.len() == spec_candidates().len(),
            forall|k: int|
                0 <= k < spec_candidates().len() ==> cands@[k]@ == #[trigger] spec_candidates()[k],
            forall|k: int|
                0 <= k < counts@.len() ==> counts@[k] as nat == #[trigger] spec_counts(dv)[k],
            best as int == spec_best_of(spec_counts(dv), bi as int),
        decreases counts.len() - bi,
    {
        if counts[bi] > counts[best] {
            best = bi;
        }
        bi = bi + 1;
    }
    if counts[best] == 0 {
        CommentSyntax { line: None, block_start: None, block_end: None }
    } else {
        cands.remove(best)
    }
}

} // verus!
