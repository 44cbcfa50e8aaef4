//! The library's general laws, stated and proved over the same spec
//! functions that the executable contracts use.

use vstd::prelude::*;
use crate::infer::{lemma_best_of_range, spec_candidates, spec_counts};
use crate::lang::{lower_seq, spec_detect_language, spec_extension};
use crate::scan::{spec_scan, spec_scan_from};
use crate::stats::{sv_add, sv_zero, StatsView};
use crate::syntax::{spec_comment_syntax, syntax_wf, SyntaxView};

verus! {

/// Language detection is a pure function of first line and path: two
/// detections from the same inputs always agree, however often the file
/// is probed.
pub proof fn lemma_detect_language_idempotent(
    path: Seq<char>,
    first_line: Option<Seq<char>>,
    r1: Seq<char>,
    r2: Seq<char>,
)
    requires
        r1 == spec_detect_language(path, first_line),
        r2 == spec_detect_language(path, first_line),
    ensures
        r1 == r2,
{
}

/// A detected language identifier is never empty: every shebang and
/// table result is a fixed non-empty token, an unmapped extension names
/// the language only when the extension itself is non-empty, and with
/// neither source the identifier is `unknown`.
pub proof fn lemma_language_identifier_nonempty(path: Seq<char>, first_line: Option<Seq<char>>)
    ensures
        spec_detect_language(path, first_line).len() > 0,
{
    reveal_strlit("python");
    reveal_strlit("perl");
    reveal_strlit("ruby");
    reveal_strlit("shell");
    reveal_strlit("javascript");
    reveal_strlit("php");
    reveal_strlit("lua");
    reveal_strlit("awk");
    reveal_strlit("tcl");
    reveal_strlit("rust");
    reveal_strlit("c");
    reveal_strlit("cpp");
    reveal_strlit("typescript");
    reveal_strlit("java");
    reveal_strlit("css");
    reveal_strlit("html");
    reveal_strlit("xml");
    reveal_strlit("go");
    reveal_strlit("scala");
    reveal_strlit("kotlin");
    reveal_strlit("sql");
    reveal_strlit("batch");
    reveal_strlit("vb");
    reveal_strlit("jsp");
    reveal_strlit("vala");
    reveal_strlit("tex");
    reveal_strlit("text");
    reveal_strlit("yaml");
    reveal_strlit("config");
    reveal_strlit("unknown");
    match spec_extension(path) {
        Some(ext) => {
            assert(lower_seq(ext).len() == ext.len());
        },
        None => {},
    }
}

/// A resolved comment syntax is always well formed: its block markers are
/// paired, both present or both absent, whether it came from the table or
/// from content inference.
pub proof fn lemma_comment_syntax_well_formed(lang: Seq<char>, lines: Seq<Seq<char>>)
    ensures
        syntax_wf(spec_comment_syntax(lang, lines)),
{
    lemma_best_of_range(spec_counts(lines), spec_candidates().len() as int);
    assert(syntax_wf(spec_candidates()[0]));
    assert(syntax_wf(spec_candidates()[1]));
    assert(syntax_wf(spec_candidates()[2]));
    assert(syntax_wf(spec_candidates()[3]));
    assert(syntax_wf(spec_candidates()[4]));
    assert(syntax_wf(spec_candidates()[5]));
    assert(syntax_wf(spec_candidates()[6]));
    assert(syntax_wf(spec_candidates()[7]));
    assert(syntax_wf(spec_candidates()[8]));
}

/// Field-wise addition of statistics is commutative.
pub proof fn lemma_add_stats_commutes(a: StatsView, b: StatsView)
    ensures
        sv_add(a, b) == sv_add(b, a),
{
}

/// Field-wise addition of statistics is associative.
pub proof fn lemma_add_stats_associates(a: StatsView, b: StatsView, c: StatsView)
    ensures
        sv_add(sv_add(a, b), c) == sv_add(a, sv_add(b, c)),
{
}

/// The zero record is the identity of addition.
pub proof fn lemma_add_stats_zero(a: StatsView)
    ensures
        sv_add(sv_zero(), a) == a,
        sv_add(a, sv_zero()) == a,
{
}

/// The fold of a sequence of per-file records into one total.
pub open spec fn sv_sum(s: Seq<StatsView>) -> StatsView
    decreases s.len(),
{
    if s.len() == 0 {
        sv_zero()
    } else {
        sv_add(s[0], sv_sum(s.drop_first()))
    }
}

/// The aggregation law: however a collection of per-file records is
/// partitioned into two groups, summing the groups separately and adding
/// the two sums gives the sum of the whole.
pub proof fn lemma_sum_partition(g1: Seq<StatsView>, g2: Seq<StatsView>)
    ensures
        sv_add(sv_sum(g1), sv_sum(g2)) == sv_sum(g1 + g2),
    decreases g1.len(),
{
    if g1.len() == 0 {
        assert(g1 + g2 =~= g2);
    } else {
        lemma_sum_partition(g1.drop_first(), g2);
        assert((g1 + g2).drop_first() =~= g1.drop_first() + g2);
        assert((g1 + g2)[0] == g1[0]);
    }
}

/// The statistics of a sequence of files scanned one after the other,
/// each from its own fresh classification state.
pub open spec fn spec_scan_files(files: Seq<Seq<Seq<char>>>, syn: SyntaxView) -> StatsView
    decreases files.len(),
{
    if files.len() == 0 {
        sv_zero()
    } else {
        sv_add(spec_scan(files[0], syn), spec_scan_files(files.drop_first(), syn))
    }
}

/// Block-comment state never leaks across files: scanning file `a` and
/// then file `b` gives each file the statistics of a scan begun outside
/// any block, even when `a` ends in the middle of one.
pub proof fn lemma_block_state_isolation(a: Seq<Seq<char>>, b: Seq<Seq<char>>, syn: SyntaxView)
    ensures
        spec_scan_files(seq![a, b], syn) == sv_add(
            spec_scan_from(a, syn, false),
            spec_scan_from(b, syn, false),
        ),
{
    let fs = seq![a, b];
    assert(fs[0] == a);
    assert(fs.drop_first() =~= seq![b]);
    assert(seq![b][0] == b);
    assert(seq![b].drop_first() =~= Seq::<Seq<Seq<char>>>::empty());
    assert(spec_scan_files(Seq::<Seq<Seq<char>>>::empty(), syn) == sv_zero());
    assert(spec_scan_files(seq![b], syn) == sv_add(spec_scan(b, syn), sv_zero()));
    lemma_add_stats_zero(spec_scan(b, syn));
}

} // verus!
