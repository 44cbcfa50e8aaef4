//! The per-file statistics record and its arithmetic: five counters that
//! are folded with field-wise addition when files roll up into directory
//! and global totals.

use vstd::prelude::*;

verus! {

/// Counters for one file or one aggregate: non-blank non-comment lines,
/// total lines, words, characters and bytes.
#[derive(Clone, Copy, Debug, PartialEq, Eq, Structural)]
pub struct Stats {
    pub actual_loc: usize,
    pub raw_loc: usize,
    pub words: usize,
    pub chars: usize,
    pub bytes: usize,
}

/// The mathematical image of a `Stats`: the five counters as naturals.
pub struct StatsView {
    pub actual_loc: nat,
    pub raw_loc: nat,
    pub words: nat,
    pub chars: nat,
    pub bytes: nat,
}

impl View for Stats {
    type V = StatsView;

    open spec fn view(&self) -> StatsView {
        StatsView {
            actual_loc: self.actual_loc as nat,
            raw_loc: self.raw_loc as nat,
            words: self.words as nat,
            chars: self.chars as nat,
            bytes: self.bytes as nat,
        }
    }
}

/// The all-zero record, the identity of `sv_add`.
pub open spec fn sv_zero() -> StatsView {
    StatsView { actual_loc: 0, raw_loc: 0, words: 0, chars: 0, bytes: 0 }
}

/// Field-wise addition of two records.
pub open spec fn sv_add(a: StatsView, b: StatsView) -> StatsView {
    StatsView {
        actual_loc: a.actual_loc + b.actual_loc,
        raw_loc: a.raw_loc + b.raw_loc,
        words: a.words + b.words,
        chars: a.chars + b.chars,
        bytes: a.bytes + b.bytes,
    }
}

impl Default for Stats {
    /// A fresh all-zero record.
    fn default() -> (r: Stats)
        ensures
            r@ == sv_zero(),
    {
        Stats { actual_loc: 0, raw_loc: 0, words: 0, chars: 0, bytes: 0 }
    }
}

/// Field-wise addition of two records, the fold used to aggregate files
/// into directory and global totals.
pub fn add_stats(a: Stats, b: Stats) -> (r: Stats)
    requires
        a@.actual_loc + b@.actual_loc <= usize::MAX,
        a@.raw_loc + b@.raw_loc <= usize::MAX,
        a@.words + b@.words <= usize::MAX,
        a@.chars + b@.chars <= usize::MAX,
        a@.bytes + b@.bytes <= usize::MAX,
    ensures
        r@ == sv_add(a@, b@),
{
    Stats {
        actual_loc: a.actual_loc + b.actual_loc,
        raw_loc: a.raw_loc + b.raw_loc,
        words: a.words + b.words,
        chars: a.chars + b.chars,
        bytes: a.bytes + b.bytes,
    }
}

/// Whether a leading sample of a file marks it as binary: any null byte
/// does.
pub fn is_binary_sample(sample: &Vec<u8>) -> (r: bool)
    ensures
        r == sample@.contains(0u8),
{
    let mut i: usize = 0;
    while i < sample.len()
        invariant
            i <= sample@.len(),
            forall|j: int| 0 <= j < i ==> sample@[j] != 0u8,
        decreases sample@.len() - i,
    {
        if sample[i] == 0 {
            return true;
        }
        i = i + 1;
    }
    false
}

} // verus!
