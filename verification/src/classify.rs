//! The per-line classification state machine: a line is a comment or not,
//! and a one-bit "inside block comment" state is carried from line to line
//! within a single file.

use vstd::prelude::*;
use crate::syntax::{CommentSyntax, SyntaxView};
use crate::text::{seq_contains, str_contains, str_starts_with};

verus! {

/// Whether a (trimmed) line counts as a comment, given the block state at
/// its start. Inside a block everything is a comment; outside, a line that
/// begins with the block-start or the line marker is one.
pub open spec fn spec_is_comment(line: Seq<char>, syn: SyntaxView, in_block: bool) -> bool {
    if in_block {
        true
    } else {
        let block_hit = match syn.block_start {
            Some(bs) => bs.is_prefix_of(line),
            None => false,
        };
        let line_hit = match syn.line {
            Some(lc) => lc.is_prefix_of(line),
            None => false,
        };
        block_hit || line_hit
    }
}

/// The block state after classifying a (trimmed) line. A block is left as
/// soon as the end marker occurs anywhere in the line, and entered when a
/// line begins with the start marker; a line that both closes and reopens
/// a block is not treated specially, only closing is checked.
pub open spec fn spec_next_in_block(line: Seq<char>, syn: SyntaxView, in_block: bool) -> bool {
    if in_block {
        !(match syn.block_end {
            Some(be) => seq_contains(line, be),
            None => false,
        })
    } else {
        match syn.block_start {
            Some(bs) => bs.is_prefix_of(line),
            None => false,
        }
    }
}

/// Classify one line, already trimmed of surrounding whitespace, and
/// advance the block-comment state. The line markers are matched as
/// prefixes of the trimmed line; the block-end marker as a substring, so a
/// block can close mid-line.
pub fn is_pure_comment(line: &str, syntax: &CommentSyntax, in_block_comment: &mut bool) -> (r:
    bool)
    ensures
        r == spec_is_comment(line@, syntax@, *old(in_block_comment)),
        *final(in_block_comment) == spec_next_in_block(line@, syntax@, *old(in_block_comment)),
{
    if *in_block_comment {
        if let Some(end) = &syntax.block_end {
            if str_contains(line, end.as_str()) {
                *in_block_comment = false;
            }
        }
        return true;
    }
    if let Some(start) = &syntax.block_start {
        if str_starts_with(line, start.as_str()) {
            *in_block_comment = true;
            return true;
        }
    }
    if let Some(marker) = &syntax.line {
        if str_starts_with(line, marker.as_str()) {
            return true;
        }
    }
    false
}

} // verus!
