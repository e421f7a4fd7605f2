//! Host-telemetry helpers: the disk-space record reported to the front end,
//! and the scan that picks a usage figure out of a monitoring tool's text
//! output.

use crate::strutil::{contains_seq, contains_str, split_on, split_str, split_tokens, ws_tokens};
use vstd::prelude::*;
use vstd::string::*;

verus! {

/// Space figures for one disk, as reported to the front end.
#[derive(Clone, Debug)]
pub struct DiskInfo {
    pub name: String,
    pub total_space: u64,
    pub available_space: u64,
}

/// `i` is the position of the first line that contains the marker.
pub open spec fn is_first_containing(lines: Seq<Seq<char>>, marker: Seq<char>, i: int) -> bool {
    &&& 0 <= i < lines.len()
    &&& contains_seq(lines[i], marker)
    &&& forall|j: int| 0 <= j < i ==> !contains_seq(#[trigger] lines[j], marker)
}

/// At most one position is the first marker-carrying line.
pub proof fn lemma_first_containing_unique(
    lines: Seq<Seq<char>>,
    marker: Seq<char>,
    i1: int,
    i2: int,
)
    requires
        is_first_containing(lines, marker, i1),
        is_first_containing(lines, marker, i2),
    ensures
        i1 == i2,
{
}

/// The usage figure in a monitoring tool's output: the second blank-separated
/// token of the first line that contains the marker, if both exist.
pub open spec fn usage_token_spec(output: Seq<char>, marker: Seq<char>) -> Option<Seq<char>> {
    let lines = split_on(output, '\n');
    if exists|i: int| is_first_containing(lines, marker, i) {
        let i = choose|i: int| is_first_containing(lines, marker, i);
        let toks = ws_tokens(lines[i]);
        if toks.len() >= 2 {
            Some(toks[1])
        } else {
            None
        }
    } else {
        None
    }
}

/// Scans a tool's output for the first line containing the marker and
/// returns that line's second blank-separated token.
pub fn usage_token(output: &str, marker: &str) -> (r: Option<String>)
    ensures
        r.deep_view() == usage_token_spec(output@, marker@),
{
    let ghost lns = split_on(output@, '\n');
    let lines = split_str(output, '\n');
    let n = lines.len();
    let mut i: usize = 0;
    while i < n
        invariant
            i <= n,
            n == lines@.len(),
            lines.deep_view() == lns,
            lns == split_on(output@, '\n'),
            forall|j: int| 0 <= j < i ==> !contains_seq(#[trigger] lns[j], marker@),
        decreases n - i,
    {
        proof {
            assert(lines.deep_view()[i as int] == lines@[i as int]@);
        }
        if contains_str(lines[i].as_str(), marker) {
            proof {
                assert(is_first_containing(lns, marker@, i as int));
                lemma_first_containing_unique(
                    lns,
                    marker@,
                    i as int,
                    choose|k: int| is_first_containing(lns, marker@, k),
                );
            }
            let toks = split_tokens(lines[i].as_str());
            if toks.len() >= 2 {
                let tok = toks[1].clone();
                proof {
                    assert(tok@ == toks.deep_view()[1]);
                }
                return Some(tok);
            } else {
                return None;
            }
        }
        i = i + 1;
    }
    None
}

} // verus!
