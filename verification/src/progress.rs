//! Aggregating per-layer pull events into one overall percentage.
//!
//! The engine never announces the total layer count up front, so the overall
//! percentage is an estimate: the pull phase owns the 30%–80% band of the
//! progress scale, each layer seen so far owns an equal slice of that band,
//! and a layer's byte counts fill its slice proportionally.  The estimate can
//! regress when a new layer is discovered after others have completed — the
//! band cap and floor are the stated guarantee, not monotonicity.

use crate::records::{ByteProgress, ProgressUpdate, ProgressUpdateModel, PullEvent, PullEventModel};
use crate::strutil::{decimal_of, str_eq, u64_to_decimal};
use vstd::arithmetic::div_mod::{lemma_div_nonincreasing, lemma_div_pos_is_pos};
use vstd::arithmetic::mul::{lemma_mul_strictly_positive, lemma_mul_upper_bound};
use vstd::prelude::*;
use vstd::string::*;

verus! {

/// Specification model of a [`PullProgressAggregator`]: the distinct layer
/// ids seen so far, and how many completion statuses have been counted.
#[verifier::ext_equal]
pub struct AggregatorModel {
    pub seen: Seq<Seq<char>>,
    pub completed: u32,
}

/// The status lines that mark a layer as finished.
pub open spec fn completion_status(s: Seq<char>) -> bool {
    s == "Download complete"@ || s == "Pull complete"@
}

/// Counter increment that stops at the numeric limit instead of wrapping.
pub open spec fn saturating_bump(c: u32) -> u32 {
    if c < u32::MAX {
        (c + 1) as u32
    } else {
        c
    }
}

/// The layer ids seen after one event: an unseen id is appended, everything
/// else leaves the record unchanged.
pub open spec fn seen_after(m: AggregatorModel, e: PullEventModel) -> Seq<Seq<char>> {
    match e.layer_id {
        Some(id) => if m.seen.contains(id) {
            m.seen
        } else {
            m.seen.push(id)
        },
        None => m.seen,
    }
}

/// The completion count after one event.
pub open spec fn completed_after(m: AggregatorModel, e: PullEventModel) -> u32 {
    match e.status {
        Some(s) => if completion_status(s) {
            saturating_bump(m.completed)
        } else {
            m.completed
        },
        None => m.completed,
    }
}

/// The estimated overall percentage, in hundredths, while pulling: the pull
/// phase starts at 30%, completed layers contribute equal slices of the
/// 50-point band, the current layer contributes its byte fraction of one
/// slice, and the whole estimate is capped at 80%.
pub open spec fn pull_percent(completed: nat, seen: nat, current: nat, total: nat) -> nat
    recommends
        seen > 0,
        total > 0,
{
    let raw = 3000 + completed * 5000 / seen + current * 5000 / (total * seen);
    if raw > 8000 {
        8000 as nat
    } else {
        raw
    }
}

/// The status line accompanying a numeric pull update.
pub open spec fn pulling_message(current: nat, total: nat) -> Seq<char> {
    "Pulling: "@ + decimal_of(current) + " of "@ + decimal_of(total)
}

/// What one event makes the aggregator emit: a numeric update exactly when
/// the event carries byte counts, at least one layer is on record, and the
/// reported total is not zero.
pub open spec fn emitted(m: AggregatorModel, e: PullEventModel) -> Option<ProgressUpdateModel> {
    match e.progress {
        Some(bp) => {
            let seen = seen_after(m, e);
            if seen.len() > 0 && bp.total > 0 {
                Some(
                    ProgressUpdateModel {
                        message: pulling_message(bp.current as nat, bp.total as nat),
                        percent_hundredths: pull_percent(
                            m.completed as nat,
                            seen.len(),
                            bp.current as nat,
                            bp.total as nat,
                        ) as u32,
                    },
                )
            } else {
                None
            }
        },
        None => None,
    }
}

/// Computes [`pull_percent`] without overflow.
pub fn compute_pull_percent(completed: u32, seen: usize, current: u64, total: u64) -> (p: u32)
    requires
        seen > 0,
        total > 0,
    ensures
        p as nat == pull_percent(completed as nat, seen as nat, current as nat, total as nat),
{
    proof {
        lemma_mul_upper_bound(completed as int, u32::MAX as int, 5000, 5000);
        lemma_mul_upper_bound(current as int, u64::MAX as int, 5000, 5000);
        lemma_mul_upper_bound(total as int, u64::MAX as int, seen as int, u64::MAX as int);
        lemma_mul_strictly_positive(total as int, seen as int);
    }
    let completed_scaled: u128 = (completed as u128) * 5000;
    let layer_scaled: u128 = (current as u128) * 5000;
    let denom: u128 = (total as u128) * (seen as u128);
    proof {
        lemma_div_nonincreasing(completed_scaled as int, seen as int);
        lemma_div_nonincreasing(layer_scaled as int, denom as int);
    }
    let completed_part: u128 = completed_scaled / (seen as u128);
    let layer_part: u128 = layer_scaled / denom;
    let raw: u128 = 3000 + completed_part + layer_part;
    let capped: u128 = if raw > 8000 {
        8000
    } else {
        raw
    };
    capped as u32
}

/// Builds the status line for a numeric pull update.
fn pulling_message_exec(current: u64, total: u64) -> (m: String)
    ensures
        m@ == pulling_message(current as nat, total as nat),
{
    let mut s = String::from_str("Pulling: ");
    let c = u64_to_decimal(current);
    s.append(c.as_str());
    s.append(" of ");
    let t = u64_to_decimal(total);
    s.append(t.as_str());
    proof {
        assert(s@ =~= pulling_message(current as nat, total as nat));
    }
    s
}

/// Turns the engine's per-layer pull events into numeric progress updates.
pub struct PullProgressAggregator {
    seen: Vec<String>,
    completed: u32,
}

impl View for PullProgressAggregator {
    type V = AggregatorModel;

    closed spec fn view(&self) -> AggregatorModel {
        AggregatorModel { seen: self.seen.deep_view(), completed: self.completed }
    }
}

/// A sequence of layer ids without repetition.
pub open spec fn distinct_ids(s: Seq<Seq<char>>) -> bool {
    forall|i: int, j: int| 0 <= i < j < s.len() ==> #[trigger] s[i] != #[trigger] s[j]
}

impl PullProgressAggregator {
    /// The recorded layer ids are distinct, so their count is the number of
    /// distinct layers the stream has announced.
    pub open spec fn wf(self) -> bool {
        distinct_ids(self@.seen)
    }

    /// A fresh aggregator: no layers seen, none completed.
    pub fn new() -> (a: PullProgressAggregator)
        ensures
            a@ == (AggregatorModel { seen: Seq::empty(), completed: 0 }),
            a.wf(),
    {
        let a = PullProgressAggregator { seen: Vec::new(), completed: 0 };
        proof {
            assert(a@.seen =~= Seq::<Seq<char>>::empty());
        }
        a
    }

    /// Whether a layer id is already on record.
    fn seen_contains(&self, id: &String) -> (r: bool)
        ensures
            r == self@.seen.contains(id@),
    {
        let n = self.seen.len();
        let mut i: usize = 0;
        while i < n
            invariant
                i <= n,
                n == self.seen@.len(),
                forall|j: int| 0 <= j < i ==> #[trigger] self@.seen[j] != id@,
            decreases n - i,
        {
            if str_eq(self.seen[i].as_str(), id.as_str()) {
                proof {
                    assert(self@.seen[i as int] == id@);
                }
                return true;
            }
            i = i + 1;
        }
        false
    }

    /// Digests one pull event: records an unseen layer id, emits a numeric
    /// update when the event carries byte counts and the proportional
    /// computation is well defined, and counts completion statuses.
    pub fn feed(&mut self, event: &PullEvent) -> (r: Option<ProgressUpdate>)
        requires
            old(self).wf(),
        ensures
            final(self).wf(),
            final(self)@.seen == seen_after(old(self)@, event@),
            final(self)@.completed == completed_after(old(self)@, event@),
            r.deep_view() == emitted(old(self)@, event@),
    {
        if let Some(id) = &event.layer_id {
            if !self.seen_contains(id) {
                self.seen.push(id.clone());
                proof {
                    assert(self@.seen =~= old(self)@.seen.push(id@));
                }
            }
        }
        proof {
            assert(self@.seen == seen_after(old(self)@, event@));
        }
        let r: Option<ProgressUpdate> = match &event.progress {
            Some(bp) => {
                if self.seen.len() > 0 && bp.total > 0 {
                    let pct = compute_pull_percent(
                        self.completed,
                        self.seen.len(),
                        bp.current,
                        bp.total,
                    );
                    let msg = pulling_message_exec(bp.current, bp.total);
                    Some(ProgressUpdate { message: msg, percent_hundredths: pct })
                } else {
                    None
                }
            },
            None => None,
        };
        if let Some(s) = &event.status {
            if str_eq(s.as_str(), "Download complete") || str_eq(s.as_str(), "Pull complete") {
                if self.completed < u32::MAX {
                    self.completed = self.completed + 1;
                }
            }
        }
        r
    }
}

/// While pulling, the estimated percentage always lies within the 30%–80%
/// band.
pub proof fn lemma_pull_percent_in_band(completed: nat, seen: nat, current: nat, total: nat)
    requires
        seen > 0,
        total > 0,
    ensures
        3000 <= pull_percent(completed, seen, current, total) <= 8000,
{
    vstd::arithmetic::mul::lemma_mul_strictly_positive(total as int, seen as int);
    lemma_div_pos_is_pos((completed * 5000) as int, seen as int);
    lemma_div_pos_is_pos((current * 5000) as int, (total * seen) as int);
}

/// Every numeric update the aggregator emits carries a percentage within the
/// 30%–80% band.
pub proof fn lemma_emitted_in_band(m: AggregatorModel, e: PullEventModel)
    ensures
        emitted(m, e) is Some ==> 3000 <= emitted(m, e)->0.percent_hundredths <= 8000,
{
    if emitted(m, e) is Some {
        let bp = e.progress->0;
        lemma_pull_percent_in_band(
            m.completed as nat,
            seen_after(m, e).len(),
            bp.current as nat,
            bp.total as nat,
        );
    }
}

/// While no layer is on record, an event without a layer id never produces a
/// numeric update: the proportional computation is skipped, not attempted.
pub proof fn lemma_no_layers_no_update(m: AggregatorModel, e: PullEventModel)
    requires
        m.seen.len() == 0,
        e.layer_id is None,
    ensures
        emitted(m, e) is None,
{
}

} // verus!
