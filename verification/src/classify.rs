//! Classification of a symbol's match quality into a discrete category.

use vstd::prelude::*;

verus! {

/// One hundred percent, in hundredths of a percent.
pub const FULL_MATCH: u32 = 10000;

/// The boundary between a good and a poor match, in hundredths of a percent.
pub const GOOD_MATCH: u32 = 5000;

/// A match-quality score, stored as hundredths of a percent so that the
/// whole range 0.00% ..= 100.00% fits in an integer.
#[derive(Clone, Copy, Debug)]
pub struct MatchPercent {
    pub hundredths: u32,
}

impl MatchPercent {
    /// A score never exceeds one hundred percent.
    pub open spec fn wf(self) -> bool {
        self.hundredths <= FULL_MATCH
    }

    /// Builds a score from hundredths of a percent, refusing out-of-range
    /// values.
    pub fn new(hundredths: u32) -> (r: Option<MatchPercent>)
        ensures
            r is Some <==> hundredths <= FULL_MATCH,
            r matches Some(p) ==> p.hundredths == hundredths && p.wf(),
    {
        if hundredths <= FULL_MATCH {
            Some(MatchPercent { hundredths })
        } else {
            None
        }
    }
}

/// The discrete category a match-quality score falls into.
#[derive(Clone, Copy, Debug, PartialEq, Eq, Structural)]
pub enum MatchCategory {
    Perfect,
    Good,
    Poor,
    Unknown,
}

/// What `classify` returns: `Unknown` for an absent score, `Perfect` at
/// exactly one hundred percent, `Good` from fifty percent up, `Poor` below.
pub open spec fn classify_spec(match_percent: Option<MatchPercent>) -> MatchCategory {
    match match_percent {
        None => MatchCategory::Unknown,
        Some(p) => if p.hundredths == FULL_MATCH {
            MatchCategory::Perfect
        } else if p.hundredths >= GOOD_MATCH {
            MatchCategory::Good
        } else {
            MatchCategory::Poor
        },
    }
}

/// Maps a match-quality score to its category: `Unknown` iff no score was
/// computed, `Perfect` iff the score is exactly 100%, `Good` iff it lies in
/// [50%, 100%), `Poor` iff it lies below 50%.
pub fn classify(match_percent: Option<MatchPercent>) -> (c: MatchCategory)
    ensures
        c == classify_spec(match_percent),
{
    match match_percent {
        None => MatchCategory::Unknown,
        Some(p) => {
            if p.hundredths == FULL_MATCH {
                MatchCategory::Perfect
            } else if p.hundredths >= GOOD_MATCH {
                MatchCategory::Good
            } else {
                MatchCategory::Poor
            }
        },
    }
}

} // verus!
