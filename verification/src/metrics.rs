//! The metrics aggregator: a pure reduction of the stored metric samples into
//! integer totals. The floating-point ratios built on these totals — mean
//! generation time, efficiency and resolution percentages — are computed by
//! the embedding layer from the totals and the listed samples.

use vstd::prelude::*;

use crate::model::MetricData;

verus! {

/// Sum of the machine-generated line counts of the first `n` samples.
pub open spec fn sum_ai_lines(s: Seq<MetricData>, n: int) -> int
    decreases n,
{
    if n <= 0 {
        0
    } else {
        sum_ai_lines(s, n - 1) + s[n - 1].ai_lines_of_code
    }
}

/// Sum of the hand-written line counts of the first `n` samples.
pub open spec fn sum_manual_lines(s: Seq<MetricData>, n: int) -> int
    decreases n,
{
    if n <= 0 {
        0
    } else {
        sum_manual_lines(s, n - 1) + s[n - 1].manual_lines_of_code
    }
}

/// Sum of the review-comment counts of the first `n` samples.
pub open spec fn sum_reviews(s: Seq<MetricData>, n: int) -> int
    decreases n,
{
    if n <= 0 {
        0
    } else {
        sum_reviews(s, n - 1) + s[n - 1].review_comments_count
    }
}

/// Sum of the resolved-comment counts of the first `n` samples.
pub open spec fn sum_resolved(s: Seq<MetricData>, n: int) -> int
    decreases n,
{
    if n <= 0 {
        0
    } else {
        sum_resolved(s, n - 1) + s[n - 1].resolved_comments_count
    }
}

/// The integer totals of a metric summary: the session count and the four
/// sums the percentage figures are built from.
#[derive(Clone, Copy, Debug, PartialEq, Eq, Structural)]
pub struct MetricsSummary {
    pub total_sessions: usize,
    pub total_ai_lines: u128,
    pub total_manual_lines: u128,
    pub total_reviews: u128,
    pub total_resolved: u128,
}

/// Reduces the samples to their totals. An empty input yields all zeroes.
pub fn summarize_metrics(ms: &Vec<MetricData>) -> (r: MetricsSummary)
    ensures
        r.total_sessions == ms@.len(),
        r.total_ai_lines as int == sum_ai_lines(ms@, ms@.len() as int),
        r.total_manual_lines as int == sum_manual_lines(ms@, ms@.len() as int),
        r.total_reviews as int == sum_reviews(ms@, ms@.len() as int),
        r.total_resolved as int == sum_resolved(ms@, ms@.len() as int),
{
    let n = ms.len();
    let mut ai: u128 = 0;
    let mut manual: u128 = 0;
    let mut reviews: u128 = 0;
    let mut resolved: u128 = 0;
    let mut i: usize = 0;
    while i < n
        invariant
            i <= n,
            n == ms@.len(),
            ai as int == sum_ai_lines(ms@, i as int),
            manual as int == sum_manual_lines(ms@, i as int),
            reviews as int == sum_reviews(ms@, i as int),
            resolved as int == sum_resolved(ms@, i as int),
            ai as int <= i as int * 0xffff_ffff,
            manual as int <= i as int * 0xffff_ffff,
            reviews as int <= i as int * 0xffff_ffff,
            resolved as int <= i as int * 0xffff_ffff,
        decreases n - i,
    {
        let m = &ms[i];
        ai = ai + m.ai_lines_of_code as u128;
        manual = manual + m.manual_lines_of_code as u128;
        reviews = reviews + m.review_comments_count as u128;
        resolved = resolved + m.resolved_comments_count as u128;
        i = i + 1;
    }
    MetricsSummary {
        total_sessions: n,
        total_ai_lines: ai,
        total_manual_lines: manual,
        total_reviews: reviews,
        total_resolved: resolved,
    }
}

} // verus!
