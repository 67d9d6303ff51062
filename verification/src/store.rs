//! The shared state store: the in-memory collections of captured comments,
//! derived training pairs, and metric samples. Every operation is a bounded
//! in-memory mutation or read; all collections preserve insertion order. The
//! embedding process wraps the store in its lock and holds that lock only for
//! the duration of one operation.

use vstd::prelude::*;

use crate::metrics::{
    sum_ai_lines, sum_manual_lines, sum_resolved, sum_reviews, summarize_metrics, MetricsSummary,
};
use crate::model::{MetricData, RAGReviewPair, ReviewComment};
use crate::rag::{parse_comment_to_rag, segment_spec};

verus! {

/// `p` is the training pair derived from comment `c`.
pub open spec fn pair_derived_from(p: RAGReviewPair, c: ReviewComment) -> bool {
    &&& p.source_comment == c
    &&& p.error_logic@ == segment_spec(c.content@).0
    &&& p.fix_suggestion@ == segment_spec(c.content@).1
}

/// `pairs` is exactly the derivation of `comments`: one pair per comment, in
/// order, each derived from its comment.
pub open spec fn derived_pairs_ok(comments: Seq<ReviewComment>, pairs: Seq<RAGReviewPair>) -> bool {
    &&& pairs.len() == comments.len()
    &&& forall|i: int|
        0 <= i < comments.len() ==> pair_derived_from(#[trigger] pairs[i], comments[i])
}

/// Law: deriving the training pairs after appending the comments `cs` to a
/// collection holding `c0` yields exactly one pair per comment, and the pair
/// standing where each appended comment stands is sourced from that comment
/// and carries its derivation.
pub proof fn lemma_pairs_after_append(
    c0: Seq<ReviewComment>,
    cs: Seq<ReviewComment>,
    pairs: Seq<RAGReviewPair>,
)
    requires
        derived_pairs_ok(c0 + cs, pairs),
    ensures
        pairs.len() == c0.len() + cs.len(),
        forall|i: int|
            0 <= i < cs.len() ==> pair_derived_from(#[trigger] pairs[c0.len() + i], cs[i]),
{
    assert forall|i: int|
        0 <= i < cs.len() implies pair_derived_from(#[trigger] pairs[c0.len() + i], cs[i]) by {
        assert((c0 + cs)[c0.len() + i] == cs[i]);
        assert(pair_derived_from(pairs[c0.len() + i], (c0 + cs)[c0.len() + i]));
    }
}

/// Returns a vector holding the same comments.
pub fn clone_comments(v: &Vec<ReviewComment>) -> (r: Vec<ReviewComment>)
    ensures
        r@ == v@,
{
    let n = v.len();
    let mut r: Vec<ReviewComment> = Vec::new();
    let mut i: usize = 0;
    while i < n
        invariant
            i <= n,
            n == v@.len(),
            r@ =~= v@.take(i as int),
        decreases n - i,
    {
        r.push(v[i].clone());
        proof {
            assert(r@ =~= v@.take(i as int + 1));
        }
        i = i + 1;
    }
    proof {
        assert(r@ =~= v@);
    }
    r
}

/// Returns a vector holding the same pairs.
pub fn clone_pairs(v: &Vec<RAGReviewPair>) -> (r: Vec<RAGReviewPair>)
    ensures
        r@ == v@,
{
    let n = v.len();
    let mut r: Vec<RAGReviewPair> = Vec::new();
    let mut i: usize = 0;
    while i < n
        invariant
            i <= n,
            n == v@.len(),
            r@ =~= v@.take(i as int),
        decreases n - i,
    {
        r.push(v[i].clone());
        proof {
            assert(r@ =~= v@.take(i as int + 1));
        }
        i = i + 1;
    }
    proof {
        assert(r@ =~= v@);
    }
    r
}

/// Returns a vector holding the same metric samples.
pub fn clone_metrics(v: &Vec<MetricData>) -> (r: Vec<MetricData>)
    ensures
        r@ == v@,
{
    let n = v.len();
    let mut r: Vec<MetricData> = Vec::new();
    let mut i: usize = 0;
    while i < n
        invariant
            i <= n,
            n == v@.len(),
            r@ =~= v@.take(i as int),
        decreases n - i,
    {
        r.push(v[i].clone());
        proof {
            assert(r@ =~= v@.take(i as int + 1));
        }
        i = i + 1;
    }
    proof {
        assert(r@ =~= v@);
    }
    r
}

/// The application state: the three collections the request handlers share.
/// One instance exists for the process lifetime.
pub struct AppState {
    pub comments: Vec<ReviewComment>,
    pub pairs: Vec<RAGReviewPair>,
    pub metrics: Vec<MetricData>,
}

impl AppState {
    /// A fresh store with all collections empty.
    pub fn new() -> (r: Self)
        ensures
            r.comments@ == Seq::<ReviewComment>::empty(),
            r.pairs@ == Seq::<RAGReviewPair>::empty(),
            r.metrics@ == Seq::<MetricData>::empty(),
    {
        AppState { comments: Vec::new(), pairs: Vec::new(), metrics: Vec::new() }
    }

    /// Appends one comment; nothing else changes, nothing is lost.
    pub fn add_review_comment(&mut self, comment: ReviewComment)
        ensures
            final(self).comments@ == old(self).comments@.push(comment),
            final(self).pairs@ == old(self).pairs@,
            final(self).metrics@ == old(self).metrics@,
    {
        self.comments.push(comment);
    }

    /// Appends every comment of `cs`, in order; duplicates accumulate, the
    /// merge never deduplicates.
    pub fn add_review_comments(&mut self, cs: &Vec<ReviewComment>)
        ensures
            final(self).comments@ == old(self).comments@ + cs@,
            final(self).pairs@ == old(self).pairs@,
            final(self).metrics@ == old(self).metrics@,
    {
        let n = cs.len();
        let mut i: usize = 0;
        while i < n
            invariant
                i <= n,
                n == cs@.len(),
                self.comments@ =~= old(self).comments@ + cs@.take(i as int),
                self.pairs@ == old(self).pairs@,
                self.metrics@ == old(self).metrics@,
            decreases n - i,
        {
            self.comments.push(cs[i].clone());
            proof {
                assert(self.comments@ =~= old(self).comments@ + cs@.take(i as int + 1));
            }
            i = i + 1;
        }
        proof {
            assert(old(self).comments@ + cs@.take(n as int) =~= old(self).comments@ + cs@);
        }
    }

    /// All comments, in insertion order.
    pub fn get_review_comments(&self) -> (r: Vec<ReviewComment>)
        ensures
            r@ == self.comments@,
    {
        clone_comments(&self.comments)
    }

    /// Empties the comment collection; pairs and metrics stay.
    pub fn clear_review_comments(&mut self)
        ensures
            final(self).comments@ == Seq::<ReviewComment>::empty(),
            final(self).pairs@ == old(self).pairs@,
            final(self).metrics@ == old(self).metrics@,
    {
        self.comments.clear();
    }

    /// Recomputes the training pairs from the current comments: the pair
    /// collection is fully replaced with one pair per comment, in order, and
    /// the new pairs are returned.
    pub fn process_rag_pairs(&mut self) -> (r: Vec<RAGReviewPair>)
        ensures
            final(self).comments@ == old(self).comments@,
            final(self).metrics@ == old(self).metrics@,
            derived_pairs_ok(final(self).comments@, final(self).pairs@),
            r@ == final(self).pairs@,
    {
        let n = self.comments.len();
        let mut np: Vec<RAGReviewPair> = Vec::new();
        let mut i: usize = 0;
        while i < n
            invariant
                i <= n,
                n == self.comments@.len(),
                self.comments@ == old(self).comments@,
                self.pairs@ == old(self).pairs@,
                self.metrics@ == old(self).metrics@,
                np@.len() == i,
                forall|k: int|
                    0 <= k < i ==> pair_derived_from(#[trigger] np@[k], self.comments@[k]),
            decreases n - i,
        {
            let c = &self.comments[i];
            let pf = parse_comment_to_rag(c.content.as_str());
            np.push(
                RAGReviewPair {
                    error_logic: pf.0,
                    fix_suggestion: pf.1,
                    source_comment: c.clone(),
                },
            );
            i = i + 1;
        }
        self.pairs = np;
        clone_pairs(&self.pairs)
    }

    /// All training pairs, in insertion order.
    pub fn get_rag_pairs(&self) -> (r: Vec<RAGReviewPair>)
        ensures
            r@ == self.pairs@,
    {
        clone_pairs(&self.pairs)
    }

    /// Appends one metric sample; nothing else changes.
    pub fn add_metric(&mut self, metric: MetricData)
        ensures
            final(self).metrics@ == old(self).metrics@.push(metric),
            final(self).comments@ == old(self).comments@,
            final(self).pairs@ == old(self).pairs@,
    {
        self.metrics.push(metric);
    }

    /// All metric samples, in insertion order.
    pub fn get_metrics(&self) -> (r: Vec<MetricData>)
        ensures
            r@ == self.metrics@,
    {
        clone_metrics(&self.metrics)
    }

    /// The integer totals over the stored metric samples.
    pub fn get_metrics_summary(&self) -> (r: MetricsSummary)
        ensures
            r.total_sessions == self.metrics@.len(),
            r.total_ai_lines as int == sum_ai_lines(self.metrics@, self.metrics@.len() as int),
            r.total_manual_lines as int == sum_manual_lines(
                self.metrics@,
                self.metrics@.len() as int,
            ),
            r.total_reviews as int == sum_reviews(self.metrics@, self.metrics@.len() as int),
            r.total_resolved as int == sum_resolved(self.metrics@, self.metrics@.len() as int),
    {
        summarize_metrics(&self.metrics)
    }

    /// Empties the metric collection; comments and pairs stay.
    pub fn clear_metrics(&mut self)
        ensures
            final(self).metrics@ == Seq::<MetricData>::empty(),
            final(self).comments@ == old(self).comments@,
            final(self).pairs@ == old(self).pairs@,
    {
        self.metrics.clear();
    }
}

} // verus!
