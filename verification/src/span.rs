//! Source locations for diagnostics.
//!
//! A [`Span`] names a half-open byte range inside one source context. Two
//! spans can be merged into one covering span only when they come from the
//! same source context; merging the spans of a trait's associated items is
//! how the validator pinpoints a non-empty body.

use vstd::prelude::*;

verus! {

/// A byte range `lo..hi` inside the source context numbered `source`.
#[derive(Clone, Copy, PartialEq, Eq, Structural, Debug)]
pub struct Span {
    /// Identifier of the source context (file or expansion) the range lies in.
    pub source: u32,
    /// Start of the range.
    pub lo: u32,
    /// End of the range.
    pub hi: u32,
}

/// The covering span of two spans from the same source context.
pub open spec fn spec_join(a: Span, b: Span) -> Span {
    Span {
        source: a.source,
        lo: if a.lo <= b.lo {
            a.lo
        } else {
            b.lo
        },
        hi: if a.hi >= b.hi {
            a.hi
        } else {
            b.hi
        },
    }
}

/// The merge of a non-empty run of spans, walked left to right: the covering
/// span if every span lies in the first one's source context, otherwise the
/// leftmost span that lies elsewhere.
pub open spec fn spec_merge(spans: Seq<Span>) -> Result<Span, Span>
    recommends
        spans.len() > 0,
    decreases spans.len(),
{
    if spans.len() <= 1 {
        Ok(spans[0])
    } else {
        match spec_merge(spans.drop_last()) {
            Ok(acc) => {
                if acc.source == spans.last().source {
                    Ok(spec_join(acc, spans.last()))
                } else {
                    Err(spans.last())
                }
            },
            Err(e) => Err(e),
        }
    }
}

impl Span {
    /// The covering span of `self` and `other`, when both lie in the same
    /// source context.
    pub fn join(self, other: Span) -> (r: Option<Span>)
        ensures
            self.source == other.source ==> r == Some(spec_join(self, other)),
            self.source != other.source ==> r is None,
    {
        if self.source == other.source {
            Some(
                Span {
                    source: self.source,
                    lo: if self.lo <= other.lo {
                        self.lo
                    } else {
                        other.lo
                    },
                    hi: if self.hi >= other.hi {
                        self.hi
                    } else {
                        other.hi
                    },
                },
            )
        } else {
            None
        }
    }
}

/// Merges a non-empty run of spans left to right, as [`spec_merge`] says.
pub fn merge_spans(spans: &Vec<Span>) -> (r: Result<Span, Span>)
    requires
        spans@.len() > 0,
    ensures
        r == spec_merge(spans@),
{
    let mut acc: Span = spans[0];
    let mut i: usize = 1;
    while i < spans.len()
        invariant
            1 <= i <= spans@.len(),
            spec_merge(spans@.take(i as int)) == Ok::<Span, Span>(acc),
        decreases spans@.len() - i,
    {
        proof {
            assert(spans@.take(i + 1).drop_last() =~= spans@.take(i as int));
            assert(spans@.take(i + 1).last() == spans@[i as int]);
        }
        match acc.join(spans[i]) {
            Some(joined) => {
                acc = joined;
            },
            None => {
                proof {
                    assert(spec_merge(spans@.take(i + 1)) == Err::<Span, Span>(spans@[i as int]));
                    assert(spans@.take(spans@.len() as int) =~= spans@);
                    lemma_merge_err_extend(spans@, i + 1);
                }
                return Err(spans[i]);
            },
        }
        i = i + 1;
    }
    proof {
        assert(spans@.take(spans@.len() as int) =~= spans@);
    }
    Ok(acc)
}

/// Once the left-to-right merge has failed on a prefix, it fails the same way
/// on the whole run.
proof fn lemma_merge_err_extend(spans: Seq<Span>, k: int)
    requires
        1 <= k <= spans.len(),
        spec_merge(spans.take(k)) is Err,
    ensures
        spec_merge(spans) == spec_merge(spans.take(k)),
    decreases spans.len() - k,
{
    if k < spans.len() {
        assert(spans.take(k + 1).drop_last() =~= spans.take(k));
        lemma_merge_err_extend(spans, k + 1);
    } else {
        assert(spans.take(k) =~= spans);
    }
}

/// A successful merge means every span lies in the first one's source
/// context, and the merge keeps that context.
pub proof fn lemma_merge_ok_same_source(spans: Seq<Span>)
    requires
        spans.len() > 0,
        spec_merge(spans) is Ok,
    ensures
        (spec_merge(spans)->Ok_0).source == spans[0].source,
        forall|i: int| 0 <= i < spans.len() ==> (#[trigger] spans[i]).source == spans[0].source,
    decreases spans.len(),
{
    if spans.len() > 1 {
        lemma_merge_ok_same_source(spans.drop_last());
        assert(forall|i: int|
            0 <= i < spans.len() - 1 ==> #[trigger] spans[i] == spans.drop_last()[i]);
    }
}

/// When every span lies in the first one's source context, the left-to-right
/// merge succeeds.
pub proof fn lemma_merge_same_source_ok(spans: Seq<Span>)
    requires
        spans.len() > 0,
        forall|i: int| 0 <= i < spans.len() ==> (#[trigger] spans[i]).source == spans[0].source,
    ensures
        spec_merge(spans) is Ok,
        (spec_merge(spans)->Ok_0).source == spans[0].source,
    decreases spans.len(),
{
    if spans.len() > 1 {
        assert(forall|i: int|
            0 <= i < spans.len() - 1 ==> #[trigger] spans.drop_last()[i] == spans[i]);
        lemma_merge_same_source_ok(spans.drop_last());
    }
}

} // verus!
