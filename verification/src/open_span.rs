//! The mutable state of a span between its open and close notifications.
//!
//! An [`OpenedSpan`] accumulates entered time, nested time, and children.
//! Closing converts it into an immutable [`Span`], clamping the total
//! duration up to the nested duration.
use crate::id::Uuid;
use crate::tree::{lemma_sum_span_totals_push, sum_span_totals, wf_shared, wf_span, wf_tree,
    Event, Shared, Span, Tree};
use vstd::prelude::*;

verus! {

/// A span that has been opened and not yet closed.
pub struct OpenedSpan {
    /// Attributes shared between events and spans.
    pub shared: Shared,
    /// The name of the span.
    pub name: &'static str,
    /// Children collected so far, in completion order.
    pub children: Vec<Tree>,
    /// Entered time accumulated so far, in nanoseconds.
    pub total_nanos: u64,
    /// Total durations of child spans recorded so far, in nanoseconds.
    pub inner_nanos: u64,
    /// The instant of the pending enter, if the span is currently entered.
    pub enter_at: Option<u64>,
}

/// A well-formed open span: its timestamp is renderable, its nested
/// duration equals the summed totals of its child spans, and all children
/// are well formed.
pub open spec fn wf_open(s: OpenedSpan) -> bool {
    &&& wf_shared(s.shared)
    &&& s.inner_nanos == sum_span_totals(s.children@)
    &&& forall|i: int| 0 <= i < s.children@.len() ==> wf_tree(#[trigger] s.children@[i])
}

/// The state after an enter notification at the given instant.
pub open spec fn spec_enter(s: OpenedSpan, now: u64) -> OpenedSpan {
    OpenedSpan {
        shared: s.shared,
        name: s.name,
        children: s.children,
        total_nanos: s.total_nanos,
        inner_nanos: s.inner_nanos,
        enter_at: Some(now),
    }
}

/// The state after an exit notification at the given instant: the pending
/// enter is consumed and the elapsed time is added to the total.
pub open spec fn spec_exit(s: OpenedSpan, now: u64) -> OpenedSpan {
    match s.enter_at {
        Some(at) => OpenedSpan {
            shared: s.shared,
            name: s.name,
            children: s.children,
            total_nanos: (s.total_nanos + now - at) as u64,
            inner_nanos: s.inner_nanos,
            enter_at: None,
        },
        None => s,
    }
}

impl OpenedSpan {
    /// Returns a freshly opened span: no children, no accumulated time, and
    /// no pending enter.
    pub fn new(shared: Shared, name: &'static str) -> (r: OpenedSpan)
        ensures
            r.shared == shared,
            r.name == name,
            r.children@ =~= Seq::<Tree>::empty(),
            r.total_nanos == 0,
            r.inner_nanos == 0,
            r.enter_at is None,
            wf_shared(shared) ==> wf_open(r),
    {
        let r = OpenedSpan {
            shared,
            name,
            children: Vec::new(),
            total_nanos: 0,
            inner_nanos: 0,
            enter_at: None,
        };
        proof {
            assert(r.children@ =~= Seq::<Tree>::empty());
        }
        r
    }

    /// Records the instant the span was entered. Entering again without an
    /// intervening exit replaces the pending instant.
    pub fn enter(&mut self, now: u64)
        ensures
            *final(self) == spec_enter(*old(self), now),
    {
        self.enter_at = Some(now);
    }

    /// Consumes the pending enter and adds the elapsed time to the span's
    /// total duration.
    pub fn exit(&mut self, now: u64)
        requires
            old(self).enter_at matches Some(at) && at <= now && old(self).total_nanos + (now - at)
                <= u64::MAX,
        ensures
            *final(self) == spec_exit(*old(self), now),
    {
        match self.enter_at {
            Some(at) => {
                self.total_nanos = self.total_nanos + (now - at);
                self.enter_at = None;
            },
            None => {},
        }
    }

    /// Appends an event to the span's children. The event's correlation id
    /// is overwritten with the span's own id, so that every child observes
    /// the id of its enclosing span.
    pub fn record_event(&mut self, event: Event)
        ensures
            final(self).children@ == old(self).children@.push(
                Tree::Event(
                    Event {
                        shared: Shared {
                            uuid: old(self).shared.uuid,
                            timestamp: event.shared.timestamp,
                            level: event.shared.level,
                        },
                        message: event.message,
                        tag: event.tag,
                        fields: event.fields,
                    },
                ),
            ),
            final(self).shared == old(self).shared,
            final(self).name == old(self).name,
            final(self).total_nanos == old(self).total_nanos,
            final(self).inner_nanos == old(self).inner_nanos,
            final(self).enter_at == old(self).enter_at,
            wf_open(*old(self)) && wf_shared(event.shared) ==> wf_open(*final(self)),
    {
        let mut event = event;
        event.shared.uuid = self.shared.uuid;
        proof {
            lemma_sum_span_totals_push(self.children@, Tree::Event(event));
        }
        self.children.push(Tree::Event(event));
    }

    /// Appends a closed child span to the children and adds its total
    /// duration to this span's nested duration.
    pub fn record_span(&mut self, span: Span)
        requires
            old(self).inner_nanos + span.total_nanos <= u64::MAX,
        ensures
            final(self).children@ == old(self).children@.push(Tree::Span(span)),
            final(self).inner_nanos == old(self).inner_nanos + span.total_nanos,
            final(self).shared == old(self).shared,
            final(self).name == old(self).name,
            final(self).total_nanos == old(self).total_nanos,
            final(self).enter_at == old(self).enter_at,
            wf_open(*old(self)) && wf_span(span) ==> wf_open(*final(self)),
    {
        proof {
            lemma_sum_span_totals_push(self.children@, Tree::Span(span));
        }
        self.inner_nanos = self.inner_nanos + span.total_nanos;
        self.children.push(Tree::Span(span));
    }

    /// Converts the open span into an immutable [`Span`]. The total
    /// duration is clamped up to the nested duration, so that the exclusive
    /// duration of the result is never negative.
    pub fn close(self) -> (r: Span)
        ensures
            r.shared == self.shared,
            r.name == self.name,
            r.children == self.children,
            r.inner_nanos == self.inner_nanos,
            r.total_nanos == if self.total_nanos >= self.inner_nanos {
                self.total_nanos
            } else {
                self.inner_nanos
            },
            r.total_nanos >= r.inner_nanos,
            wf_open(self) ==> wf_span(r),
    {
        let total = if self.total_nanos >= self.inner_nanos {
            self.total_nanos
        } else {
            self.inner_nanos
        };
        Span {
            shared: self.shared,
            name: self.name,
            children: self.children,
            total_nanos: total,
            inner_nanos: self.inner_nanos,
        }
    }

    /// Returns the span's correlation id, when one was assigned.
    pub fn uuid(&self) -> (r: Option<Uuid>)
        ensures
            r == self.shared.uuid,
    {
        self.shared.uuid
    }
}

/// Enter and exit instants of one interval, enter first.
pub open spec fn wf_intervals(ivs: Seq<(u64, u64)>) -> bool {
    forall|i: int| 0 <= i < ivs.len() ==> (#[trigger] ivs[i]).0 <= ivs[i].1
}

/// The summed lengths of the given enter-to-exit intervals.
pub open spec fn sum_intervals(ivs: Seq<(u64, u64)>) -> int
    decreases ivs.len(),
{
    if ivs.len() == 0 {
        0
    } else {
        (ivs.first().1 - ivs.first().0) + sum_intervals(ivs.drop_first())
    }
}

/// The state after entering and exiting once for each interval in order.
pub open spec fn spec_run_intervals(s: OpenedSpan, ivs: Seq<(u64, u64)>) -> OpenedSpan
    decreases ivs.len(),
{
    if ivs.len() == 0 {
        s
    } else {
        spec_run_intervals(spec_exit(spec_enter(s, ivs.first().0), ivs.first().1), ivs.drop_first())
    }
}

proof fn lemma_sum_intervals_nonneg(ivs: Seq<(u64, u64)>)
    requires
        wf_intervals(ivs),
    ensures
        sum_intervals(ivs) >= 0,
    decreases ivs.len(),
{
    if ivs.len() > 0 {
        assert(wf_intervals(ivs.drop_first()));
        lemma_sum_intervals_nonneg(ivs.drop_first());
    }
}

proof fn lemma_run_intervals_adds(s: OpenedSpan, ivs: Seq<(u64, u64)>)
    requires
        wf_intervals(ivs),
        s.total_nanos + sum_intervals(ivs) <= u64::MAX,
    ensures
        spec_run_intervals(s, ivs).total_nanos == s.total_nanos + sum_intervals(ivs),
        spec_run_intervals(s, ivs).inner_nanos == s.inner_nanos,
        spec_run_intervals(s, ivs).children == s.children,
    decreases ivs.len(),
{
    if ivs.len() > 0 {
        let s1 = spec_exit(spec_enter(s, ivs.first().0), ivs.first().1);
        assert(wf_intervals(ivs.drop_first()));
        lemma_sum_intervals_nonneg(ivs.drop_first());
        lemma_run_intervals_adds(s1, ivs.drop_first());
    }
}

/// For every sequence of enter/exit pairs applied to a freshly opened span
/// with no children, the accumulated total duration equals the summed
/// lengths of the intervals, and the nested duration stays zero.
pub proof fn lemma_total_duration_is_interval_sum(s: OpenedSpan, ivs: Seq<(u64, u64)>)
    requires
        s.total_nanos == 0,
        s.inner_nanos == 0,
        s.children@.len() == 0,
        wf_intervals(ivs),
        sum_intervals(ivs) <= u64::MAX,
    ensures
        spec_run_intervals(s, ivs).total_nanos == sum_intervals(ivs),
        spec_run_intervals(s, ivs).inner_nanos == 0,
        spec_run_intervals(s, ivs).children@.len() == 0,
{
    lemma_run_intervals_adds(s, ivs);
}

} // verus!
