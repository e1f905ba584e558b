//! The core tree model: spans, events, and the shared attributes of both.
//!
//! A completed [`Tree`] is immutable. Durations are integer nanoseconds.
use crate::id::Uuid;
use crate::level::Level;
use crate::tag::Tag;
use crate::time::Timestamp;
use vstd::prelude::*;

verus! {

/// Attributes common to spans and events.
#[derive(Debug, Clone)]
pub struct Shared {
    /// The correlation id of the node, when one was assigned.
    pub uuid: Option<Uuid>,
    /// When the event occurred or when the span opened.
    pub timestamp: Option<Timestamp>,
    /// The severity of the node.
    pub level: Level,
}

impl Shared {
    /// Returns shared attributes with the given parts.
    pub fn new(uuid: Option<Uuid>, timestamp: Option<Timestamp>, level: Level) -> (r: Shared)
        ensures
            r == (Shared { uuid, timestamp, level }),
    {
        Shared { uuid, timestamp, level }
    }
}

/// One key-value pair recorded on an event. Pairs keep their recording
/// order, and keys need not be unique.
#[derive(Debug, Clone)]
pub struct KeyValue {
    /// The field's key.
    pub key: &'static str,
    /// The field's value, already rendered as text.
    pub value: String,
}

impl KeyValue {
    /// Returns the pair of the given key and value.
    pub fn new(key: &'static str, value: String) -> (r: KeyValue)
        ensures
            r == (KeyValue { key, value }),
    {
        KeyValue { key, value }
    }

    /// Returns the field's key.
    pub fn key(&self) -> (r: &'static str)
        ensures
            r == self.key,
    {
        self.key
    }

    /// Returns the field's value.
    pub fn value(&self) -> (r: &str)
        ensures
            r@ == self.value@,
    {
        self.value.as_str()
    }
}

/// An event: a leaf of the tree.
#[derive(Debug, Clone)]
pub struct Event {
    /// Attributes shared between events and spans.
    pub shared: Shared,
    /// The message of the event, captured from the first field named
    /// `message`, if any.
    pub message: Option<String>,
    /// The display tag the event was collected with.
    pub tag: Tag,
    /// The remaining key-value fields, in recording order.
    pub fields: Vec<KeyValue>,
}

/// A span: an inner node of the tree.
///
/// `total_nanos` sums the enter-to-exit intervals of the span;
/// `inner_nanos` sums the total durations of its direct child spans.
#[derive(Debug)]
pub struct Span {
    /// Attributes shared between events and spans.
    pub shared: Shared,
    /// The name of the span.
    pub name: &'static str,
    /// Events and spans collected while the span was open, in completion
    /// order.
    pub children: Vec<Tree>,
    /// The total time the span was entered, in nanoseconds.
    pub total_nanos: u64,
    /// The time direct child spans were entered, in nanoseconds.
    pub inner_nanos: u64,
}

/// A node of a completed tree: either an event or a span.
#[derive(Debug)]
pub enum Tree {
    Event(Event),
    Span(Span),
}

/// Error returned by the consuming accessors when the tree is the other
/// kind than asked for.
#[derive(Debug, Clone, Copy)]
pub struct KindError {
    /// Whether the tree turned out to be an event.
    pub is_event: bool,
}

impl KindError {
    /// Returns the description of the error.
    pub fn message(&self) -> (r: &'static str)
        ensures
            self.is_event ==> r@ == "Found event"@,
            !self.is_event ==> r@ == "Found span"@,
    {
        if self.is_event {
            "Found event"
        } else {
            "Found span"
        }
    }
}

/// Error returned when an event was expected but a span was found.
#[derive(Debug, Clone, Copy)]
pub struct ExpectedEventError;

/// Error returned when a span was expected but an event was found.
#[derive(Debug, Clone, Copy)]
pub struct ExpectedSpanError;

impl ExpectedEventError {
    /// Returns the description of the error.
    pub fn message(&self) -> (r: &'static str)
        ensures
            r@ == "Expected an event, found a span"@,
    {
        "Expected an event, found a span"
    }
}

impl ExpectedSpanError {
    /// Returns the description of the error.
    pub fn message(&self) -> (r: &'static str)
        ensures
            r@ == "Expected a span, found an event"@,
    {
        "Expected a span, found an event"
    }
}

impl Event {
    /// Returns an event with the given parts.
    pub fn new(shared: Shared, message: Option<String>, tag: Tag, fields: Vec<KeyValue>) -> (r:
        Event)
        ensures
            r == (Event { shared, message, tag, fields }),
    {
        Event { shared, message, tag, fields }
    }

    /// Returns the event's correlation id, when one was assigned.
    pub fn uuid(&self) -> (r: Option<Uuid>)
        ensures
            r == self.shared.uuid,
    {
        self.shared.uuid
    }

    /// Returns the event's timestamp, when one was recorded.
    pub fn timestamp(&self) -> (r: Option<Timestamp>)
        ensures
            r == self.shared.timestamp,
    {
        self.shared.timestamp
    }

    /// Returns the event's level.
    pub fn level(&self) -> (r: Level)
        ensures
            r == self.shared.level,
    {
        self.shared.level
    }

    /// Returns the event's message, if one was captured.
    pub fn message(&self) -> (r: Option<&str>)
        ensures
            r is Some <==> self.message is Some,
            r matches Some(s) ==> self.message matches Some(m) && s@ == m@,
    {
        match &self.message {
            Some(m) => Some(m.as_str()),
            None => None,
        }
    }

    /// Returns the event's display tag.
    pub fn tag(&self) -> (r: &Tag)
        ensures
            r == self.tag,
    {
        &self.tag
    }

    /// Returns the event's key-value fields, in recording order.
    pub fn fields(&self) -> (r: &Vec<KeyValue>)
        ensures
            r == self.fields,
    {
        &self.fields
    }
}

impl Span {
    /// Returns a span with the given attributes and name, no children, and
    /// zero durations.
    pub fn new(shared: Shared, name: &'static str) -> (r: Span)
        ensures
            r.shared == shared,
            r.name == name,
            r.children@ =~= Seq::<Tree>::empty(),
            r.total_nanos == 0,
            r.inner_nanos == 0,
    {
        Span { shared, name, children: Vec::new(), total_nanos: 0, inner_nanos: 0 }
    }

    /// Returns the span's correlation id, when one was assigned.
    pub fn uuid(&self) -> (r: Option<Uuid>)
        ensures
            r == self.shared.uuid,
    {
        self.shared.uuid
    }

    /// Returns the span's timestamp, when one was recorded.
    pub fn timestamp(&self) -> (r: Option<Timestamp>)
        ensures
            r == self.shared.timestamp,
    {
        self.shared.timestamp
    }

    /// Returns the span's level.
    pub fn level(&self) -> (r: Level)
        ensures
            r == self.shared.level,
    {
        self.shared.level
    }

    /// Returns the span's name.
    pub fn name(&self) -> (r: &'static str)
        ensures
            r == self.name,
    {
        self.name
    }

    /// Returns the children collected while the span was open, in
    /// completion order.
    pub fn children(&self) -> (r: &Vec<Tree>)
        ensures
            r == self.children,
    {
        &self.children
    }

    /// Returns `true` when the span has no children.
    pub fn is_empty(&self) -> (r: bool)
        ensures
            r <==> self.children@.len() == 0,
    {
        self.children.len() == 0
    }

    /// Returns the total time the span was entered, in nanoseconds.
    pub fn total_duration(&self) -> (r: u64)
        ensures
            r == self.total_nanos,
    {
        self.total_nanos
    }

    /// Returns the time the span's direct child spans were entered, in
    /// nanoseconds.
    pub fn inner_duration(&self) -> (r: u64)
        ensures
            r == self.inner_nanos,
    {
        self.inner_nanos
    }

    /// Returns the time the span spent in its own work, excluding child
    /// spans, in nanoseconds.
    pub fn base_duration(&self) -> (r: u64)
        requires
            self.inner_nanos <= self.total_nanos,
        ensures
            r == self.total_nanos - self.inner_nanos,
    {
        self.total_nanos - self.inner_nanos
    }
}

impl Tree {
    /// Returns the inner event, or an error when the tree is a span.
    pub fn event(&self) -> (r: Result<&Event, ExpectedEventError>)
        ensures
            self matches Tree::Event(e) ==> (r matches Ok(ev) && *ev == e),
            self matches Tree::Span(_) ==> r is Err,
    {
        match self {
            Tree::Event(event) => Ok(event),
            Tree::Span(_) => Err(ExpectedEventError),
        }
    }

    /// Returns the event, or an error when the tree is a span.
    pub fn into_event(self) -> (r: Result<Event, KindError>)
        ensures
            self matches Tree::Event(e) ==> (r matches Ok(ev) && ev == e),
            self matches Tree::Span(_) ==> (r matches Err(k) && !k.is_event),
    {
        match self {
            Tree::Event(event) => Ok(event),
            Tree::Span(_) => Err(KindError { is_event: false }),
        }
    }

    /// Returns the span, or an error when the tree is an event.
    pub fn into_span(self) -> (r: Result<Span, KindError>)
        ensures
            self matches Tree::Span(s) ==> (r matches Ok(sp) && sp == s),
            self matches Tree::Event(_) ==> (r matches Err(k) && k.is_event),
    {
        match self {
            Tree::Event(_) => Err(KindError { is_event: true }),
            Tree::Span(span) => Ok(span),
        }
    }

    /// Returns the inner span, or an error when the tree is an event.
    pub fn span(&self) -> (r: Result<&Span, ExpectedSpanError>)
        ensures
            self matches Tree::Span(s) ==> (r matches Ok(sp) && *sp == s),
            self matches Tree::Event(_) ==> r is Err,
    {
        match self {
            Tree::Event(_) => Err(ExpectedSpanError),
            Tree::Span(span) => Ok(span),
        }
    }
}

/// The total duration a node contributes to its parent's nested time:
/// a span's total, and zero for an event.
pub open spec fn tree_total_nanos(t: Tree) -> int {
    match t {
        Tree::Event(_) => 0,
        Tree::Span(s) => s.total_nanos as int,
    }
}

/// The summed total durations of the spans among the given nodes.
pub open spec fn sum_span_totals(ts: Seq<Tree>) -> int
    decreases ts.len(),
{
    if ts.len() == 0 {
        0
    } else {
        sum_span_totals(ts.drop_last()) + tree_total_nanos(ts.last())
    }
}

/// Appending a node raises the sum by that node's contribution.
pub proof fn lemma_sum_span_totals_push(ts: Seq<Tree>, t: Tree)
    ensures
        sum_span_totals(ts.push(t)) == sum_span_totals(ts) + tree_total_nanos(t),
{
    assert(ts.push(t).drop_last() =~= ts);
}

/// Well-formed shared attributes: the timestamp, when present, lies in the
/// renderable range.
pub open spec fn wf_shared(s: Shared) -> bool {
    match s.timestamp {
        Some(t) => t.wf(),
        None => true,
    }
}

/// A well-formed span: its nested duration equals the summed totals of its
/// child spans, its total duration is at least its nested duration, its
/// timestamp is renderable, and all children are themselves well formed.
pub open spec fn wf_span(s: Span) -> bool
    decreases s,
{
    &&& wf_shared(s.shared)
    &&& s.inner_nanos == sum_span_totals(s.children@)
    &&& s.inner_nanos <= s.total_nanos
    &&& forall|i: int| 0 <= i < s.children@.len() ==> wf_tree(#[trigger] s.children@[i])
}

/// A well-formed tree: every span in it is well formed, and every
/// timestamp is renderable.
pub open spec fn wf_tree(t: Tree) -> bool
    decreases t,
{
    match t {
        Tree::Event(e) => wf_shared(e.shared),
        Tree::Span(s) => wf_span(s),
    }
}

/// In every well-formed span, the summed total durations of its child spans
/// equal the span's nested duration, and never exceed the span's total.
pub proof fn lemma_nested_duration_is_child_sum(s: Span)
    requires
        wf_span(s),
    ensures
        sum_span_totals(s.children@) == s.inner_nanos,
        sum_span_totals(s.children@) <= s.total_nanos,
{
}

} // verus!
