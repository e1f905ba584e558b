//! The tree assembler: consumes span and event lifecycle notifications and
//! builds completed trees.
//!
//! A [`ForestLayer`] keeps the registry of open spans, threads correlation
//! ids from parents to children, accumulates durations, and hands each
//! completed root tree to its [`Processor`]. Events flagged as immediate
//! are additionally rendered as a single line and written to the standard
//! error stream at once, without waiting for the enclosing tree to close.
use crate::id::{spec_uuid_display, Uuid};
use crate::level::{spec_level_padded, Level};
use crate::open_span::{spec_enter, spec_exit, wf_open, OpenedSpan};
use crate::pretty::{push_fields, spec_fmt_fields};
use crate::printer::write_stderr_str;
use crate::processor::{ProcessCause, ProcessReport, Processor};
use crate::registry::{lemma_index_of_unique, spec_get, spec_has_id, spec_index_of, wf_registry,
    RegEntry, SpanRegistry};
use crate::tag::{level_icon, resolve_tag, spec_level_icon, spec_tag_resolved, NoTag, Tag,
    TagParser};
use crate::time::{rfc3339_of, Timestamp};
use crate::tree::{wf_shared, Event, KeyValue, Shared, Span, Tree};
use vstd::prelude::*;

verus! {

/// A violation of the lifecycle protocol by the instrumentation source.
/// These are programming mistakes in the instrumented application, not
/// runtime conditions to recover from.
#[derive(Debug, Clone, Copy, PartialEq, Eq, Structural)]
pub enum UsageError {
    /// A span was opened under an identifier that is already open.
    SpanAlreadyOpen,
    /// A notification named a span identifier with no open span.
    SpanNotFound,
    /// A span was exited without a pending enter.
    SpanNotEntered,
    /// An exit carried an instant before the pending enter.
    NonMonotoneClock,
    /// An accumulated duration no longer fits in sixty-four bits.
    DurationOverflow,
}

impl UsageError {
    /// Returns the description of the violation.
    pub fn message(&self) -> (r: &'static str)
        ensures
            *self == UsageError::SpanAlreadyOpen ==> r@ == "Span id already open, this is a bug"@,
            *self == UsageError::SpanNotFound ==> r@ == "Span not in context, this is a bug"@,
            *self == UsageError::SpanNotEntered ==> r@
                == "Span exited without a pending enter, this is a bug"@,
            *self == UsageError::NonMonotoneClock ==> r@
                == "Exit instant precedes enter instant, this is a bug"@,
            *self == UsageError::DurationOverflow ==> r@
                == "Accumulated duration overflowed, this is a bug"@,
    {
        match self {
            UsageError::SpanAlreadyOpen => "Span id already open, this is a bug",
            UsageError::SpanNotFound => "Span not in context, this is a bug",
            UsageError::SpanNotEntered => "Span exited without a pending enter, this is a bug",
            UsageError::NonMonotoneClock => "Exit instant precedes enter instant, this is a bug",
            UsageError::DurationOverflow => "Accumulated duration overflowed, this is a bug",
        }
    }
}

/// An error raised while assembling or delivering trees: either a
/// lifecycle violation, or a processing failure passed through from the
/// pipeline.
#[derive(Debug)]
pub enum ForestError {
    /// A violation of the lifecycle protocol.
    Usage(UsageError),
    /// Processing a completed tree failed.
    Processing(ProcessReport),
}

/// Collects what an event's fields contribute: the message, captured once
/// from the first field named `message`; the immediate flag, set by a
/// boolean field named `immediate`; and all remaining fields in order.
pub struct EventVisitor {
    /// The captured message, if a `message` field has been seen.
    pub message: Option<String>,
    /// The remaining fields, in recording order.
    pub fields: Vec<KeyValue>,
    /// Whether the event asks for immediate out-of-band output.
    pub immediate: bool,
}

impl EventVisitor {
    /// Returns an empty visitor: no message, no fields, not immediate.
    pub fn new() -> (r: EventVisitor)
        ensures
            r.message is None,
            r.fields@ =~= Seq::<KeyValue>::empty(),
            r.immediate == false,
    {
        let r = EventVisitor { message: None, fields: Vec::new(), immediate: false };
        proof {
            assert(r.fields@ =~= Seq::<KeyValue>::empty());
        }
        r
    }

    /// Records one textual field. The first field named `message` becomes
    /// the message; every other field, a later `message` included, is kept
    /// as an ordinary key-value pair.
    pub fn record_field(&mut self, key: &'static str, value: String)
        ensures
            final(self).immediate == old(self).immediate,
            (old(self).message is None && key@ == "message"@) ==> (final(self).message == Some(
                value,
            ) && final(self).fields == old(self).fields),
            !(old(self).message is None && key@ == "message"@) ==> (final(self).message == old(
                self,
            ).message && final(self).fields@ == old(self).fields@.push(KeyValue { key, value })),
    {
        if self.message.is_none() && key.eq("message") {
            self.message = Some(value);
        } else {
            self.fields.push(KeyValue { key, value });
        }
    }

    /// Records one boolean field. A field named `immediate` raises the
    /// immediate flag; any other boolean is kept as text, like an ordinary
    /// field.
    pub fn record_bool(&mut self, key: &'static str, value: bool)
        ensures
            key@ == "immediate"@ ==> (final(self).immediate == (old(self).immediate || value)
                && final(self).message == old(self).message && final(self).fields == old(
                self,
            ).fields),
            key@ != "immediate"@ ==> (final(self).immediate == old(self).immediate && (
            old(self).message is None && key@ == "message"@ ==> (final(self).message matches Some(
                m,
            ) && (value ==> m@ == "true"@) && (!value ==> m@ == "false"@) && final(self).fields
                == old(self).fields)) && (!(old(self).message is None && key@ == "message"@) ==> (
            final(self).message == old(self).message && final(self).fields@.len() == old(
                self,
            ).fields@.len() + 1))),
    {
        if key.eq("immediate") {
            self.immediate = self.immediate || value;
        } else {
            let text = if value {
                String::from_str("true")
            } else {
                String::from_str("false")
            };
            proof {
                reveal_strlit("true");
                reveal_strlit("false");
            }
            self.record_field(key, text);
        }
    }
}

/// The names of the rendered ancestor chain, root first, each followed by
/// a separating arrow.
pub open spec fn spec_chain(names: Seq<&'static str>) -> Seq<char>
    decreases names.len(),
{
    if names.len() == 0 {
        Seq::empty()
    } else {
        spec_chain(names.drop_last()) + names.last()@ + " > "@
    }
}

/// The single-line rendering of an event for the immediate side channel:
/// the enclosing span's correlation id, the event's timestamp and level,
/// an urgency banner with the level's icon, the chain of enclosing span
/// names from the root inward, then the message and fields.
pub open spec fn spec_immediate(
    e: Event,
    chain: Seq<&'static str>,
    span_uuid: Option<Uuid>,
) -> Seq<char> {
    (match span_uuid {
        Some(u) => spec_uuid_display(u.bytes@) + " "@,
        None => Seq::empty(),
    }) + (match e.shared.timestamp {
        Some(t) => rfc3339_of(t.secs as int, t.nanos as int) + " "@,
        None => Seq::empty(),
    }) + spec_level_padded(e.shared.level) + (Seq::empty().push(spec_level_icon(e.shared.level))
        + " IMMEDIATE "@ + Seq::empty().push(spec_level_icon(e.shared.level)) + " "@) + spec_chain(
        chain,
    ) + (match e.message {
        Some(m) => m@,
        None => Seq::empty(),
    }) + spec_fmt_fields(e.fields@) + "\n"@
}

/// Renders the single immediate line for an event below the given chain of
/// enclosing span names.
pub fn format_immediate(e: &Event, chain: &Vec<&'static str>, span_uuid: Option<Uuid>) -> (r:
    String)
    requires
        wf_shared(e.shared),
    ensures
        r@ == spec_immediate(*e, chain@, span_uuid),
{
    let mut out = String::new();
    let ghost seg1: Seq<char> = match span_uuid {
        Some(u) => spec_uuid_display(u.bytes@) + " "@,
        None => Seq::empty(),
    };
    match span_uuid {
        Some(u) => {
            let d = u.display_string();
            out.append(d.as_str());
            out.append(" ");
            proof {
                assert(out@ =~= seg1);
            }
        },
        None => {},
    }
    let ghost seg2: Seq<char> = match e.shared.timestamp {
        Some(t) => rfc3339_of(t.secs as int, t.nanos as int) + " "@,
        None => Seq::empty(),
    };
    match &e.shared.timestamp {
        Some(t) => {
            let d = t.rfc3339_string();
            out.append(d.as_str());
            out.append(" ");
            proof {
                assert(out@ =~= seg1 + seg2);
            }
        },
        None => {
            proof {
                assert(out@ =~= seg1 + seg2);
            }
        },
    }
    out.append(e.shared.level.padded_str());
    let ghost seg3 = seg1 + seg2 + spec_level_padded(e.shared.level);
    let icon = level_icon(e.shared.level);
    out.push(icon);
    out.append(" IMMEDIATE ");
    out.push(icon);
    out.append(" ");
    let ghost seg4 = seg3 + (Seq::empty().push(spec_level_icon(e.shared.level)) + " IMMEDIATE "@
        + Seq::empty().push(spec_level_icon(e.shared.level)) + " "@);
    proof {
        assert(out@ =~= seg4);
    }
    let mut i: usize = 0;
    while i < chain.len()
        invariant
            i <= chain@.len(),
            out@ == seg4 + spec_chain(chain@.subrange(0, i as int)),
        decreases chain@.len() - i,
    {
        out.append(chain[i]);
        out.append(" > ");
        i = i + 1;
        proof {
            let pre = chain@.subrange(0, i - 1 as int);
            let cur = chain@.subrange(0, i as int);
            assert(cur.drop_last() =~= pre);
            assert(cur.last() == chain@[i - 1]);
            assert(out@ =~= seg4 + spec_chain(cur));
        }
    }
    proof {
        assert(chain@.subrange(0, chain@.len() as int) =~= chain@);
    }
    let ghost seg5 = seg4 + spec_chain(chain@);
    match &e.message {
        Some(m) => {
            out.append(m.as_str());
        },
        None => {},
    }
    let ghost seg6 = seg5 + (match &e.message {
        Some(m) => m@,
        None => Seq::<char>::empty(),
    });
    proof {
        assert(out@ =~= seg6);
    }
    push_fields(&mut out, &e.fields);
    out.append("\n");
    proof {
        assert(out@ =~= spec_immediate(*e, chain@, span_uuid));
    }
    out
}

fn copy_names(v: &Vec<&'static str>) -> (r: Vec<&'static str>)
    ensures
        r@ == v@,
{
    let mut r: Vec<&'static str> = Vec::new();
    let mut i: usize = 0;
    while i < v.len()
        invariant
            i <= v@.len(),
            r@ == v@.subrange(0, i as int),
        decreases v@.len() - i,
    {
        r.push(v[i]);
        i = i + 1;
        proof {
            assert(r@ =~= v@.subrange(0, i as int));
        }
    }
    proof {
        assert(r@ =~= v@);
    }
    r
}

/// The entry with the same identity and place, but a new open-span state.
pub open spec fn with_open(e: RegEntry, o: OpenedSpan) -> RegEntry {
    RegEntry { span_id: e.span_id, parent: e.parent, ancestors: e.ancestors, open: o }
}

/// The ancestor-name chain a child opened under the given parent inherits:
/// the parent's own chain extended by the parent's name, or empty when no
/// open parent exists.
pub open spec fn spec_child_ancestors(s: Seq<RegEntry>, parent: Option<u64>) -> Seq<&'static str> {
    match parent {
        Some(p) => match spec_get(s, p) {
            Some(e) => e.ancestors@.push(e.open.name),
            None => Seq::empty(),
        },
        None => Seq::empty(),
    }
}

/// How a new span's correlation id is chosen: the explicit id when one was
/// supplied, else the parent's id when an open parent exists, else some
/// freshly generated id.
pub open spec fn spec_inherited_uuid(
    s: Seq<RegEntry>,
    parent: Option<u64>,
    explicit: Option<Uuid>,
    assigned: Option<Uuid>,
) -> bool {
    match explicit {
        Some(u) => assigned == Some(u),
        None => match parent {
            Some(p) => match spec_get(s, p) {
                Some(e) => assigned == e.open.shared.uuid,
                None => assigned is Some,
            },
            None => assigned is Some,
        },
    }
}

/// What opening a span adds to the registry: one fresh entry, keyed by the
/// new identifier, with no children, no accumulated time, a renderable
/// timestamp, and a correlation id chosen by inheritance.
pub open spec fn spec_opened(
    s1: Seq<RegEntry>,
    s2: Seq<RegEntry>,
    id: u64,
    parent: Option<u64>,
    name: &'static str,
    level: Level,
    explicit: Option<Uuid>,
) -> bool {
    &&& s2.len() == s1.len() + 1
    &&& s2 == s1.push(s2.last())
    &&& s2.last().span_id == id
    &&& s2.last().parent == parent
    &&& s2.last().ancestors@ == spec_child_ancestors(s1, parent)
    &&& s2.last().open.name == name
    &&& s2.last().open.children@.len() == 0
    &&& s2.last().open.total_nanos == 0
    &&& s2.last().open.inner_nanos == 0
    &&& s2.last().open.enter_at is None
    &&& s2.last().open.shared.level == level
    &&& (s2.last().open.shared.timestamp matches Some(t) && t.wf())
    &&& spec_inherited_uuid(s1, parent, explicit, s2.last().open.shared.uuid)
}


/// The event the assembler builds from a visitor before attaching or
/// forwarding it: the all-zero id, a renderable timestamp, the given
/// level, the visitor's message and fields, and a tag resolved from the
/// parser's answer.
pub open spec fn spec_built_event(
    ev: Event,
    level: Level,
    visitor: EventVisitor,
    parsed: Option<Tag>,
) -> bool {
    &&& (ev.shared.uuid matches Some(u) && u.bytes@.len() == 16 && (forall|i: int|
        0 <= i < 16 ==> u.bytes@[i] == 0u8))
    &&& (ev.shared.timestamp matches Some(t) && t.wf())
    &&& ev.shared.level == level
    &&& ev.message == visitor.message
    &&& ev.fields == visitor.fields
    &&& spec_tag_resolved(ev.tag, parsed, level)
}

/// What recording an event below an open parent changes: the parent's
/// entry alone, gaining one child event that carries the parent's
/// correlation id, the given level, message and fields, a renderable
/// timestamp, and a tag resolved from the parser's answer.
pub open spec fn spec_event_attached(
    s1: Seq<RegEntry>,
    s2: Seq<RegEntry>,
    p: u64,
    level: Level,
    msg: Option<String>,
    flds: Vec<KeyValue>,
    parsed: Option<Tag>,
) -> bool {
    let i = spec_index_of(s1, p);
    let pe = s1[i];
    &&& s2.len() == s1.len()
    &&& (forall|k: int| 0 <= k < s1.len() && k != i ==> s2[k] == s1[k])
    &&& s2[i].span_id == pe.span_id
    &&& s2[i].parent == pe.parent
    &&& s2[i].ancestors == pe.ancestors
    &&& s2[i].open.shared == pe.open.shared
    &&& s2[i].open.name == pe.open.name
    &&& s2[i].open.total_nanos == pe.open.total_nanos
    &&& s2[i].open.inner_nanos == pe.open.inner_nanos
    &&& s2[i].open.enter_at == pe.open.enter_at
    &&& s2[i].open.children@.len() == pe.open.children@.len() + 1
    &&& s2[i].open.children@.subrange(0, pe.open.children@.len() as int) == pe.open.children@
    &&& (s2[i].open.children@.last() matches Tree::Event(ev) && ev.shared.uuid
        == pe.open.shared.uuid && ev.shared.level == level && (ev.shared.timestamp matches Some(t)
        && t.wf()) && ev.message == msg && ev.fields == flds && spec_tag_resolved(
        ev.tag,
        parsed,
        level,
    ))
}

/// The immutable span a registry entry closes into: same attributes, name
/// and children, the total duration clamped up to the nested duration.
pub open spec fn spec_closed_span(e: RegEntry) -> Span {
    Span {
        shared: e.open.shared,
        name: e.open.name,
        children: e.open.children,
        total_nanos: if e.open.total_nanos >= e.open.inner_nanos {
            e.open.total_nanos
        } else {
            e.open.inner_nanos
        },
        inner_nanos: e.open.inner_nanos,
    }
}

/// What attaching a closed span below its still-open parent changes: the
/// parent's entry alone, gaining the span as one child and the span's
/// total duration on its nested duration.
pub open spec fn spec_span_attached(sm: Seq<RegEntry>, s2: Seq<RegEntry>, p: u64, sp: Span) -> bool {
    let j = spec_index_of(sm, p);
    let pe = sm[j];
    &&& s2.len() == sm.len()
    &&& (forall|k: int| 0 <= k < sm.len() && k != j ==> s2[k] == sm[k])
    &&& s2[j].span_id == pe.span_id
    &&& s2[j].parent == pe.parent
    &&& s2[j].ancestors == pe.ancestors
    &&& s2[j].open.shared == pe.open.shared
    &&& s2[j].open.name == pe.open.name
    &&& s2[j].open.total_nanos == pe.open.total_nanos
    &&& s2[j].open.enter_at == pe.open.enter_at
    &&& s2[j].open.inner_nanos == pe.open.inner_nanos + sp.total_nanos
    &&& s2[j].open.children@ == pe.open.children@.push(Tree::Span(sp))
}

/// A [`tracing`]-style layer reduced to plain values: it consumes
/// lifecycle notifications, maintains the open-span registry, and forwards
/// completed root trees to its processor.
pub struct ForestLayer<P, T> {
    /// The processor completed root trees are handed to.
    pub processor: P,
    /// The parser that may supply custom tags for events.
    pub tag: T,
    /// The registry of currently open spans.
    pub registry: SpanRegistry,
}

impl<P: Processor, T: TagParser> ForestLayer<P, T> {
    /// The current registry contents.
    pub open spec fn reg(self) -> Seq<RegEntry> {
        self.registry.entries@
    }

    /// The layer's invariant: the registry is well formed.
    pub open spec fn wf(self) -> bool {
        wf_registry(self.registry.entries@)
    }

    /// Returns a layer with the given processor and tag parser and no open
    /// spans.
    pub fn new(processor: P, tag: T) -> (r: ForestLayer<P, T>)
        ensures
            r.processor == processor,
            r.tag == tag,
            r.reg().len() == 0,
            r.wf(),
    {
        ForestLayer { processor, tag, registry: SpanRegistry::new() }
    }

    /// Opens a span: creates its registry entry, choosing the correlation
    /// id from the explicit one, the parent's, or a fresh one, in that
    /// order. Fails exactly when the identifier is already open.
    pub fn on_new_span(
        &mut self,
        id: u64,
        parent: Option<u64>,
        name: &'static str,
        level: Level,
        explicit_uuid: Option<Uuid>,
    ) -> (r: Result<(), UsageError>)
        requires
            old(self).wf(),
        ensures
            final(self).wf(),
            final(self).processor == old(self).processor,
            final(self).tag == old(self).tag,
            r is Err <==> spec_has_id(old(self).reg(), id),
            r matches Err(e) ==> e == UsageError::SpanAlreadyOpen && final(self).reg() == old(
                self,
            ).reg(),
            r is Ok ==> spec_opened(
                old(self).reg(),
                final(self).reg(),
                id,
                parent,
                name,
                level,
                explicit_uuid,
            ),
    {
        let parent_idx: Option<usize> = match parent {
            Some(p) => self.registry.find_index(p),
            None => None,
        };
        proof {
            match parent {
                Some(p) => {
                    match parent_idx {
                        Some(j) => {
                            lemma_index_of_unique(self.reg(), p, j as int);
                        },
                        None => {},
                    }
                },
                None => {},
            }
        }
        let (ancestors, inherited): (Vec<&'static str>, Option<Uuid>) = match parent_idx {
            Some(j) => {
                let pe = &self.registry.entries[j];
                let mut a = copy_names(&pe.ancestors);
                a.push(pe.open.name);
                (a, pe.open.shared.uuid)
            },
            None => (Vec::new(), None),
        };
        proof {
            assert(ancestors@ =~= spec_child_ancestors(self.reg(), parent));
        }
        let uuid: Option<Uuid> = match explicit_uuid {
            Some(u) => Some(u),
            None => match parent_idx {
                Some(_) => inherited,
                None => Some(Uuid::fresh()),
            },
        };
        let ts = Timestamp::now();
        let shared = Shared::new(uuid, Some(ts), level);
        let open = OpenedSpan::new(shared, name);
        let entry = RegEntry { span_id: id, parent, ancestors, open };
        match self.registry.insert(entry) {
            Ok(()) => Ok(()),
            Err(()) => Err(UsageError::SpanAlreadyOpen),
        }
    }

    /// Records the instant a span was entered. Fails exactly when the
    /// identifier has no open span.
    pub fn on_enter(&mut self, id: u64, now: u64) -> (r: Result<(), UsageError>)
        requires
            old(self).wf(),
        ensures
            final(self).wf(),
            final(self).processor == old(self).processor,
            final(self).tag == old(self).tag,
            r is Err <==> !spec_has_id(old(self).reg(), id),
            r matches Err(e) ==> e == UsageError::SpanNotFound && final(self).reg() == old(
                self,
            ).reg(),
            r is Ok ==> final(self).reg() == old(self).reg().update(
                spec_index_of(old(self).reg(), id),
                with_open(
                    old(self).reg()[spec_index_of(old(self).reg(), id)],
                    spec_enter(old(self).reg()[spec_index_of(old(self).reg(), id)].open, now),
                ),
            ),
    {
        match self.registry.find_index(id) {
            None => Err(UsageError::SpanNotFound),
            Some(i) => {
                proof {
                    lemma_index_of_unique(self.reg(), id, i as int);
                }
                let e = &mut self.registry.entries[i];
                e.open.enter(now);
                proof {
                    lemma_update_keeps_wf(old(self).reg(), self.reg(), i as int);
                }
                Ok(())
            },
        }
    }

    /// Consumes a span's pending enter and adds the elapsed time to its
    /// total duration. Fails when the identifier has no open span, when no
    /// enter is pending, when the exit instant lies before the enter, or
    /// when the total duration would overflow; the registry is unchanged
    /// on every failure.
    pub fn on_exit(&mut self, id: u64, now: u64) -> (r: Result<(), UsageError>)
        requires
            old(self).wf(),
        ensures
            final(self).wf(),
            final(self).processor == old(self).processor,
            final(self).tag == old(self).tag,
            r is Err ==> final(self).reg() == old(self).reg(),
            r is Ok <==> (spec_has_id(old(self).reg(), id) && (old(self).reg()[spec_index_of(
                old(self).reg(),
                id,
            )].open.enter_at matches Some(at) && at <= now && old(self).reg()[spec_index_of(
                old(self).reg(),
                id,
            )].open.total_nanos + (now - at) <= u64::MAX)),
            !spec_has_id(old(self).reg(), id) <==> r == Err::<(), UsageError>(
                UsageError::SpanNotFound,
            ),
            spec_has_id(old(self).reg(), id) ==> {
                let e = old(self).reg()[spec_index_of(old(self).reg(), id)].open;
                &&& (e.enter_at is None <==> r == Err::<(), UsageError>(UsageError::SpanNotEntered))
                &&& ((e.enter_at matches Some(at) && now < at) <==> r == Err::<(), UsageError>(
                    UsageError::NonMonotoneClock,
                ))
                &&& ((e.enter_at matches Some(at) && at <= now && e.total_nanos + (now - at)
                    > u64::MAX) <==> r == Err::<(), UsageError>(UsageError::DurationOverflow))
                &&& r is Ok ==> final(self).reg() == old(self).reg().update(
                    spec_index_of(old(self).reg(), id),
                    with_open(
                        old(self).reg()[spec_index_of(old(self).reg(), id)],
                        spec_exit(e, now),
                    ),
                )
            },
    {
        match self.registry.find_index(id) {
            None => Err(UsageError::SpanNotFound),
            Some(i) => {
                proof {
                    lemma_index_of_unique(self.reg(), id, i as int);
                }
                let e = &mut self.registry.entries[i];
                match e.open.enter_at {
                    None => Err(UsageError::SpanNotEntered),
                    Some(at) => {
                        if now < at {
                            Err(UsageError::NonMonotoneClock)
                        } else if e.open.total_nanos > u64::MAX - (now - at) {
                            Err(UsageError::DurationOverflow)
                        } else {
                            e.open.exit(now);
                            proof {
                                lemma_update_keeps_wf(old(self).reg(), self.reg(), i as int);
                            }
                            Ok(())
                        }
                    },
                }
            },
        }
    }

    /// Records an event. The event's tag comes from the layer's parser or,
    /// when the parser declines, from the event's level. An event recorded
    /// below an open span is attached to that span's children and takes
    /// over the span's correlation id; an event with no open parent is a
    /// root tree and goes straight to the processor. An immediate event is
    /// additionally rendered as a single line and written to the standard
    /// error stream before it takes the normal path.
    pub fn on_event(
        &mut self,
        parent: Option<u64>,
        target: &str,
        level: Level,
        visitor: EventVisitor,
    ) -> (r: Result<(), ForestError>)
        requires
            old(self).wf(),
        ensures
            final(self).wf(),
            final(self).processor == old(self).processor,
            final(self).tag == old(self).tag,
            parent is None ==> final(self).reg() == old(self).reg() && (exists|
                pt: Option<Tag>,
                ev: Event,
            |
                #![trigger spec_built_event(ev, level, visitor, pt)]
                {
                    &&& call_ensures(T::try_parse, (&old(self).tag, target, level), pt)
                    &&& spec_built_event(ev, level, visitor, pt)
                    &&& ((visitor.immediate && (r matches Err(fe) && (
                    fe matches ForestError::Processing(rep) && rep.reason == ProcessCause::Write
                        && rep.payload == Some(Tree::Event(ev))))) || (exists|
                        pr: Result<(), ProcessReport>,
                    |
                        #![auto]
                        call_ensures(P::process, (&old(self).processor, Tree::Event(ev)), pr) && (
                        match pr {
                            Ok(u) => r is Ok,
                            Err(rep1) => (r matches Err(fe) && (
                            fe matches ForestError::Processing(rep2) && rep2 == rep1)),
                        })))
                }),
            parent is Some && !spec_has_id(old(self).reg(), parent->0) ==> (r matches Err(
                ForestError::Usage(u),
            ) && u == UsageError::SpanNotFound && final(self).reg() == old(self).reg()),
            parent is Some && spec_has_id(old(self).reg(), parent->0) ==> (exists|pt: Option<Tag>|
                {
                    &&& #[trigger] call_ensures(T::try_parse, (&old(self).tag, target, level), pt)
                    &&& ((r is Ok && spec_event_attached(
                        old(self).reg(),
                        final(self).reg(),
                        parent->0,
                        level,
                        visitor.message,
                        visitor.fields,
                        pt,
                    )) || (visitor.immediate && (r matches Err(ForestError::Processing(rep))
                        && rep.reason == ProcessCause::Write && (rep.payload matches Some(t) && (
                    t matches Tree::Event(ev) && spec_built_event(ev, level, visitor, pt))))
                        && final(self).reg() == old(self).reg()))
                }),
    {
        let ghost gvisitor = visitor;
        let parsed = self.tag.try_parse(target, level);
        proof {
            assert(call_ensures(T::try_parse, (&old(self).tag, target, level), parsed));
        }
        let tag = resolve_tag(parsed, level);
        let ts = Timestamp::now();
        let immediate = visitor.immediate;
        let idx: Option<usize> = match parent {
            Some(p) => match self.registry.find_index(p) {
                Some(i) => {
                    proof {
                        lemma_index_of_unique(self.reg(), p, i as int);
                    }
                    Some(i)
                },
                None => {
                    return Err(ForestError::Usage(UsageError::SpanNotFound));
                },
            },
            None => None,
        };
        proof {
            assert(parent is Some <==> idx is Some);
        }
        let event = Event::new(
            Shared::new(Some(Uuid::nil()), Some(ts), level),
            visitor.message,
            tag,
            visitor.fields,
        );
        let ghost gevent = event;
        proof {
            assert(spec_built_event(gevent, level, gvisitor, parsed));
        }
        if immediate {
            let (chain, suuid): (Vec<&'static str>, Option<Uuid>) = match idx {
                Some(i) => {
                    let pe = &self.registry.entries[i];
                    let mut c = copy_names(&pe.ancestors);
                    c.push(pe.open.name);
                    (c, pe.open.shared.uuid)
                },
                None => (Vec::new(), None),
            };
            let line = format_immediate(&event, &chain, suuid);
            match write_stderr_str(line.as_str()) {
                Ok(()) => {},
                Err(_) => {
                    return Err(
                        ForestError::Processing(
                            ProcessReport::new(Some(Tree::Event(event)), ProcessCause::Write),
                        ),
                    );
                },
            }
        }
        match idx {
            Some(i) => {
                let e = &mut self.registry.entries[i];
                e.open.record_event(event);
                proof {
                    lemma_update_keeps_wf(old(self).reg(), self.reg(), i as int);
                    assert(self.reg()[i as int].open.children@.subrange(
                        0,
                        old(self).reg()[i as int].open.children@.len() as int,
                    ) =~= old(self).reg()[i as int].open.children@);
                }
                Ok(())
            },
            None => {
                let result = self.processor.process(Tree::Event(event));
                proof {
                    assert(call_ensures(
                        P::process,
                        (&old(self).processor, Tree::Event(gevent)),
                        result,
                    ));
                }
                match result {
                    Ok(()) => Ok(()),
                    Err(rep) => Err(ForestError::Processing(rep)),
                }
            },
        }
    }

    /// Closes a span: removes its registry entry and converts it into an
    /// immutable tree, clamping the total duration up to the nested
    /// duration. A closed span with a still-open parent is appended to the
    /// parent's children and its total duration is added to the parent's
    /// nested duration; otherwise the span is a root tree and goes to the
    /// processor.
    pub fn on_close(&mut self, id: u64) -> (r: Result<(), ForestError>)
        requires
            old(self).wf(),
        ensures
            final(self).wf(),
            final(self).processor == old(self).processor,
            final(self).tag == old(self).tag,
            !spec_has_id(old(self).reg(), id) ==> (r matches Err(ForestError::Usage(u)) && u
                == UsageError::SpanNotFound && final(self).reg() == old(self).reg()),
            spec_has_id(old(self).reg(), id) ==> {
                let i = spec_index_of(old(self).reg(), id);
                let e = old(self).reg()[i];
                let sm = old(self).reg().remove(i);
                let sp = spec_closed_span(e);
                &&& sp.total_nanos >= sp.inner_nanos
                &&& (e.parent is Some && spec_has_id(sm, e.parent->0) ==> {
                    let p = e.parent->0;
                    let pe = sm[spec_index_of(sm, p)];
                    &&& (pe.open.inner_nanos + sp.total_nanos <= u64::MAX ==> r is Ok
                        && spec_span_attached(sm, final(self).reg(), p, sp))
                    &&& (pe.open.inner_nanos + sp.total_nanos > u64::MAX ==> (r matches Err(
                        ForestError::Usage(u),
                    ) && u == UsageError::DurationOverflow && final(self).reg() == sm))
                })
                &&& ((e.parent is None || !spec_has_id(sm, e.parent->0)) ==> final(self).reg()
                    == sm && (exists|pr: Result<(), ProcessReport>|
                    #![auto]
                    call_ensures(P::process, (&old(self).processor, Tree::Span(sp)), pr) && (
                    match pr {
                        Ok(u) => r is Ok,
                        Err(rep1) => (r matches Err(fe) && (
                        fe matches ForestError::Processing(rep2) && rep2 == rep1)),
                    })))
            },
    {
        match self.registry.remove(id) {
            None => Err(ForestError::Usage(UsageError::SpanNotFound)),
            Some(entry) => {
                proof {
                    let i = choose|i: int|
                        0 <= i < old(self).reg().len() && old(self).reg()[i] == entry && self.reg()
                            == old(self).reg().remove(i);
                    lemma_index_of_unique(old(self).reg(), id, i);
                }
                let parent = entry.parent;
                let span = entry.open.close();
                proof {
                    assert(span == spec_closed_span(
                        old(self).reg()[spec_index_of(old(self).reg(), id)],
                    ));
                }
                let ghost gspan = span;
                match parent {
                    Some(p) => match self.registry.find_index(p) {
                        Some(j) => {
                            proof {
                                lemma_index_of_unique(self.reg(), p, j as int);
                            }
                            let ghost sm = self.reg();
                            let parent_inner = self.registry.entries[j].open.inner_nanos;
                            if parent_inner > u64::MAX - span.total_duration() {
                                Err(ForestError::Usage(UsageError::DurationOverflow))
                            } else {
                                let e2 = &mut self.registry.entries[j];
                                e2.open.record_span(span);
                                proof {
                                    lemma_update_keeps_wf(sm, self.reg(), j as int);
                                }
                                Ok(())
                            }
                        },
                        None => {
                            let result = self.processor.process(Tree::Span(span));
                            proof {
                                assert(call_ensures(
                                    P::process,
                                    (&old(self).processor, Tree::Span(gspan)),
                                    result,
                                ));
                            }
                            match result {
                                Ok(()) => Ok(()),
                                Err(rep) => Err(ForestError::Processing(rep)),
                            }
                        },
                    },
                    None => {
                        let result = self.processor.process(Tree::Span(span));
                        proof {
                            assert(call_ensures(
                                P::process,
                                (&old(self).processor, Tree::Span(gspan)),
                                result,
                            ));
                        }
                        match result {
                            Ok(()) => Ok(()),
                            Err(rep) => Err(ForestError::Processing(rep)),
                        }
                    },
                }
            },
        }
    }
}

/// Replacing one entry by another with the same identifier, children sums
/// intact, keeps the registry well formed.
proof fn lemma_update_keeps_wf(s1: Seq<RegEntry>, s2: Seq<RegEntry>, i: int)
    requires
        wf_registry(s1),
        0 <= i < s1.len(),
        s2.len() == s1.len(),
        forall|k: int| 0 <= k < s1.len() && k != i ==> s2[k] == s1[k],
        s2[i].span_id == s1[i].span_id,
        wf_open(s2[i].open),
    ensures
        wf_registry(s2),
{
    assert forall|a: int, b: int| 0 <= a < b < s2.len() implies (#[trigger] s2[a]).span_id != (
    #[trigger] s2[b]).span_id by {
        assert(s1[a].span_id != s1[b].span_id);
    }
    assert forall|a: int| 0 <= a < s2.len() implies wf_open((#[trigger] s2[a]).open) by {
        if a != i {
            assert(s2[a] == s1[a]);
        }
    }
}

impl ForestLayer<crate::processor::Sink, NoTag> {
    /// Returns a layer that discards every completed tree.
    pub fn sink() -> (r: ForestLayer<crate::processor::Sink, NoTag>)
        ensures
            r.reg().len() == 0,
            r.wf(),
    {
        ForestLayer::new(crate::processor::Sink, NoTag)
    }
}

} // verus!
