//! Tests of the tree assembler: durations, clamping, attachment,
//! correlation ids, and lifecycle errors.
use std::cell::RefCell;
use std::rc::Rc;
use tracing_forest::id::{from_u64_pair, Uuid};
use tracing_forest::layer::{EventVisitor, ForestLayer, UsageError};
use tracing_forest::level::Level;
use tracing_forest::open_span::OpenedSpan;
use tracing_forest::processor::{ProcessReport, Processor, Sink};
use tracing_forest::tag::NoTag;
use tracing_forest::tree::{Shared, Tree};

/// A processor that stores every tree it is handed, for inspection.
#[derive(Clone)]
struct Capture(Rc<RefCell<Vec<Tree>>>);

impl Capture {
    fn new() -> Capture {
        Capture(Rc::new(RefCell::new(Vec::new())))
    }
}

impl Processor for Capture {
    fn process(&self, tree: Tree) -> Result<(), ProcessReport> {
        self.0.borrow_mut().push(tree);
        Ok(())
    }
}

#[test]
fn single_span_total_is_sum_of_intervals() {
    // Two enter/exit rounds on one span with no children: the total is the
    // sum of the measured intervals, and the nested duration is zero.
    let capture = Capture::new();
    let mut layer = ForestLayer::new(capture.clone(), NoTag);
    layer.on_new_span(1, None, "work", Level::Info, None).unwrap();
    layer.on_enter(1, 100).unwrap();
    layer.on_exit(1, 140).unwrap();
    layer.on_enter(1, 200).unwrap();
    layer.on_exit(1, 225).unwrap();
    layer.on_close(1).unwrap();

    let logs = capture.0.borrow();
    assert_eq!(logs.len(), 1);
    let span = logs[0].span().unwrap();
    assert_eq!(span.name(), "work");
    assert_eq!(span.total_duration(), 65);
    assert_eq!(span.inner_duration(), 0);
    assert_eq!(span.base_duration(), 65);
}

#[test]
fn clamp_total_up_to_nested() {
    // The child runs for 100 units while the parent is never entered: at
    // close, the parent's total is clamped up to its nested duration.
    let capture = Capture::new();
    let mut layer = ForestLayer::new(capture.clone(), NoTag);
    layer.on_new_span(1, None, "parent", Level::Info, None).unwrap();
    layer.on_new_span(2, Some(1), "child", Level::Info, None).unwrap();
    layer.on_enter(2, 0).unwrap();
    layer.on_exit(2, 100).unwrap();
    layer.on_close(2).unwrap();
    layer.on_close(1).unwrap();

    let logs = capture.0.borrow();
    assert_eq!(logs.len(), 1);
    let parent = logs[0].span().unwrap();
    assert_eq!(parent.inner_duration(), 100);
    assert_eq!(parent.total_duration(), 100);
    assert!(parent.total_duration() >= parent.inner_duration());
    assert_eq!(parent.base_duration(), 0);
}

#[test]
fn nested_duration_is_sum_of_child_span_totals() {
    let capture = Capture::new();
    let mut layer = ForestLayer::new(capture.clone(), NoTag);
    layer.on_new_span(1, None, "parent", Level::Info, None).unwrap();
    layer.on_enter(1, 0).unwrap();
    layer.on_new_span(2, Some(1), "a", Level::Info, None).unwrap();
    layer.on_enter(2, 10).unwrap();
    layer.on_exit(2, 40).unwrap();
    layer.on_close(2).unwrap();
    layer.on_new_span(3, Some(1), "b", Level::Info, None).unwrap();
    layer.on_enter(3, 50).unwrap();
    layer.on_exit(3, 75).unwrap();
    layer.on_close(3).unwrap();
    layer.on_event(Some(1), "app", Level::Info, EventVisitor::new()).unwrap();
    layer.on_exit(1, 1000).unwrap();
    layer.on_close(1).unwrap();

    let logs = capture.0.borrow();
    let parent = logs[0].span().unwrap();
    let mut sum = 0;
    for child in parent.children().iter() {
        if let Ok(s) = child.span() {
            sum += s.total_duration();
        }
    }
    assert_eq!(sum, 30 + 25);
    assert_eq!(parent.inner_duration(), sum);
    assert_eq!(parent.total_duration(), 1000);
    // Children appear in completion order: a, b, then the event.
    assert_eq!(parent.children().len(), 3);
    assert_eq!(parent.children()[0].span().unwrap().name(), "a");
    assert_eq!(parent.children()[1].span().unwrap().name(), "b");
    assert!(parent.children()[2].event().is_ok());
}

#[test]
fn events_inherit_the_enclosing_spans_id() {
    let capture = Capture::new();
    let mut layer = ForestLayer::new(capture.clone(), NoTag);
    let explicit = from_u64_pair(7, 9);
    layer.on_new_span(1, None, "s", Level::Info, Some(explicit)).unwrap();
    let mut visitor = EventVisitor::new();
    visitor.record_field("message", String::from("inside"));
    layer.on_event(Some(1), "app", Level::Info, visitor).unwrap();
    layer.on_close(1).unwrap();

    let logs = capture.0.borrow();
    let span = logs[0].span().unwrap();
    assert_eq!(span.uuid(), Some(explicit));
    let event = span.children()[0].event().unwrap();
    assert_eq!(event.uuid(), Some(explicit));
    assert_eq!(event.message(), Some("inside"));
}

#[test]
fn child_spans_inherit_the_parents_id() {
    let capture = Capture::new();
    let mut layer = ForestLayer::new(capture.clone(), NoTag);
    let explicit = from_u64_pair(1, 2);
    layer.on_new_span(1, None, "outer", Level::Info, Some(explicit)).unwrap();
    layer.on_new_span(2, Some(1), "inner", Level::Info, None).unwrap();
    layer.on_close(2).unwrap();
    layer.on_close(1).unwrap();

    let logs = capture.0.borrow();
    let outer = logs[0].span().unwrap();
    let inner = outer.children()[0].span().unwrap();
    assert_eq!(outer.uuid(), Some(explicit));
    assert_eq!(inner.uuid(), Some(explicit));
}

#[test]
fn explicit_child_id_overrides_inheritance() {
    let capture = Capture::new();
    let mut layer = ForestLayer::new(capture.clone(), NoTag);
    let outer_id = from_u64_pair(1, 1);
    let inner_id = from_u64_pair(2, 2);
    layer.on_new_span(1, None, "outer", Level::Info, Some(outer_id)).unwrap();
    layer.on_new_span(2, Some(1), "inner", Level::Info, Some(inner_id)).unwrap();
    layer.on_close(2).unwrap();
    layer.on_close(1).unwrap();

    let logs = capture.0.borrow();
    let outer = logs[0].span().unwrap();
    let inner = outer.children()[0].span().unwrap();
    assert_eq!(outer.uuid(), Some(outer_id));
    assert_eq!(inner.uuid(), Some(inner_id));
}

#[test]
fn root_spans_draw_a_fresh_id() {
    let capture = Capture::new();
    let mut layer = ForestLayer::new(capture.clone(), NoTag);
    layer.on_new_span(1, None, "a", Level::Info, None).unwrap();
    layer.on_close(1).unwrap();
    let logs = capture.0.borrow();
    assert!(logs[0].span().unwrap().uuid().is_some());
}

#[test]
fn root_events_reach_the_processor_directly() {
    let capture = Capture::new();
    let mut layer = ForestLayer::new(capture.clone(), NoTag);
    let mut visitor = EventVisitor::new();
    visitor.record_field("message", String::from("hello"));
    layer.on_event(None, "app", Level::Warn, visitor).unwrap();

    let logs = capture.0.borrow();
    assert_eq!(logs.len(), 1);
    let event = logs[0].event().unwrap();
    assert_eq!(event.message(), Some("hello"));
    assert_eq!(event.level(), Level::Warn);
    // A root event keeps the all-zero id rather than drawing a fresh one.
    assert_eq!(event.uuid(), Some(Uuid::nil()));
}

#[test]
fn two_interleaved_assemblies_do_not_share_children() {
    // Two independent root trees assembled in interleaved order: each
    // resulting tree contains only its own span names.
    let cap_a = Capture::new();
    let cap_b = Capture::new();
    let mut a = ForestLayer::new(cap_a.clone(), NoTag);
    let mut b = ForestLayer::new(cap_b.clone(), NoTag);

    a.on_new_span(1, None, "a_root", Level::Info, None).unwrap();
    b.on_new_span(1, None, "b_root", Level::Info, None).unwrap();
    a.on_new_span(2, Some(1), "a_inner", Level::Info, None).unwrap();
    b.on_new_span(2, Some(1), "b_inner", Level::Info, None).unwrap();
    b.on_close(2).unwrap();
    a.on_close(2).unwrap();
    a.on_close(1).unwrap();
    b.on_close(1).unwrap();

    let logs_a = cap_a.0.borrow();
    let logs_b = cap_b.0.borrow();
    assert_eq!(logs_a.len(), 1);
    assert_eq!(logs_b.len(), 1);
    let ra = logs_a[0].span().unwrap();
    let rb = logs_b[0].span().unwrap();
    assert_eq!(ra.name(), "a_root");
    assert_eq!(rb.name(), "b_root");
    assert_eq!(ra.children().len(), 1);
    assert_eq!(rb.children().len(), 1);
    assert_eq!(ra.children()[0].span().unwrap().name(), "a_inner");
    assert_eq!(rb.children()[0].span().unwrap().name(), "b_inner");
}

#[test]
fn message_is_captured_once() {
    let mut v = EventVisitor::new();
    v.record_field("message", String::from("first"));
    v.record_field("message", String::from("second"));
    v.record_field("key", String::from("value"));
    assert_eq!(v.message.as_deref(), Some("first"));
    assert_eq!(v.fields.len(), 2);
    assert_eq!(v.fields[0].key(), "message");
    assert_eq!(v.fields[0].value(), "second");
    assert_eq!(v.fields[1].key(), "key");
    assert_eq!(v.fields[1].value(), "value");
}

#[test]
fn immediate_flag_is_sticky() {
    let mut v = EventVisitor::new();
    assert!(!v.immediate);
    v.record_bool("immediate", true);
    v.record_bool("immediate", false);
    assert!(v.immediate);
    v.record_bool("alive", false);
    assert_eq!(v.fields.len(), 1);
    assert_eq!(v.fields[0].key(), "alive");
    assert_eq!(v.fields[0].value(), "false");
}

#[test]
fn usage_errors() {
    let mut layer = ForestLayer::new(Sink, NoTag);
    layer.on_new_span(1, None, "s", Level::Info, None).unwrap();

    // Opening the same identifier again is refused.
    assert_eq!(
        layer.on_new_span(1, None, "s", Level::Info, None),
        Err(UsageError::SpanAlreadyOpen)
    );
    // Entering, exiting or closing an unknown identifier is refused.
    assert_eq!(layer.on_enter(9, 0), Err(UsageError::SpanNotFound));
    assert_eq!(layer.on_exit(9, 0), Err(UsageError::SpanNotFound));
    assert!(matches!(layer.on_close(9), Err(tracing_forest::layer::ForestError::Usage(UsageError::SpanNotFound))));
    // Exiting without a pending enter is refused.
    assert_eq!(layer.on_exit(1, 5), Err(UsageError::SpanNotEntered));
    // Exiting before the recorded enter instant is refused.
    layer.on_enter(1, 100).unwrap();
    assert_eq!(layer.on_exit(1, 50), Err(UsageError::NonMonotoneClock));
    // Overflowing the accumulated duration is refused.
    layer.on_exit(1, u64::MAX).unwrap();
    layer.on_enter(1, 0).unwrap();
    assert_eq!(layer.on_exit(1, 200), Err(UsageError::DurationOverflow));

    assert_eq!(UsageError::SpanNotFound.message(), "Span not in context, this is a bug");
}

#[test]
fn opened_span_primitives() {
    let mut open = OpenedSpan::new(Shared::new(None, None, Level::Info), "raw");
    open.enter(10);
    open.exit(25);
    let span = open.close();
    assert_eq!(span.total_duration(), 15);
    assert_eq!(span.name(), "raw");
}
