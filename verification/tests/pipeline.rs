//! Tests of the processing pipeline: fallback composition and the
//! decoupled-worker queue.
use std::cell::RefCell;
use std::rc::Rc;
use tracing_forest::level::Level;
use tracing_forest::processor::{
    with_fallback, with_ignore_fallback, ProcessCause, ProcessReport, Processor, Sink,
};
use tracing_forest::tag::Tag;
use tracing_forest::tree::{Event, Shared, Tree};
use tracing_forest::worker::{run_shutdown, TreeQueue};

fn leaf(message: &str) -> Tree {
    Tree::Event(Event::new(
        Shared::new(None, None, Level::Info),
        Some(String::from(message)),
        Tag::new_from_level(None, Level::Info),
        Vec::new(),
    ))
}

fn message_of(tree: &Tree) -> String {
    String::from(tree.event().unwrap().message().unwrap())
}

/// A processor that always fails and hands the tree back.
struct FailKeeping;

impl Processor for FailKeeping {
    fn process(&self, tree: Tree) -> Result<(), ProcessReport> {
        Err(ProcessReport::new(Some(tree), ProcessCause::Write))
    }
}

/// A processor that always fails after consuming the tree.
struct FailConsuming;

impl Processor for FailConsuming {
    fn process(&self, tree: Tree) -> Result<(), ProcessReport> {
        drop(tree);
        Err(ProcessReport::new(None, ProcessCause::Write))
    }
}

/// A processor that stores every tree it is handed.
#[derive(Clone)]
struct Capture(Rc<RefCell<Vec<Tree>>>);

impl Capture {
    fn new() -> Capture {
        Capture(Rc::new(RefCell::new(Vec::new())))
    }
}

impl Processor for Capture {
    fn process(&self, tree: Tree) -> Result<(), ProcessReport> {
        self.0.borrow_mut().push(tree);
        Ok(())
    }
}

#[test]
fn sink_always_succeeds() {
    assert!(Sink.process(leaf("x")).is_ok());
}

#[test]
fn fallback_receives_the_kept_tree() {
    // A primary that fails with the tree intact hands it to the fallback:
    // the composition succeeds and the very tree reaches the fallback.
    let capture = Capture::new();
    let composed = with_fallback(FailKeeping, capture.clone());
    assert!(composed.process(leaf("precious")).is_ok());
    let logs = capture.0.borrow();
    assert_eq!(logs.len(), 1);
    assert_eq!(message_of(&logs[0]), "precious");
}

#[test]
fn fallback_is_skipped_when_the_tree_was_consumed() {
    // A primary that consumed the tree before failing leaves the fallback
    // nothing to retry: the composition fails and the fallback never runs.
    let capture = Capture::new();
    let composed = with_fallback(FailConsuming, capture.clone());
    let report = composed.process(leaf("gone")).unwrap_err();
    assert!(report.payload.is_none());
    assert_eq!(report.reason, ProcessCause::Write);
    assert_eq!(capture.0.borrow().len(), 0);
}

#[test]
fn ignore_fallback_discards_failures() {
    let composed = with_ignore_fallback(FailKeeping);
    assert!(composed.process(leaf("x")).is_ok());
}

#[test]
fn report_messages() {
    assert_eq!(
        ProcessReport::new(None, ProcessCause::Format).message(),
        "formatting failed"
    );
    assert_eq!(
        ProcessReport::new(None, ProcessCause::Write).message(),
        "writing failed"
    );
    assert!(ProcessReport::new(None, ProcessCause::ChannelClosed)
        .message()
        .starts_with("Sending on a closed channel"));
}

#[test]
fn queue_keeps_order_and_rejects_after_close() {
    let mut queue = TreeQueue::new();
    queue.send(leaf("one")).unwrap();
    queue.send(leaf("two")).unwrap();
    queue.close();
    let report = queue.send(leaf("late")).unwrap_err();
    assert_eq!(report.reason, ProcessCause::ChannelClosed);
    // The rejected tree comes back for a fallback to take.
    assert_eq!(message_of(report.payload.as_ref().unwrap()), "late");

    assert_eq!(message_of(&queue.try_recv().unwrap()), "one");
    assert_eq!(message_of(&queue.try_recv().unwrap()), "two");
    assert!(queue.try_recv().is_none());
}

#[test]
fn shutdown_drains_every_buffered_tree() {
    // Three trees are enqueued and shutdown is signalled at once: the
    // worker still processes all three, in order, before stopping.
    let mut queue = TreeQueue::new();
    queue.send(leaf("one")).unwrap();
    queue.send(leaf("two")).unwrap();
    queue.send(leaf("three")).unwrap();

    let capture = Capture::new();
    run_shutdown(&mut queue, &capture).unwrap();

    let logs = capture.0.borrow();
    assert_eq!(logs.len(), 3);
    assert_eq!(message_of(&logs[0]), "one");
    assert_eq!(message_of(&logs[1]), "two");
    assert_eq!(message_of(&logs[2]), "three");
    assert!(queue.try_recv().is_none());
}

#[test]
fn channel_error_falls_back_to_capture() {
    // The producer-side pattern: a closed queue hands the tree back, and a
    // fallback processor takes it.
    let mut queue = TreeQueue::new();
    queue.close();
    let report = queue.send(leaf("kept")).unwrap_err();
    let capture = Capture::new();
    assert!(report.try_fallback(&capture).is_ok());
    assert_eq!(message_of(&capture.0.borrow()[0]), "kept");
}
