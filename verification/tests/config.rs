//! Tests of the pipeline configuration: the layer builder, the JSON
//! layout switch, and the printing processors.
use std::cell::RefCell;
use std::rc::Rc;
use tracing_forest::builder::builder;
use tracing_forest::layer::EventVisitor;
use tracing_forest::level::Level;
use tracing_forest::printer::{Json, LogWriter, Printer, TestCapturePrinter, WriteError};
use tracing_forest::pretty::Pretty;
use tracing_forest::processor::Processor;
use tracing_forest::tag::{NoTag, Tag, TagParser};
use tracing_forest::tree::{Event, Shared, Tree};

/// A writing destination that collects everything it is handed.
#[derive(Clone)]
struct CollectWriter(Rc<RefCell<String>>);

impl CollectWriter {
    fn new() -> CollectWriter {
        CollectWriter(Rc::new(RefCell::new(String::new())))
    }
}

impl LogWriter for CollectWriter {
    fn write_str_all(&self, s: &str) -> Result<(), WriteError> {
        self.0.borrow_mut().push_str(s);
        Ok(())
    }
}

/// A writing destination that always fails.
struct BrokenWriter;

impl LogWriter for BrokenWriter {
    fn write_str_all(&self, _s: &str) -> Result<(), WriteError> {
        Err(WriteError)
    }
}

#[test]
fn json_layout_switch() {
    assert!(Json::compact().compact);
    assert!(!Json::pretty().compact);
    assert!(Json::new(true).compact);
    assert!(!Json::new(false).compact);
}

#[test]
fn builder_assembles_a_working_blocking_pipeline() {
    let writer = CollectWriter::new();
    let mut layer = builder().pretty().with_writer(writer.clone()).with_tag(NoTag).blocking_layer();

    layer.on_new_span(1, None, "job", Level::Info, None).unwrap();
    let mut visitor = EventVisitor::new();
    visitor.record_field("message", String::from("step"));
    layer.on_event(Some(1), "app", Level::Info, visitor).unwrap();
    layer.on_enter(1, 0).unwrap();
    layer.on_exit(1, 50).unwrap();
    layer.on_close(1).unwrap();

    let written = writer.0.borrow();
    // The root line carries the span's random id and timestamp, so only
    // the shape of the output is pinned here.
    assert!(written.contains("job [ 50.0ns | 100.000% ]\n"));
    assert!(written.contains("┕━ ｉ [info]: step\n"));
    assert_eq!(written.matches('\n').count(), 2);
}

#[test]
fn printer_reports_write_failures_with_the_tree() {
    let printer = Printer::new(Pretty::new(), BrokenWriter);
    let tree = Tree::Event(Event::new(
        Shared::new(None, None, Level::Info),
        Some(String::from("kept")),
        Tag::new_from_level(None, Level::Info),
        Vec::new(),
    ));
    let report = printer.process(tree).unwrap_err();
    assert_eq!(report.message(), "writing failed");
    let tree = report.payload.expect("the tree is handed back");
    assert_eq!(tree.event().unwrap().message(), Some("kept"));
}

#[test]
fn custom_tag_parser_applies_to_matching_events() {
    struct SecurityTag;

    impl TagParser for SecurityTag {
        fn try_parse(&self, target: &str, level: Level) -> Option<Tag> {
            if target == "security" && level == Level::Error {
                Some(Tag::new(Some("security"), "critical", '🔐'))
            } else {
                None
            }
        }
    }

    let writer = CollectWriter::new();
    let mut layer = builder().with_writer(writer.clone()).with_tag(SecurityTag).blocking_layer();
    let mut visitor = EventVisitor::new();
    visitor.record_field("message", String::from("the db has been breached"));
    layer.on_event(None, "security", Level::Error, visitor).unwrap();
    let mut visitor = EventVisitor::new();
    visitor.record_field("message", String::from("no tags here"));
    layer.on_event(None, "app", Level::Info, visitor).unwrap();

    let written = writer.0.borrow();
    assert!(written.contains("🔐 [security.critical]: the db has been breached\n"));
    assert!(written.contains("ｉ [info]: no tags here\n"));
}

#[test]
fn test_capture_printer_constructs() {
    let printer = TestCapturePrinter::new();
    let tree = Tree::Event(Event::new(
        Shared::new(None, None, Level::Info),
        Some(String::from("shown when capture is off")),
        Tag::new_from_level(None, Level::Info),
        Vec::new(),
    ));
    assert!(printer.process(tree).is_ok());
}
