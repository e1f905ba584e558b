//! Tests of the tree model, tags, levels, identifiers, and timestamps.
use tracing_forest::id::{from_u64_pair, into_u64_pair, Uuid};
use tracing_forest::level::Level;
use tracing_forest::tag::{resolve_tag, NoTag, Tag, TagParser};
use tracing_forest::time::Timestamp;
use tracing_forest::tree::{Event, KeyValue, Shared, Span, Tree};

#[test]
fn level_names() {
    assert_eq!(Level::Trace.as_str(), "TRACE");
    assert_eq!(Level::Debug.as_str(), "DEBUG");
    assert_eq!(Level::Info.as_str(), "INFO");
    assert_eq!(Level::Warn.as_str(), "WARN");
    assert_eq!(Level::Error.as_str(), "ERROR");
    assert_eq!(Level::Info.padded_str(), "INFO     ");
    assert_eq!(Level::Error.padded_str(), "ERROR    ");
}

#[test]
fn tag_from_level_uses_canonical_icon_and_label() {
    let t = Tag::new_from_level(None, Level::Warn);
    assert_eq!(t.icon(), '🚧');
    assert_eq!(t.display_string(), "warn");

    let t = Tag::new_from_level(Some("admin"), Level::Error);
    assert_eq!(t.icon(), '🚨');
    assert_eq!(t.display_string(), "admin.error");
}

#[test]
fn tag_custom() {
    let t = Tag::new(Some("security"), "critical", '🔐');
    assert_eq!(t.icon(), '🔐');
    assert_eq!(t.display_string(), "security.critical");
}

#[test]
fn resolve_tag_prefers_parsed() {
    let custom = Tag::new(None, "custom", '!');
    let r = resolve_tag(Some(custom), Level::Info);
    assert_eq!(r.display_string(), "custom");
    let d = resolve_tag(None, Level::Info);
    assert_eq!(d.display_string(), "info");
    assert_eq!(d.icon(), 'ｉ');
}

#[test]
fn no_tag_declines() {
    assert!(NoTag.try_parse("anything", Level::Info).is_none());
}

#[test]
fn uuid_pair_round_trip() {
    let id = from_u64_pair(0x0123_4567_89ab_cdef, 0xfedc_ba98_7654_3210);
    let (msb, lsb) = into_u64_pair(&id);
    assert_eq!(msb, 0x0123_4567_89ab_cdef);
    assert_eq!(lsb, 0xfedc_ba98_7654_3210);
    assert_eq!(id.display_string(), "01234567-89ab-cdef-fedc-ba9876543210");
}

#[test]
fn uuid_nil_display() {
    assert_eq!(Uuid::nil().display_string(), "00000000-0000-0000-0000-000000000000");
}

#[test]
fn timestamp_bounds() {
    assert!(Timestamp::from_parts(0, 0).is_some());
    assert!(Timestamp::from_parts(8_210_266_876_799, 999_999_999).is_some());
    assert!(Timestamp::from_parts(8_210_266_876_800, 0).is_none());
    assert!(Timestamp::from_parts(-1, 0).is_none());
    assert!(Timestamp::from_parts(0, 1_000_000_000).is_none());
    let now = Timestamp::now();
    assert!(now.nanos < 1_000_000_000);
}

#[test]
fn timestamp_renders_rfc3339() {
    let t = Timestamp::from_parts(1431648000, 0).unwrap();
    assert_eq!(t.rfc3339_string(), "2015-05-15T00:00:00+00:00");
    let t = Timestamp::from_parts(1516991409, 453_829_000).unwrap();
    assert_eq!(t.rfc3339_string(), "2018-01-26T18:30:09.453829+00:00");
}

#[test]
fn tree_narrowing() {
    let shared = Shared::new(None, None, Level::Info);
    let event = Event::new(shared, Some(String::from("hi")), Tag::new_from_level(None, Level::Info), Vec::new());
    let tree = Tree::Event(event);
    assert!(tree.event().is_ok());
    let err = tree.span().unwrap_err();
    assert_eq!(err.message(), "Expected a span, found an event");

    let span = Span::new(Shared::new(None, None, Level::Info), "s");
    let tree = Tree::Span(span);
    assert!(tree.span().is_ok());
    let err = tree.event().unwrap_err();
    assert_eq!(err.message(), "Expected an event, found a span");
}

#[test]
fn tree_into_narrowing() {
    let span = Span::new(Shared::new(None, None, Level::Info), "s");
    let err = Tree::Span(span).into_event().unwrap_err();
    assert!(!err.is_event);
    assert_eq!(err.message(), "Found span");
    let event = Event::new(
        Shared::new(None, None, Level::Info),
        None,
        Tag::new_from_level(None, Level::Info),
        Vec::new(),
    );
    let err = Tree::Event(event).into_span().unwrap_err();
    assert!(err.is_event);
    assert_eq!(err.message(), "Found event");
}

#[test]
fn event_accessors() {
    let shared = Shared::new(None, None, Level::Debug);
    let fields = vec![KeyValue::new("alive", String::from("false"))];
    let event = Event::new(shared, None, Tag::new_from_level(None, Level::Debug), fields);
    assert_eq!(event.level(), Level::Debug);
    assert!(event.message().is_none());
    assert!(event.uuid().is_none());
    assert!(event.timestamp().is_none());
    assert_eq!(event.fields().len(), 1);
    assert_eq!(event.fields()[0].key(), "alive");
    assert_eq!(event.fields()[0].value(), "false");
    assert_eq!(event.tag().icon(), '🐛');
}

#[test]
fn span_accessors() {
    let span = Span::new(Shared::new(None, None, Level::Info), "root");
    assert_eq!(span.name(), "root");
    assert!(span.is_empty());
    assert_eq!(span.total_duration(), 0);
    assert_eq!(span.inner_duration(), 0);
    assert_eq!(span.base_duration(), 0);
    assert_eq!(span.children().len(), 0);
}
