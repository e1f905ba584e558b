//! Tests of the pretty renderer: durations, percentages, indentation.
use tracing_forest::id::from_u64_pair;
use tracing_forest::layer::format_immediate;
use tracing_forest::level::Level;
use tracing_forest::open_span::OpenedSpan;
use tracing_forest::pretty::{push_duration, push_percent, Pretty};
use tracing_forest::tag::Tag;
use tracing_forest::time::Timestamp;
use tracing_forest::tree::{Event, KeyValue, Shared, Tree};

fn duration(ns: u64) -> String {
    let mut s = String::new();
    push_duration(&mut s, ns);
    s
}

fn percent(part: u64, root: u64) -> String {
    let mut s = String::new();
    push_percent(&mut s, part, root);
    s
}

#[test]
fn duration_scaling() {
    assert_eq!(duration(0), "0.00ns");
    assert_eq!(duration(9), "9.00ns");
    assert_eq!(duration(40), "40.0ns");
    assert_eq!(duration(100), "100ns");
    assert_eq!(duration(999), "999ns");
    assert_eq!(duration(1_000), "1.00µs");
    assert_eq!(duration(9_999), "10.00µs");
    assert_eq!(duration(12_345), "12.3µs");
    assert_eq!(duration(999_999), "1000µs");
    assert_eq!(duration(1_500_000), "1.50ms");
    assert_eq!(duration(26_000), "26.0µs");
    assert_eq!(duration(2_000_000_000), "2.00s");
    assert_eq!(duration(2_000_000_000_000), "2000s");
}

#[test]
fn percent_rendering() {
    assert_eq!(percent(60, 100), "60.000");
    assert_eq!(percent(100, 100), "100.000");
    assert_eq!(percent(1, 3), "33.333");
    assert_eq!(percent(2, 3), "66.667");
    assert_eq!(percent(0, 100), "0.000");
    // A zero-duration root renders like a floating-point zero-by-zero.
    assert_eq!(percent(0, 0), "NaN");
}

fn info_event(message: &str) -> Event {
    Event::new(
        Shared::new(None, None, Level::Info),
        Some(String::from(message)),
        Tag::new_from_level(None, Level::Info),
        Vec::new(),
    )
}

#[test]
fn known_fixture_renders_exactly() {
    // A root span of 100 time units holding a 40-unit child span and one
    // trailing event: the root shows 60.000% exclusive and 100.000%
    // inclusive load, and the last child carries the last-branch marker.
    let mut outer = OpenedSpan::new(Shared::new(None, None, Level::Info), "outer");
    outer.enter(0);
    outer.exit(100);
    let mut inner = OpenedSpan::new(Shared::new(None, None, Level::Info), "inner");
    inner.enter(0);
    inner.exit(40);
    outer.record_span(inner.close());
    outer.record_event(info_event("hi"));
    let tree = Tree::Span(outer.close());

    let rendered = Pretty::new().fmt_string(&tree);
    let expected = "INFO     outer [ 100ns | 60.000% / 100.000% ]\n\
                    INFO     ┝━ inner [ 40.0ns | 40.000% ]\n\
                    INFO     ┕━ ｉ [info]: hi\n";
    assert_eq!(rendered, expected);
}

#[test]
fn indent_markers_normalize_below_branches() {
    // A branch marker turns into a vertical connector below itself, and a
    // last-branch marker turns blank.
    let mut s1 = OpenedSpan::new(Shared::new(None, None, Level::Info), "first");
    s1.record_event(info_event("one"));
    s1.record_event(info_event("two"));
    let mut s2 = OpenedSpan::new(Shared::new(None, None, Level::Info), "second");
    s2.record_event(info_event("three"));
    let mut root = OpenedSpan::new(Shared::new(None, None, Level::Info), "root");
    root.enter(0);
    root.exit(10);
    root.record_span(s1.close());
    root.record_span(s2.close());
    let tree = Tree::Span(root.close());

    let rendered = Pretty::new().fmt_string(&tree);
    let expected = "INFO     root [ 10.0ns | 100.000% ]\n\
                    INFO     ┝━ first [ 0.00ns | 0.000% ]\n\
                    INFO     │  ┝━ ｉ [info]: one\n\
                    INFO     │  ┕━ ｉ [info]: two\n\
                    INFO     ┕━ second [ 0.00ns | 0.000% ]\n\
                    INFO        ┕━ ｉ [info]: three\n";
    assert_eq!(rendered, expected);
}

#[test]
fn event_line_includes_fields_in_order() {
    let event = Event::new(
        Shared::new(None, None, Level::Error),
        Some(String::from("there's been a mistake")),
        Tag::new(Some("admin"), "error", '🚨'),
        vec![
            KeyValue::new("alive", String::from("false")),
            KeyValue::new("status", String::from("\"very sad\"")),
        ],
    );
    let rendered = Pretty::new().fmt_string(&Tree::Event(event));
    assert_eq!(
        rendered,
        "ERROR    🚨 [admin.error]: there's been a mistake | alive: false | status: \"very sad\"\n"
    );
}

#[test]
fn event_without_message_renders_empty_message() {
    let event = Event::new(
        Shared::new(None, None, Level::Trace),
        None,
        Tag::new_from_level(None, Level::Trace),
        Vec::new(),
    );
    let rendered = Pretty::new().fmt_string(&Tree::Event(event));
    assert_eq!(rendered, "TRACE    📍 [trace]: \n");
}

#[test]
fn immediate_line_lists_ancestors() {
    let event = Event::new(
        Shared::new(None, None, Level::Warn),
        Some(String::from("urgent")),
        Tag::new_from_level(None, Level::Warn),
        vec![KeyValue::new("code", String::from("7"))],
    );
    let chain = vec!["root", "middle"];
    let line = format_immediate(&event, &chain, None);
    assert_eq!(line, "WARN     🚧 IMMEDIATE 🚧 root > middle > urgent | code: 7\n");
}

#[test]
fn prefix_includes_id_and_padded_timestamp() {
    let ts = Timestamp::from_parts(1431648000, 0).unwrap();
    let id = from_u64_pair(0, 1);
    let event = Event::new(
        Shared::new(Some(id), Some(ts), Level::Info),
        Some(String::from("stamped")),
        Tag::new_from_level(None, Level::Info),
        Vec::new(),
    );
    let rendered = Pretty::new().fmt_string(&Tree::Event(event));
    // The timestamp is padded to thirty-two columns before the level.
    assert_eq!(
        rendered,
        "00000000-0000-0000-0000-000000000001 \
         2015-05-15T00:00:00+00:00        \
         INFO     ｉ [info]: stamped\n"
    );
}

#[test]
fn zero_root_duration_renders_nan_loads() {
    let root = OpenedSpan::new(Shared::new(None, None, Level::Info), "idle");
    let rendered = Pretty::new().fmt_string(&Tree::Span(root.close()));
    assert_eq!(rendered, "INFO     idle [ 0.00ns | NaN% ]\n");
}
