use rootcause_opentelemetry::attachments::{Attachment, AttachmentValue, TypeTag};
use rootcause_opentelemetry::builder::{ExceptionEventBuilder, ReportExt, ReportWrapper};
use rootcause_opentelemetry::event::{Attribute, AttributeValue, FinishedEvent};
use rootcause_opentelemetry::event_builder::EventConfig;
use rootcause_opentelemetry::event_spec::{
    ExceptionEventConfig, ExceptionEventConfigExt, ExceptionEventSpec,
};
use rootcause_opentelemetry::granular::{Event, GranularExceptions, PendingEvent};
use rootcause_opentelemetry::keys::EXCEPTION;
use rootcause_opentelemetry::log_event::{
    emit_error_report, error_report_record, SEVERITY_ERROR,
};
use rootcause_opentelemetry::report::ReportNode;
use rootcause_opentelemetry::reports::{
    AttachmentFormattingPlacement, FormatError, FormattingFunction, JsonHandler, OTelAttribute,
    SystemTimeCollector,
};
use rootcause_opentelemetry::span_context::SpanContext;
use rootcause_opentelemetry::span_event::{RecordErrorReport, SpanAction, Status};
use rootcause_opentelemetry::tristate::TriState;
use rootcause_opentelemetry::utilities::{
    attributes, attributes_brief, timestamp, timestamp_or, AttachmentsExt,
};
use std::time::{Duration, SystemTime};

fn at(secs: u64) -> SystemTime {
    SystemTime::UNIX_EPOCH + Duration::from_secs(secs)
}

fn text(s: &str) -> String {
    s.to_string()
}

fn attr(key: &str, value: &str) -> Attribute {
    Attribute { key: text(key), value: AttributeValue::Text(text(value)) }
}

fn span(trace: u128, id: u64) -> SpanContext {
    SpanContext {
        trace_id: trace,
        span_id: id,
        trace_flags: 1,
        is_remote: false,
        trace_state: String::new(),
    }
}

fn in_span(node: ReportNode, ctx: SpanContext) -> ReportNode {
    node.attach(Attachment::new(AttachmentValue::SpanContext(ctx), text("span")))
}

fn stamped(node: ReportNode, secs: u64) -> ReportNode {
    node.attach(Attachment::new(AttachmentValue::Timestamp(at(secs)), text("time")))
}

fn leaf(kind: &str, message: &str) -> ReportNode {
    ReportNode::new(text(kind), text(message))
}

#[test]
fn event_name_is_exception() {
    assert_eq!(EXCEPTION, "exception");
}

#[test]
fn brief_and_full_attributes() {
    let rep = leaf("IoError", "disk full");
    assert_eq!(
        attributes_brief(&rep),
        vec![attr("exception.type", "IoError"), attr("exception.message", "disk full")]
    );
    assert_eq!(
        attributes(&rep, "IoError: disk full\n  at main"),
        vec![
            attr("exception.type", "IoError"),
            attr("exception.message", "disk full"),
            attr("exception.stacktrace", "IoError: disk full\n  at main"),
        ]
    );
}

#[test]
fn report_time_is_first_timestamp_or_now() {
    let rep = stamped(stamped(leaf("E", "m"), 5), 6);
    assert_eq!(timestamp_or(&rep, at(99)), at(5));
    assert_eq!(timestamp(&rep), at(5));
    let bare = leaf("E", "m");
    assert_eq!(timestamp_or(&bare, at(99)), at(99));
    let before = SystemTime::now();
    let read = timestamp(&bare);
    assert!(before <= read && read <= SystemTime::now());
}

#[test]
fn find_attachment_takes_the_first_of_a_type() {
    let rep = leaf("E", "m")
        .attach(Attachment::new(AttachmentValue::Other(1), text("a")))
        .attach(Attachment::new(AttachmentValue::Backtrace, text("bt-1")))
        .attach(Attachment::new(AttachmentValue::Other(1), text("b")))
        .attach(Attachment::new(AttachmentValue::Backtrace, text("bt-2")));
    assert_eq!(rep.find_attachment(TypeTag::Backtrace).map(|a| a.text.clone()), Some(text("bt-1")));
    assert_eq!(rep.find_attachment(TypeTag::Other(1)).map(|a| a.text.clone()), Some(text("a")));
    assert!(rep.find_attachment(TypeTag::Other(2)).is_none());
    assert!(rep.find_attachment(TypeTag::Timestamp).is_none());
    assert!(rep.attachments.find_attachment(TypeTag::Location).is_none());
}

#[test]
fn record_steps_add_actions_in_order() {
    let rep = stamped(leaf("IoError", "disk full"), 5);
    let actions = RecordErrorReport::new(&rep, "printed", span(1, 1), at(50))
        .as_event_brief()
        .as_event()
        .with_error_status()
        .on_span_attributes()
        .as_span_attributes_brief()
        .end_span()
        .into_actions();
    let brief = vec![attr("exception.type", "IoError"), attr("exception.message", "disk full")];
    let mut full = brief.clone();
    full.push(attr("exception.stacktrace", "printed"));
    assert_eq!(
        actions,
        vec![
            SpanAction::AddEvent(FinishedEvent {
                name: text("exception"),
                timestamp: at(5),
                attributes: brief.clone(),
            }),
            SpanAction::AddEvent(FinishedEvent {
                name: text("exception"),
                timestamp: at(5),
                attributes: full.clone(),
            }),
            SpanAction::SetAttributes(vec![attr("error.type", "IoError")]),
            SpanAction::SetStatus(Status::Error { description: text("disk full") }),
            SpanAction::SetAttributes(full),
            SpanAction::SetAttributes(brief),
            SpanAction::End(at(5)),
        ]
    );
}

#[test]
fn record_without_timestamp_uses_start_time() {
    let rep = leaf("E", "m");
    let actions =
        RecordErrorReport::new(&rep, "p", span(1, 1), at(50)).as_event_brief().end_span().into_actions();
    match &actions[0] {
        SpanAction::AddEvent(e) => assert_eq!(e.timestamp, at(50)),
        other => panic!("unexpected action {:?}", other),
    }
    assert_eq!(actions[1], SpanAction::End(at(50)));
}

#[test]
fn links_go_to_foreign_spans_in_preorder() {
    let current = span(1, 1);
    let b1 = in_span(leaf("B1", "b1"), span(1, 3));
    let b = in_span(leaf("B", "b"), span(1, 1)).with_child(b1);
    let c = in_span(in_span(leaf("C", "c"), span(2, 9)), span(2, 10));
    let d = leaf("D", "d");
    let root = in_span(leaf("A", "a"), span(1, 2)).with_child(b).with_child(c).with_child(d);

    let links = RecordErrorReport::new(&root, "p", current.clone(), at(0))
        .link_child_report_spans()
        .into_actions();
    let link = |ctx: SpanContext, kind: &str, message: &str| SpanAction::AddLink {
        span_context: ctx,
        attributes: vec![attr("exception.type", kind), attr("exception.message", message)],
    };
    assert_eq!(
        links,
        vec![link(span(1, 2), "A", "a"), link(span(1, 3), "B1", "b1"), link(span(2, 9), "C", "c")]
    );

    let terse = RecordErrorReport::new(&root, "p", current, at(0))
        .link_child_report_spans_brief()
        .into_actions();
    let link = |ctx: SpanContext, kind: &str| SpanAction::AddLink {
        span_context: ctx,
        attributes: vec![attr("error.type", kind)],
    };
    assert_eq!(terse, vec![link(span(1, 2), "A"), link(span(1, 3), "B1"), link(span(2, 9), "C")]);
}

#[test]
fn no_links_within_one_span() {
    let current = span(4, 4);
    let root = in_span(leaf("A", "a"), span(4, 4)).with_child(leaf("B", "b"));
    let actions =
        RecordErrorReport::new(&root, "p", current, at(0)).link_child_report_spans().into_actions();
    assert!(actions.is_empty());
}

#[test]
fn span_contexts_compare_in_every_part() {
    let a = span(1, 2);
    assert!(a.same(&span(1, 2)));
    assert!(!a.same(&span(1, 3)));
    assert!(!a.same(&span(2, 2)));
    let mut remote = span(1, 2);
    remote.is_remote = true;
    assert!(!a.same(&remote));
    let mut flagged = span(1, 2);
    flagged.trace_flags = 0;
    assert!(!a.same(&flagged));
    let mut stated = span(1, 2);
    stated.trace_state = text("k=v");
    assert!(!a.same(&stated));
    assert!(a.is_valid());
    assert!(!span(0, 2).is_valid());
    assert!(!span(1, 0).is_valid());
    assert_eq!(a.clone(), a);
}

#[test]
fn wrapper_sends_events_then_status() {
    let child = leaf("Retry", "retrying");
    let root = stamped(leaf("IoError", "disk full"), 7).with_child(child);
    let wrapper = ReportWrapper::new(root.clone())
        .ex_type()
        .timestamped()
        .recurse()
        .status(Status::Error { description: text("failed") });
    assert_eq!(wrapper.underlying_report_ref(), Some(&root));
    let (report, actions) = wrapper.send_at(at(100));
    assert_eq!(report, root);
    assert_eq!(
        actions,
        vec![
            SpanAction::AddEvent(FinishedEvent {
                name: text("exception"),
                timestamp: at(7),
                attributes: vec![
                    attr("exception.type", "IoError"),
                    attr("exception.message", "disk full")
                ],
            }),
            SpanAction::AddEvent(FinishedEvent {
                name: text("exception"),
                timestamp: at(100),
                attributes: vec![
                    attr("exception.type", "Retry"),
                    attr("exception.message", "retrying")
                ],
            }),
            SpanAction::SetStatus(Status::Error { description: text("failed") }),
        ]
    );
}

#[test]
fn wrapper_with_unset_status_leaves_status_alone() {
    let (_, actions) = ReportWrapper::new(leaf("E", "m")).send_at(at(3));
    assert_eq!(
        actions,
        vec![SpanAction::AddEvent(FinishedEvent {
            name: text("exception"),
            timestamp: at(3),
            attributes: vec![attr("exception.type", "E"), attr("exception.message", "m")],
        })]
    );
    let (_, actions) = ReportWrapper::new(leaf("E", "m")).status(Status::Success).send_at(at(3));
    assert_eq!(actions.len(), 2);
    assert_eq!(actions[1], SpanAction::SetStatus(Status::Success));
    let before = SystemTime::now();
    let (_, actions) = ReportWrapper::new(leaf("E", "m")).send();
    match &actions[0] {
        SpanAction::AddEvent(e) => {
            assert!(before <= e.timestamp && e.timestamp <= SystemTime::now())
        },
        other => panic!("unexpected action {:?}", other),
    }
}

#[test]
fn results_are_sent_only_if_they_hold_a_report() {
    let ok: Result<u8, ReportWrapper> = Ok(3);
    assert!(ok.underlying_report_ref().is_none());
    let (result, actions) = ok.status(Status::Success).send();
    assert_eq!(result, Ok(3));
    assert!(actions.is_empty());

    let err: Result<u8, ReportWrapper> = Err(ReportWrapper::new(leaf("E", "m")));
    assert_eq!(err.underlying_report_ref(), Some(&leaf("E", "m")));
    let (result, actions) = err.status(Status::Success).send();
    assert_eq!(result, Err(leaf("E", "m")));
    assert_eq!(actions.len(), 2);
    assert_eq!(actions[1], SpanAction::SetStatus(Status::Success));
}

#[test]
fn report_ext_builds_wrappers() {
    let raw = leaf("E", "m").otel_raw();
    assert_eq!(raw.spec, ExceptionEventSpec::default());
    assert_eq!(raw.status, Status::Unset);
    let def = leaf("E", "m").otel();
    assert_eq!(def.spec, ExceptionEventSpec::default());
    assert_eq!(def.report, leaf("E", "m"));
    let layer = ExceptionEventSpec::new().set_ex_type(text("T")).recurse();
    let with = leaf("E", "m").otel_spec(layer.clone());
    assert_eq!(with.spec, ExceptionEventSpec::default().set_ex_type(text("T")).recurse());
    let configured = leaf("E", "m").otel().config(layer).with_defaults();
    assert_eq!(configured.spec.ex_type, TriState::Explicit(text("T")));
    assert_eq!(configured.spec.timestamp, TriState::Inferred);

    let ok: Result<u8, ReportNode> = Ok(3);
    assert_eq!(ok.otel().ok(), Some(3));
    let err: Result<u8, ReportNode> = Err(leaf("E", "m"));
    let wrapped = err.otel().err().unwrap();
    assert_eq!(wrapped.spec, ExceptionEventSpec::default());
    let err: Result<u8, ReportNode> = Err(leaf("E", "m"));
    assert_eq!(err.otel_raw().err().unwrap().spec, ExceptionEventSpec::default());
    let err: Result<u8, ReportNode> = Err(leaf("E", "m"));
    let layer = ExceptionEventSpec::new().escaped(true);
    assert_eq!(
        err.otel_spec(layer).err().unwrap().spec,
        ExceptionEventSpec::default().escaped(true)
    );
}

#[test]
fn granular_events_put_causes_first() {
    let b1 = leaf("B1", "b1");
    let b = leaf("B", "b")
        .attach(Attachment::new(AttachmentValue::Location, text("src/b.rs:4")))
        .with_child(b1);
    let c = stamped(leaf("C", "c"), 9);
    let root = leaf("A", "a")
        .attach(Attachment::new(AttachmentValue::Backtrace, text("frames")))
        .attach(Attachment::new(AttachmentValue::Backtrace, text("later frames")))
        .with_child(b)
        .with_child(c);
    let events = GranularExceptions(&root).record();
    let plain = |kind: &str, message: &str| {
        vec![attr("exception.type", kind), attr("exception.message", message)]
    };
    let mut of_b = plain("B", "b");
    of_b.push(attr("exception.location", "src/b.rs:4"));
    let mut of_a = plain("A", "a");
    of_a.push(attr("exception.stacktrace", "frames"));
    let event = |timestamp: Option<SystemTime>, attributes: Vec<Attribute>| PendingEvent {
        name: text("exception"),
        timestamp,
        attributes,
    };
    assert_eq!(
        events,
        vec![
            event(None, plain("B1", "b1")),
            event(None, of_b),
            event(Some(at(9)), plain("C", "c")),
            event(None, of_a.clone()),
        ]
    );
    let top = GranularExceptions(&root);
    assert_eq!(top.name(), "exception");
    assert_eq!(top.timestamp(), None);
    assert_eq!(top.attributes(), of_a);
}

#[test]
fn log_record_for_a_report() {
    let current = span(1, 1);
    let rep = in_span(stamped(leaf("IoError", "disk full"), 5), span(8, 9))
        .attach(Attachment::new(AttachmentValue::Severity(13), text("WARN")));
    let record = error_report_record(&rep, "printed", &current, at(60));
    assert_eq!(record.event_name, "exception");
    assert_eq!(record.observed_timestamp, at(5));
    assert_eq!(record.timestamp, at(60));
    assert_eq!(record.severity_number, 13);
    assert_eq!(record.trace_context, Some(span(8, 9)));
    assert_eq!(
        record.attributes,
        vec![
            attr("exception.type", "IoError"),
            attr("exception.message", "disk full"),
            attr("exception.stacktrace", "printed"),
        ]
    );

    let bare = leaf("E", "m");
    let record = error_report_record(&bare, "p", &current, at(60));
    assert_eq!(record.observed_timestamp, at(60));
    assert_eq!(record.severity_number, SEVERITY_ERROR);
    assert_eq!(record.severity_number, 17);
    assert_eq!(record.trace_context, Some(span(1, 1)));

    let record = error_report_record(&bare, "p", &span(0, 0), at(60));
    assert_eq!(record.trace_context, None);
    let invalid = in_span(leaf("E", "m"), span(0, 5));
    let record = error_report_record(&invalid, "p", &current, at(60));
    assert_eq!(record.trace_context, None);

    let before = SystemTime::now();
    let record = emit_error_report(&bare, "p", &current);
    assert!(before <= record.timestamp && record.timestamp <= SystemTime::now());
    assert_eq!(record.observed_timestamp, record.timestamp);
}

#[test]
fn collector_reads_the_clock() {
    let before = SystemTime::now();
    let collected = SystemTimeCollector.collect();
    assert!(before <= collected && collected <= SystemTime::now());
}

#[test]
fn json_handler_shows_pretty_and_compact_json() {
    let value: serde_json::Value = serde_json::from_str("{\"a\":[1,2],\"b\":\"x\"}").unwrap();
    assert_eq!(
        JsonHandler::display(&value),
        Ok(text("{\n  \"a\": [\n    1,\n    2\n  ],\n  \"b\": \"x\"\n}"))
    );
    assert_eq!(JsonHandler::debug(&value), Ok(text("{\"a\":[1,2],\"b\":\"x\"}")));
    assert_eq!(JsonHandler::display(&serde_json::Value::Null), Ok(text("null")));
}

#[test]
fn json_handler_hides_the_cause_of_a_failure() {
    let failure = serde_json::from_str::<serde_json::Value>("{").unwrap_err();
    assert_eq!(JsonHandler::written(Err(failure)), Err(FormatError));
    assert_eq!(JsonHandler::written(Ok(text("{}"))), Ok(text("{}")));
}

#[test]
fn otel_attribute_shows_key_and_value() {
    let show = |value: AttributeValue| OTelAttribute::display(&Attribute { key: text("k"), value });
    assert_eq!(show(AttributeValue::Text(text("some text"))), "k: some text");
    assert_eq!(show(AttributeValue::Text(String::new())), "k: ");
    assert_eq!(show(AttributeValue::Bool(true)), "k: true");
    assert_eq!(show(AttributeValue::Bool(false)), "k: false");
    assert_eq!(show(AttributeValue::Int(-42)), "k: -42");
    assert_eq!(
        show(AttributeValue::TextList(vec![text("a"), text("b")])),
        "k: [\"a\",\"b\"]"
    );
    assert_eq!(show(AttributeValue::TextList(Vec::new())), "k: []");
}

#[test]
fn otel_attribute_goes_to_its_appendix() {
    let style = OTelAttribute::preferred_formatting_style();
    assert_eq!(
        style.placement,
        AttachmentFormattingPlacement::Appendix { appendix_name: "OTel Attributes" }
    );
    assert_eq!(style.function, FormattingFunction::Display);
    assert_eq!(style.priority, 0);
}

#[test]
fn event_config_builds_one_event() {
    let rep = stamped(leaf("IoError", "disk full"), 4)
        .attach(Attachment::new(AttachmentValue::Location, text("src/x.rs:1")))
        .attach(Attachment::new(AttachmentValue::Backtrace, text("frames")));
    let mut out = Vec::new();
    EventConfig::new().build(&rep, &mut out);
    assert_eq!(
        out,
        vec![PendingEvent {
            name: text("exception"),
            timestamp: Some(at(4)),
            attributes: vec![
                attr("exception.message", "disk full"),
                attr("exception.type", "IoError"),
                attr("exception.stacktrace", "frames"),
            ],
        }]
    );

    let located = leaf("E", "m").attach(Attachment::new(AttachmentValue::Location, text("here")));
    EventConfig::new().build(&located, &mut out);
    assert_eq!(out.len(), 2);
    assert_eq!(out[1].timestamp, None);
    assert_eq!(
        out[1].attributes,
        vec![
            attr("exception.message", "m"),
            attr("exception.type", "E"),
            attr("exception.stacktrace", "here"),
        ]
    );

    let bare = leaf("E", "m");
    EventConfig::new().build(&bare, &mut out);
    assert_eq!(out[2].attributes, vec![attr("exception.message", "m"), attr("exception.type", "E")]);
}

#[test]
fn event_config_skips_reports_that_were_sent() {
    let rep = leaf("E", "m").attach(Attachment::new(AttachmentValue::SentTo, text("sent")));
    let mut out = Vec::new();
    EventConfig::new().build(&rep, &mut out);
    assert!(out.is_empty());
    assert_eq!(rep.attachments[0].type_tag(), TypeTag::SentTo);
}
