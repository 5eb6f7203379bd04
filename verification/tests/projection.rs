use rootcause_opentelemetry::attachments::{
    Attachment, AttachmentAction, AttachmentDigest, AttachmentValue, TypeTag,
};
use rootcause_opentelemetry::event::{
    attributes, compile, resolve_timestamp, Attribute, AttributeValue, FinishedEvent,
    TimestampChoice,
};
use rootcause_opentelemetry::event_spec::{
    Children, ExceptionEventConfig, ExceptionEventConfigExt, ExceptionEventSpec,
};
use rootcause_opentelemetry::projector::{project, project_at};
use rootcause_opentelemetry::report::ReportNode;
use rootcause_opentelemetry::tristate::TriState;
use std::time::{Duration, SystemTime};

fn at(secs: u64) -> SystemTime {
    SystemTime::UNIX_EPOCH + Duration::from_secs(secs)
}

fn text(s: &str) -> String {
    s.to_string()
}

fn timestamp(secs: u64, shown: &str) -> Attachment {
    Attachment::new(AttachmentValue::Timestamp(at(secs)), text(shown))
}

fn backtrace(shown: &str) -> Attachment {
    Attachment::new(AttachmentValue::Backtrace, text(shown))
}

fn location(shown: &str) -> Attachment {
    Attachment::new(AttachmentValue::Location, text(shown))
}

fn other(kind: u64, shown: &str) -> Attachment {
    Attachment::new(AttachmentValue::Other(kind), text(shown))
}

fn attr_text(key: &str, value: &str) -> Attribute {
    Attribute { key: text(key), value: AttributeValue::Text(text(value)) }
}

/// A report with two timestamps around one backtrace.
fn two_times_one_trace() -> ReportNode {
    ReportNode::new(text("IoError"), text("disk full"))
        .attach(timestamp(10, "t-first"))
        .attach(backtrace("bt-frames"))
        .attach(timestamp(20, "t-second"))
}

fn extras_of(event: &FinishedEvent) -> Option<Vec<String>> {
    for a in &event.attributes {
        if a.key == "exception.extras" {
            if let AttributeValue::TextList(v) = &a.value {
                return Some(v.clone());
            }
        }
    }
    None
}

fn value_of(event: &FinishedEvent, key: &str) -> Option<AttributeValue> {
    for a in &event.attributes {
        if a.key == key {
            return Some(a.value.clone());
        }
    }
    None
}

#[test]
fn unset_children_give_one_event() {
    let node = ReportNode::new(text("A"), text("a"))
        .with_child(ReportNode::new(text("B"), text("b")))
        .with_child(ReportNode::new(text("C"), text("c")));
    let events = project_at(&node, &ExceptionEventSpec::new(), at(5));
    assert_eq!(events.len(), 1);
    assert_eq!(events[0].name, "exception");
    assert_eq!(events[0].timestamp, at(5));
    assert_eq!(events[0].attributes, vec![attr_text("exception.message", "a")]);
}

#[test]
fn leaf_gives_one_event_whatever_children_says() {
    let node = ReportNode::new(text("A"), text("a"));
    assert_eq!(project_at(&node, &ExceptionEventSpec::new().recurse(), at(5)).len(), 1);
    let child = ExceptionEventSpec::new().ex_type();
    assert_eq!(project_at(&node, &ExceptionEventSpec::new().children(child), at(5)).len(), 1);
}

#[test]
fn inferred_children_give_preorder() {
    let b = ReportNode::new(text("B"), text("b"))
        .with_child(ReportNode::new(text("B1"), text("b1")))
        .with_child(ReportNode::new(text("B2"), text("b2")));
    let c = ReportNode::new(text("C"), text("c")).with_child(ReportNode::new(text("C1"), text("c1")));
    let node = ReportNode::new(text("A"), text("a")).with_child(b).with_child(c);
    let spec = ExceptionEventSpec::new().ex_type().recurse();
    let events = project_at(&node, &spec, at(1));
    let order: Vec<AttributeValue> =
        events.iter().map(|e| value_of(e, "exception.type").unwrap()).collect();
    let want: Vec<AttributeValue> = ["A", "B", "B1", "B2", "C", "C1"]
        .iter()
        .map(|s| AttributeValue::Text(text(s)))
        .collect();
    assert_eq!(order, want);
    let per_child: usize =
        node.children.iter().map(|child| project_at(child, &spec, at(1)).len()).sum();
    assert_eq!(events.len(), 1 + per_child);
}

#[test]
fn explicit_children_hold_for_one_level() {
    let b = ReportNode::new(text("B"), text("b")).with_child(ReportNode::new(text("B1"), text("b1")));
    let node = ReportNode::new(text("A"), text("a")).with_child(b);
    // The child configuration does not recurse: grandchildren get no event.
    let child_spec = ExceptionEventSpec::new().set_ex_type(text("child"));
    let spec = ExceptionEventSpec::new().ex_type().children(child_spec);
    let events = project_at(&node, &spec, at(1));
    assert_eq!(events.len(), 2);
    assert_eq!(value_of(&events[0], "exception.type"), Some(AttributeValue::Text(text("A"))));
    assert_eq!(value_of(&events[1], "exception.type"), Some(AttributeValue::Text(text("child"))));
    assert_eq!(value_of(&events[1], "exception.message"), Some(AttributeValue::Text(text("b"))));

    // A child configuration that recurses reaches every descendant.
    let deep = ExceptionEventSpec::new().set_ex_type(text("below")).recurse();
    let events = project_at(&node, &ExceptionEventSpec::new().children(deep), at(1));
    assert_eq!(events.len(), 3);
    assert_eq!(value_of(&events[0], "exception.type"), None);
    assert_eq!(value_of(&events[2], "exception.type"), Some(AttributeValue::Text(text("below"))));
    assert_eq!(value_of(&events[2], "exception.message"), Some(AttributeValue::Text(text("b1"))));
}

#[test]
fn smart_keeps_only_the_second_timestamp() {
    let node = two_times_one_trace();
    let digest = AttachmentDigest::from(&node.attachments);
    let mut out = Vec::new();
    digest.list_smartly(&mut out);
    assert_eq!(out, vec![text("t-second")]);

    let spec = ExceptionEventSpec::new().attachments();
    let event = compile(&spec, &node, &digest, at(0));
    assert_eq!(extras_of(&event), Some(vec![text("t-second")]));
}

#[test]
fn all_keeps_every_text_in_order() {
    let node = two_times_one_trace();
    let digest = AttachmentDigest::from(&node.attachments);
    let mut out = Vec::new();
    digest.list_all(&mut out);
    assert_eq!(out, vec![text("t-first"), text("bt-frames"), text("t-second")]);

    let spec = ExceptionEventSpec::new().timestamped().backtrace().all_attachments();
    let event = compile(&spec, &node, &digest, at(0));
    assert_eq!(
        extras_of(&event),
        Some(vec![text("t-first"), text("bt-frames"), text("t-second")])
    );
    assert_eq!(event.timestamp, at(10));
    assert_eq!(
        value_of(&event, "exception.stacktrace"),
        Some(AttributeValue::Text(text("bt-frames")))
    );
}

#[test]
fn smart_suppresses_first_of_each_reserved_type_only() {
    let atts = vec![
        other(7, "k1"),
        location("loc-1"),
        backtrace("bt-1"),
        location("loc-2"),
        timestamp(1, "t-1"),
        other(7, "k2"),
        backtrace("bt-2"),
        other(8, "z"),
    ];
    let digest = AttachmentDigest::from(&atts);
    let mut out = vec![text("kept")];
    digest.list_smartly(&mut out);
    assert_eq!(
        out,
        vec![text("kept"), text("k1"), text("loc-2"), text("k2"), text("bt-2"), text("z")]
    );
}

#[test]
fn by_type_keeps_matching_entries() {
    let atts = vec![other(7, "k1"), timestamp(1, "t-1"), other(8, "z"), other(7, "k2")];
    let digest = AttachmentDigest::from(&atts);
    let mut out = Vec::new();
    digest.list_by_type_id(TypeTag::Other(7), &mut out);
    assert_eq!(out, vec![text("k1"), text("k2")]);
    let mut out = Vec::new();
    digest.list_by_type_id(TypeTag::Timestamp, &mut out);
    assert_eq!(out, vec![text("t-1")]);
    let mut out = Vec::new();
    digest.list_by_type_id(TypeTag::Backtrace, &mut out);
    assert!(out.is_empty());
}

#[test]
fn actions_apply_in_order_without_dedup() {
    let node = two_times_one_trace();
    let digest = AttachmentDigest::from(&node.attachments);
    let actions = vec![
        AttachmentAction::Smart,
        AttachmentAction::Custom(text("note")),
        AttachmentAction::ByType(TypeTag::Timestamp),
        AttachmentAction::Smart,
    ];
    let mut out = Vec::new();
    digest.list_into_vec(&actions, &mut out);
    assert_eq!(
        out,
        vec![text("t-second"), text("note"), text("t-first"), text("t-second"), text("t-second")]
    );
}

#[test]
fn no_extras_attribute_when_nothing_is_picked() {
    let node = ReportNode::new(text("A"), text("a")).attach(backtrace("bt"));
    let digest = AttachmentDigest::from(&node.attachments);
    let spec = ExceptionEventSpec::new().attachments();
    let event = compile(&spec, &node, &digest, at(0));
    assert_eq!(extras_of(&event), None);
    assert_eq!(event.attributes, vec![attr_text("exception.message", "a")]);
}

#[test]
fn digest_takes_first_of_each_reserved_type() {
    let atts = vec![
        other(3, "o"),
        backtrace("bt-1"),
        timestamp(11, "t-1"),
        location("loc-1"),
        timestamp(12, "t-2"),
        backtrace("bt-2"),
        location("loc-2"),
    ];
    let digest = AttachmentDigest::from(&atts);
    assert_eq!(digest.timestamp, Some(at(11)));
    assert_eq!(digest.backtrace_text, Some(text("bt-1")));
    assert_eq!(digest.location_text, Some(text("loc-1")));
    assert_eq!(
        digest.all,
        vec![
            (TypeTag::Other(3), text("o")),
            (TypeTag::Backtrace, text("bt-1")),
            (TypeTag::Timestamp, text("t-1")),
            (TypeTag::Location, text("loc-1")),
            (TypeTag::Timestamp, text("t-2")),
            (TypeTag::Backtrace, text("bt-2")),
            (TypeTag::Location, text("loc-2")),
        ]
    );
    let empty = AttachmentDigest::from(&Vec::new());
    assert_eq!(empty.timestamp, None);
    assert_eq!(empty.backtrace_text, None);
    assert_eq!(empty.location_text, None);
    assert!(empty.all.is_empty());
}

#[test]
fn explicit_backtrace_overrides_attachment() {
    let node = ReportNode::new(text("E"), text("m")).attach(backtrace("X"));
    let digest = AttachmentDigest::from(&node.attachments);
    let spec = ExceptionEventSpec::new().backtrace().override_backtrace(text("Y"));
    let event = compile(&spec, &node, &digest, at(0));
    assert_eq!(value_of(&event, "exception.stacktrace"), Some(AttributeValue::Text(text("Y"))));
    let inferred = compile(&ExceptionEventSpec::new().backtrace(), &node, &digest, at(0));
    assert_eq!(value_of(&inferred, "exception.stacktrace"), Some(AttributeValue::Text(text("X"))));
    let unset = compile(&ExceptionEventSpec::new(), &node, &digest, at(0));
    assert_eq!(value_of(&unset, "exception.stacktrace"), None);
}

#[test]
fn inferred_backtrace_without_attachment_is_left_out() {
    let node = ReportNode::new(text("E"), text("m")).attach(location("src/x.rs:1"));
    let digest = AttachmentDigest::from(&node.attachments);
    let event = compile(&ExceptionEventSpec::new().backtrace(), &node, &digest, at(0));
    assert_eq!(value_of(&event, "exception.stacktrace"), None);
}

#[test]
fn attribute_order_and_values() {
    let node = two_times_one_trace();
    let digest = AttachmentDigest::from(&node.attachments);
    let spec = ExceptionEventSpec::default()
        .custom_message(text("custom"))
        .escaped(true)
        .all_attachments();
    let got = attributes(&node, &digest, &spec);
    assert_eq!(
        got,
        vec![
            attr_text("exception.type", "IoError"),
            attr_text("exception.message", "custom"),
            attr_text("exception.stacktrace", "bt-frames"),
            Attribute { key: text("exception.escaped"), value: AttributeValue::Bool(true) },
            Attribute {
                key: text("exception.extras"),
                value: AttributeValue::TextList(vec![
                    text("t-first"),
                    text("bt-frames"),
                    text("t-second")
                ]),
            },
        ]
    );
}

#[test]
fn timestamp_resolution() {
    let none: Option<SystemTime> = None;
    assert_eq!(resolve_timestamp(&TriState::Unset, Some(at(1))), TimestampChoice::Omitted);
    assert_eq!(resolve_timestamp(&TriState::Inferred, Some(at(1))), TimestampChoice::At(at(1)));
    assert_eq!(resolve_timestamp(&TriState::Inferred, none), TimestampChoice::Now);
    assert_eq!(resolve_timestamp(&TriState::Explicit(None), Some(at(1))), TimestampChoice::Now);
    assert_eq!(
        resolve_timestamp(&TriState::Explicit(Some(at(2))), Some(at(1))),
        TimestampChoice::At(at(2))
    );

    let node = ReportNode::new(text("E"), text("m")).attach(timestamp(1, "t"));
    let digest = AttachmentDigest::from(&node.attachments);
    let now = at(99);
    let time_with = |spec: ExceptionEventSpec| compile(&spec, &node, &digest, now).timestamp;
    assert_eq!(time_with(ExceptionEventSpec::new()), now);
    assert_eq!(time_with(ExceptionEventSpec::new().timestamped()), at(1));
    assert_eq!(time_with(ExceptionEventSpec::new().timestamp_now()), now);
    assert_eq!(time_with(ExceptionEventSpec::new().set_timestamp(at(2))), at(2));
    assert_eq!(time_with(ExceptionEventSpec::new().set_timestamp(at(2)).timestamped()), at(2));
}

#[test]
fn end_to_end_io_error_with_retry() {
    let t0 = at(1_700_000_000);
    let now = at(1_800_000_000);
    let child = ReportNode::new(text("Retry"), text("retrying"));
    let root = ReportNode::new(text("IoError"), text("disk full"))
        .attach(Attachment::new(AttachmentValue::Timestamp(t0), text("T0")))
        .with_child(child);
    let spec = ExceptionEventSpec::new().ex_type().timestamped().recurse();
    let events = project_at(&root, &spec, now);
    assert_eq!(
        events,
        vec![
            FinishedEvent {
                name: text("exception"),
                timestamp: t0,
                attributes: vec![
                    attr_text("exception.type", "IoError"),
                    attr_text("exception.message", "disk full"),
                ],
            },
            FinishedEvent {
                name: text("exception"),
                timestamp: now,
                attributes: vec![
                    attr_text("exception.type", "Retry"),
                    attr_text("exception.message", "retrying"),
                ],
            },
        ]
    );
}

#[test]
fn project_reads_the_clock_for_missing_times() {
    let before = SystemTime::now();
    let child = ReportNode::new(text("Retry"), text("retrying"));
    let root = ReportNode::new(text("IoError"), text("disk full"))
        .attach(timestamp(7, "T0"))
        .with_child(child);
    let spec = ExceptionEventSpec::new().ex_type().timestamped().recurse();
    let events = project(&root, &spec);
    let after = SystemTime::now();
    assert_eq!(events.len(), 2);
    assert_eq!(events[0].timestamp, at(7));
    assert!(before <= events[1].timestamp && events[1].timestamp <= after);
    let fixed = project_at(&root, &spec, events[1].timestamp);
    assert_eq!(events, fixed);
}

#[test]
fn infer_and_set_on_a_field() {
    let t: TriState<String> = TriState::Unset;
    assert_eq!(t.clone().infer(), TriState::Inferred);
    assert_eq!(t.clone().infer().infer(), t.clone().infer());
    assert_eq!(t.clone().infer().set(text("v")), TriState::Explicit(text("v")));
    assert_eq!(t.clone().set(text("v")).infer(), TriState::Explicit(text("v")));
    assert_eq!(t.clone().set(text("v")).set(text("w")), TriState::Explicit(text("w")));
    assert_eq!(t.clone().merge(TriState::Unset), TriState::Unset);
    assert_eq!(TriState::Explicit(text("v")).merge(TriState::Inferred), TriState::Explicit(text("v")));
    assert_eq!(TriState::Explicit(text("v")).merge(TriState::Unset), TriState::Explicit(text("v")));
    assert_eq!(
        TriState::Inferred.merge(TriState::Explicit(text("w"))),
        TriState::Explicit(text("w"))
    );
}

#[test]
fn builder_fields_follow_the_same_rule() {
    let once = ExceptionEventSpec::new().ex_type().timestamped().backtrace().recurse();
    let twice = ExceptionEventSpec::new()
        .ex_type()
        .ex_type()
        .timestamped()
        .timestamped()
        .backtrace()
        .backtrace()
        .recurse()
        .recurse();
    assert_eq!(once, twice);
    assert_eq!(once.ex_type, TriState::Inferred);
    assert_eq!(once.children, Children::Inferred);

    let set_last = ExceptionEventSpec::new().ex_type().set_ex_type(text("T"));
    assert_eq!(set_last.ex_type, TriState::Explicit(text("T")));
    let set_first = ExceptionEventSpec::new().set_ex_type(text("T")).ex_type();
    assert_eq!(set_first.ex_type, TriState::Explicit(text("T")));

    let child = ExceptionEventSpec::new().backtrace();
    let kept = ExceptionEventSpec::new().children(child.clone()).recurse();
    assert_eq!(kept.children, Children::Explicit(Box::new(child)));

    let now_first = ExceptionEventSpec::new().timestamp_now().timestamped();
    assert_eq!(now_first.timestamp, TriState::Explicit(None));
}

#[test]
fn default_spec_infers_type_time_and_backtrace() {
    let spec = ExceptionEventSpec::default();
    assert_eq!(spec.ex_type, TriState::Inferred);
    assert_eq!(spec.timestamp, TriState::Inferred);
    assert_eq!(spec.backtrace, TriState::Inferred);
    assert_eq!(spec.custom_message, TriState::Unset);
    assert_eq!(spec.escaped, None);
    assert!(spec.attachments.is_empty());
    assert_eq!(spec.children, Children::Unset);
    assert_eq!(spec, ExceptionEventSpec::new().with_defaults());
}

#[test]
fn inject_layers_field_by_field() {
    let base = ExceptionEventSpec::new()
        .set_ex_type(text("Base"))
        .backtrace()
        .escaped(false)
        .all_attachments();
    let layer = ExceptionEventSpec::new()
        .ex_type()
        .override_backtrace(text("BT"))
        .timestamp_now()
        .attachments()
        .add_attacment(text("note"))
        .recurse();
    let merged = layer.clone().inject(base.clone());
    assert_eq!(merged.ex_type, TriState::Explicit(text("Base")));
    assert_eq!(merged.backtrace, TriState::Explicit(text("BT")));
    assert_eq!(merged.timestamp, TriState::Explicit(None));
    assert_eq!(merged.custom_message, TriState::Unset);
    assert_eq!(merged.escaped, Some(false));
    assert_eq!(
        merged.attachments,
        vec![
            AttachmentAction::All,
            AttachmentAction::Smart,
            AttachmentAction::Custom(text("note"))
        ]
    );
    assert_eq!(merged.children, Children::Inferred);
    assert_eq!(base.clone().config(layer), merged);
    assert_eq!(ExceptionEventSpec::new().inject(base.clone()), base);
}

#[test]
fn clones_are_equal() {
    let node = two_times_one_trace().with_child(ReportNode::new(text("B"), text("b")));
    assert_eq!(node.clone(), node);
    let spec = ExceptionEventSpec::default()
        .attachments_of_type_id(TypeTag::Other(4))
        .children(ExceptionEventSpec::new().recurse());
    assert_eq!(spec.clone(), spec);
}

#[test]
fn attachment_accessors() {
    let a = timestamp(3, "three");
    assert_eq!(a.type_tag(), TypeTag::Timestamp);
    assert_eq!(a.downcast_timestamp(), Some(at(3)));
    assert_eq!(a.formatted_text(), "three");
    let b = other(9, "nine");
    assert_eq!(b.type_tag(), TypeTag::Other(9));
    assert_eq!(b.downcast_timestamp(), None);
}
