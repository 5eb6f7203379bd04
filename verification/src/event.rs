use crate::attachments::{extras, texts, AttachmentDigest, DigestModel};
use crate::event_spec::{EventSpecModel, ExceptionEventSpec};
use crate::keys::{
    escaped_key, exception_message, exception_stacktrace, exception_type, extras_key,
    lemma_keys_differ, message_key, owned, stacktrace_key, type_key, EXCEPTION,
};
use crate::report::ReportNode;
use crate::tristate::TriState;
use std::time::SystemTime;
use vstd::prelude::*;

verus! {

/// The value of one attribute of an event.
#[derive(Debug, PartialEq)]
pub enum AttributeValue {
    Bool(bool),
    Int(i64),
    Text(String),
    TextList(Vec<String>),
}

/// The mathematical value of an [`AttributeValue`].
pub enum ValueModel {
    Bool(bool),
    Int(i64),
    Text(Seq<char>),
    TextList(Seq<Seq<char>>),
}

impl View for AttributeValue {
    type V = ValueModel;

    open spec fn view(&self) -> ValueModel {
        match self {
            AttributeValue::Bool(b) => ValueModel::Bool(*b),
            AttributeValue::Int(i) => ValueModel::Int(*i),
            AttributeValue::Text(s) => ValueModel::Text(s@),
            AttributeValue::TextList(v) => ValueModel::TextList(texts(v@)),
        }
    }
}

/// One attribute of an event: a key and its value.
#[derive(Debug, PartialEq)]
pub struct Attribute {
    pub key: String,
    pub value: AttributeValue,
}

/// The mathematical value of an [`Attribute`].
pub struct AttributeModel {
    pub key: Seq<char>,
    pub value: ValueModel,
}

impl View for Attribute {
    type V = AttributeModel;

    open spec fn view(&self) -> AttributeModel {
        AttributeModel { key: self.key@, value: self.value@ }
    }
}

/// The views of a list of attributes, in the list's order.
pub open spec fn attribute_models(attributes: Seq<Attribute>) -> Seq<AttributeModel> {
    attributes.map_values(|a: Attribute| a@)
}

/// One finished event: what is handed to the telemetry backend for one
/// report.
#[derive(Debug, PartialEq)]
pub struct FinishedEvent {
    pub name: String,
    pub timestamp: SystemTime,
    pub attributes: Vec<Attribute>,
}

/// The mathematical value of a [`FinishedEvent`].
pub struct EventModel {
    pub name: Seq<char>,
    pub timestamp: SystemTime,
    pub attributes: Seq<AttributeModel>,
}

impl View for FinishedEvent {
    type V = EventModel;

    open spec fn view(&self) -> EventModel {
        EventModel {
            name: self.name@,
            timestamp: self.timestamp,
            attributes: attribute_models(self.attributes@),
        }
    }
}

/// A copy of a list of texts.
pub fn clone_texts(v: &Vec<String>) -> (r: Vec<String>)
    ensures
        texts(r@) == texts(v@),
{
    let mut r: Vec<String> = Vec::new();
    let mut i: usize = 0;
    while i < v.len()
        invariant
            i <= v.len(),
            texts(r@) == texts(v@).take(i as int),
        decreases v.len() - i,
    {
        let ghost before = texts(r@);
        let s = v[i].clone();
        r.push(s);
        proof {
            assert(texts(r@) =~= before.push(s@));
            assert(texts(v@).take(i + 1) =~= before.push(s@));
        }
        i = i + 1;
    }
    proof {
        assert(texts(v@).take(i as int) =~= texts(v@));
    }
    r
}

/// A copy of a list of attributes.
pub fn clone_attributes(v: &Vec<Attribute>) -> (r: Vec<Attribute>)
    ensures
        attribute_models(r@) == attribute_models(v@),
{
    let mut r: Vec<Attribute> = Vec::new();
    let mut i: usize = 0;
    while i < v.len()
        invariant
            i <= v.len(),
            attribute_models(r@) == attribute_models(v@).take(i as int),
        decreases v.len() - i,
    {
        let ghost before = attribute_models(r@);
        let a = v[i].clone();
        r.push(a);
        proof {
            assert(attribute_models(r@) =~= before.push(a@));
            assert(attribute_models(v@).take(i + 1) =~= before.push(a@));
        }
        i = i + 1;
    }
    proof {
        assert(attribute_models(v@).take(i as int) =~= attribute_models(v@));
    }
    r
}

impl Clone for AttributeValue {
    fn clone(&self) -> (r: Self)
        ensures
            r@ == self@,
    {
        match self {
            AttributeValue::Bool(b) => AttributeValue::Bool(*b),
            AttributeValue::Int(i) => AttributeValue::Int(*i),
            AttributeValue::Text(s) => AttributeValue::Text(s.clone()),
            AttributeValue::TextList(v) => AttributeValue::TextList(clone_texts(v)),
        }
    }
}

impl Clone for Attribute {
    fn clone(&self) -> (r: Self)
        ensures
            r@ == self@,
    {
        Attribute { key: self.key.clone(), value: self.value.clone() }
    }
}

impl Clone for FinishedEvent {
    fn clone(&self) -> (r: Self)
        ensures
            r@ == self@,
    {
        FinishedEvent {
            name: self.name.clone(),
            timestamp: self.timestamp,
            attributes: clone_attributes(&self.attributes),
        }
    }
}

/// Where the time of an event comes from.
#[derive(Debug, Clone, Copy, PartialEq)]
pub enum TimestampChoice {
    /// The configuration asks for no time: whoever emits the event decides.
    Omitted,
    /// The time at which the event is built.
    Now,
    /// This time.
    At(SystemTime),
}

/// The time source that a setting and a digest lead to: an explicit time
/// first, then the time found among the attachments if the setting asks for
/// it, and the current time where either of them names none.
pub open spec fn timestamp_choice(
    setting: TriState<Option<SystemTime>>,
    found: Option<SystemTime>,
) -> TimestampChoice {
    match setting {
        TriState::Unset => TimestampChoice::Omitted,
        TriState::Inferred => match found {
            Some(t) => TimestampChoice::At(t),
            None => TimestampChoice::Now,
        },
        TriState::Explicit(None) => TimestampChoice::Now,
        TriState::Explicit(Some(t)) => TimestampChoice::At(t),
    }
}

/// The time of an event that is emitted at `now`.
pub open spec fn event_time(choice: TimestampChoice, now: SystemTime) -> SystemTime {
    match choice {
        TimestampChoice::At(t) => t,
        _ => now,
    }
}

/// The `exception.type` attribute, as a list of one attribute or none.
pub open spec fn type_attribute(setting: TriState<Seq<char>>, context_type: Seq<char>) -> Seq<
    AttributeModel,
> {
    match setting {
        TriState::Unset => Seq::empty(),
        TriState::Inferred => seq![
            AttributeModel { key: type_key(), value: ValueModel::Text(context_type) },
        ],
        TriState::Explicit(s) => seq![
            AttributeModel { key: type_key(), value: ValueModel::Text(s) },
        ],
    }
}

/// The `exception.message` attribute: the text that was set, else the
/// report's own text.
pub open spec fn message_attribute(setting: TriState<Seq<char>>, formatted: Seq<char>) -> Seq<
    AttributeModel,
> {
    seq![
        AttributeModel {
            key: message_key(),
            value: ValueModel::Text(
                match setting {
                    TriState::Explicit(s) => s,
                    _ => formatted,
                },
            ),
        },
    ]
}

/// The `exception.stacktrace` attribute, as a list of one attribute or none.
pub open spec fn stacktrace_attribute(setting: TriState<Seq<char>>, found: Option<Seq<char>>) -> Seq<
    AttributeModel,
> {
    match setting {
        TriState::Unset => Seq::empty(),
        TriState::Inferred => match found {
            Some(s) => seq![AttributeModel { key: stacktrace_key(), value: ValueModel::Text(s) }],
            None => Seq::empty(),
        },
        TriState::Explicit(s) => seq![
            AttributeModel { key: stacktrace_key(), value: ValueModel::Text(s) },
        ],
    }
}

/// The `exception.escaped` attribute, as a list of one attribute or none.
pub open spec fn escaped_attribute(escaped: Option<bool>) -> Seq<AttributeModel> {
    match escaped {
        Some(b) => seq![AttributeModel { key: escaped_key(), value: ValueModel::Bool(b) }],
        None => Seq::empty(),
    }
}

/// The `exception.extras` attribute, which is there only if it has a text
/// to hold.
pub open spec fn extras_attribute(extras: Seq<Seq<char>>) -> Seq<AttributeModel> {
    if extras.len() == 0 {
        Seq::empty()
    } else {
        seq![AttributeModel { key: extras_key(), value: ValueModel::TextList(extras) }]
    }
}

/// The attributes of the event for one report: type, message, backtrace,
/// escaped flag and extras, in this order, each as its setting resolves it.
pub open spec fn event_attributes(
    spec: EventSpecModel,
    context_type: Seq<char>,
    formatted: Seq<char>,
    digest: DigestModel,
) -> Seq<AttributeModel> {
    type_attribute(spec.ex_type, context_type) + message_attribute(spec.custom_message, formatted)
        + stacktrace_attribute(spec.backtrace, digest.backtrace_text) + escaped_attribute(
        spec.escaped,
    ) + extras_attribute(extras(digest.all, spec.attachments))
}

/// The event for one report, emitted at `now`.
pub open spec fn compile_model(
    spec: EventSpecModel,
    context_type: Seq<char>,
    formatted: Seq<char>,
    digest: DigestModel,
    now: SystemTime,
) -> EventModel {
    EventModel {
        name: EXCEPTION@,
        timestamp: event_time(timestamp_choice(spec.timestamp, digest.timestamp), now),
        attributes: event_attributes(spec, context_type, formatted, digest),
    }
}

/// The attribute with the key `key`, as a list of one attribute or none,
/// among the five that an event can have.
pub open spec fn attribute_part(
    spec: EventSpecModel,
    context_type: Seq<char>,
    formatted: Seq<char>,
    digest: DigestModel,
    key: Seq<char>,
) -> Seq<AttributeModel> {
    if key == type_key() {
        type_attribute(spec.ex_type, context_type)
    } else if key == message_key() {
        message_attribute(spec.custom_message, formatted)
    } else if key == stacktrace_key() {
        stacktrace_attribute(spec.backtrace, digest.backtrace_text)
    } else if key == escaped_key() {
        escaped_attribute(spec.escaped)
    } else if key == extras_key() {
        extras_attribute(extras(digest.all, spec.attachments))
    } else {
        Seq::empty()
    }
}

/// Whether `attribute` is one of `attributes`.
pub open spec fn has_attribute(attributes: Seq<AttributeModel>, attribute: AttributeModel) -> bool {
    exists|i: int| 0 <= i < attributes.len() && #[trigger] attributes[i] == attribute
}

/// An event has no two attributes with one key: an attribute is among the
/// event's attributes exactly if it is what its key resolves to.
pub proof fn law_attributes_by_key(
    spec: EventSpecModel,
    context_type: Seq<char>,
    formatted: Seq<char>,
    digest: DigestModel,
    attribute: AttributeModel,
)
    ensures
        has_attribute(event_attributes(spec, context_type, formatted, digest), attribute)
            <==> attribute_part(spec, context_type, formatted, digest, attribute.key)
            == seq![attribute],
{
    lemma_keys_differ();
    let a = type_attribute(spec.ex_type, context_type);
    let m = message_attribute(spec.custom_message, formatted);
    let s = stacktrace_attribute(spec.backtrace, digest.backtrace_text);
    let e = escaped_attribute(spec.escaped);
    let x = extras_attribute(extras(digest.all, spec.attachments));
    let all = event_attributes(spec, context_type, formatted, digest);
    assert(all == a + m + s + e + x);
    let part = attribute_part(spec, context_type, formatted, digest, attribute.key);
    if has_attribute(all, attribute) {
        let i = choose|i: int| 0 <= i < all.len() && #[trigger] all[i] == attribute;
        if i < a.len() {
            assert(all[i] == a[i]);
        } else if i < a.len() + m.len() {
            assert(all[i] == m[i - a.len()]);
        } else if i < a.len() + m.len() + s.len() {
            assert(all[i] == s[i - a.len() - m.len()]);
        } else if i < a.len() + m.len() + s.len() + e.len() {
            assert(all[i] == e[i - a.len() - m.len() - s.len()]);
        } else {
            assert(all[i] == x[i - a.len() - m.len() - s.len() - e.len()]);
        }
        assert(part =~= seq![attribute]);
    }
    if part == seq![attribute] {
        assert(part[0] == attribute);
        if attribute.key == type_key() {
            assert(all[0] == attribute);
        } else if attribute.key == message_key() {
            assert(all[a.len() as int] == attribute);
        } else if attribute.key == stacktrace_key() {
            assert(all[(a.len() + m.len()) as int] == attribute);
        } else if attribute.key == escaped_key() {
            assert(all[(a.len() + m.len() + s.len()) as int] == attribute);
        } else if attribute.key == extras_key() {
            assert(all[(a.len() + m.len() + s.len() + e.len()) as int] == attribute);
        }
    }
}

/// A value that the configuration sets is the value in the event, whatever
/// the report and its attachments hold: for the type, the message, the
/// backtrace and the time.
pub proof fn law_explicit_overrides(
    spec: EventSpecModel,
    context_type: Seq<char>,
    formatted: Seq<char>,
    digest: DigestModel,
    now: SystemTime,
)
    ensures
        spec.ex_type matches TriState::Explicit(text) ==> has_attribute(
            event_attributes(spec, context_type, formatted, digest),
            AttributeModel { key: type_key(), value: ValueModel::Text(text) },
        ),
        spec.custom_message matches TriState::Explicit(text) ==> has_attribute(
            event_attributes(spec, context_type, formatted, digest),
            AttributeModel { key: message_key(), value: ValueModel::Text(text) },
        ),
        spec.backtrace matches TriState::Explicit(text) ==> has_attribute(
            event_attributes(spec, context_type, formatted, digest),
            AttributeModel { key: stacktrace_key(), value: ValueModel::Text(text) },
        ),
        spec.timestamp matches TriState::Explicit(Some(time)) ==> compile_model(
            spec,
            context_type,
            formatted,
            digest,
            now,
        ).timestamp == time,
{
    lemma_keys_differ();
    match spec.ex_type {
        TriState::Explicit(text) => {
            law_attributes_by_key(
                spec,
                context_type,
                formatted,
                digest,
                AttributeModel { key: type_key(), value: ValueModel::Text(text) },
            );
        },
        _ => {},
    }
    match spec.custom_message {
        TriState::Explicit(text) => {
            law_attributes_by_key(
                spec,
                context_type,
                formatted,
                digest,
                AttributeModel { key: message_key(), value: ValueModel::Text(text) },
            );
        },
        _ => {},
    }
    match spec.backtrace {
        TriState::Explicit(text) => {
            law_attributes_by_key(
                spec,
                context_type,
                formatted,
                digest,
                AttributeModel { key: stacktrace_key(), value: ValueModel::Text(text) },
            );
        },
        _ => {},
    }
}

/// Where neither the time nor the backtrace is to be derived, the event
/// does not depend on what the digest found for them.
pub proof fn law_explicit_ignores_digest(
    spec: EventSpecModel,
    context_type: Seq<char>,
    formatted: Seq<char>,
    first: DigestModel,
    second: DigestModel,
    now: SystemTime,
)
    requires
        !(spec.timestamp is Inferred),
        !(spec.backtrace is Inferred),
        first.all == second.all,
    ensures
        compile_model(spec, context_type, formatted, first, now) == compile_model(
            spec,
            context_type,
            formatted,
            second,
            now,
        ),
{
}

/// Every event has a message: the text that was set, else the report's own.
pub proof fn law_message_present(
    spec: EventSpecModel,
    context_type: Seq<char>,
    formatted: Seq<char>,
    digest: DigestModel,
)
    ensures
        has_attribute(
            event_attributes(spec, context_type, formatted, digest),
            AttributeModel {
                key: message_key(),
                value: ValueModel::Text(
                    match spec.custom_message {
                        TriState::Explicit(s) => s,
                        _ => formatted,
                    },
                ),
            },
        ),
{
    lemma_keys_differ();
    law_attributes_by_key(
        spec,
        context_type,
        formatted,
        digest,
        AttributeModel {
            key: message_key(),
            value: ValueModel::Text(
                match spec.custom_message {
                    TriState::Explicit(s) => s,
                    _ => formatted,
                },
            ),
        },
    );
}

/// Decides where the time of an event comes from.
pub fn resolve_timestamp(setting: &TriState<Option<SystemTime>>, found: Option<SystemTime>) -> (r:
    TimestampChoice)
    ensures
        r == timestamp_choice(*setting, found),
{
    match setting {
        TriState::Unset => TimestampChoice::Omitted,
        TriState::Inferred => match found {
            Some(t) => TimestampChoice::At(t),
            None => TimestampChoice::Now,
        },
        TriState::Explicit(None) => TimestampChoice::Now,
        TriState::Explicit(Some(t)) => TimestampChoice::At(*t),
    }
}

/// Builds the attributes of the event for `rep`.
pub fn attributes(rep: &ReportNode, attachments: &AttachmentDigest, spec: &ExceptionEventSpec) -> (res:
    Vec<Attribute>)
    ensures
        attribute_models(res@) == event_attributes(
            spec@,
            rep@.context_type_name,
            rep@.formatted_context,
            attachments@,
        ),
{
    let mut res: Vec<Attribute> = Vec::new();
    let ghost m0 = type_attribute(spec@.ex_type, rep@.context_type_name);
    match &spec.ex_type {
        TriState::Unset => {},
        TriState::Inferred => {
            res.push(
                Attribute {
                    key: owned(exception_type()),
                    value: AttributeValue::Text(rep.context_type_name.clone()),
                },
            );
        },
        TriState::Explicit(ex_type) => {
            res.push(
                Attribute {
                    key: owned(exception_type()),
                    value: AttributeValue::Text(ex_type.clone()),
                },
            );
        },
    }
    assert(attribute_models(res@) =~= m0);

    let ghost m1 = m0 + message_attribute(spec@.custom_message, rep@.formatted_context);
    let message = match &spec.custom_message {
        TriState::Explicit(msg) => msg.clone(),
        _ => rep.formatted_context.clone(),
    };
    res.push(Attribute { key: owned(exception_message()), value: AttributeValue::Text(message) });
    assert(attribute_models(res@) =~= m1);

    let ghost m2 = m1 + stacktrace_attribute(spec@.backtrace, attachments@.backtrace_text);
    match &spec.backtrace {
        TriState::Unset => {},
        TriState::Inferred => match &attachments.backtrace_text {
            Some(backtrace) => {
                res.push(
                    Attribute {
                        key: owned(exception_stacktrace()),
                        value: AttributeValue::Text(backtrace.clone()),
                    },
                );
            },
            None => {},
        },
        TriState::Explicit(backtrace) => {
            res.push(
                Attribute {
                    key: owned(exception_stacktrace()),
                    value: AttributeValue::Text(backtrace.clone()),
                },
            );
        },
    }
    assert(attribute_models(res@) =~= m2);

    let ghost m3 = m2 + escaped_attribute(spec@.escaped);
    match spec.escaped {
        Some(esc) => {
            res.push(
                Attribute { key: owned("exception.escaped"), value: AttributeValue::Bool(esc) },
            );
        },
        None => {},
    }
    assert(attribute_models(res@) =~= m3);

    let mut extra_texts: Vec<String> = Vec::new();
    attachments.list_into_vec(&spec.attachments, &mut extra_texts);
    assert(texts(extra_texts@) =~= extras(attachments@.all, spec@.attachments));
    let ghost m4 = m3 + extras_attribute(texts(extra_texts@));
    if extra_texts.len() > 0 {
        res.push(
            Attribute {
                key: owned("exception.extras"),
                value: AttributeValue::TextList(extra_texts),
            },
        );
    }
    assert(attribute_models(res@) =~= m4);
    res
}

/// Builds the event for `rep`, with `now` as the current time.
pub fn compile(
    spec: &ExceptionEventSpec,
    rep: &ReportNode,
    digest: &AttachmentDigest,
    now: SystemTime,
) -> (r: FinishedEvent)
    ensures
        r@ == compile_model(
            spec@,
            rep@.context_type_name,
            rep@.formatted_context,
            digest@,
            now,
        ),
{
    let timestamp = match resolve_timestamp(&spec.timestamp, digest.timestamp) {
        TimestampChoice::At(t) => t,
        _ => now,
    };
    FinishedEvent { name: owned(EXCEPTION), timestamp, attributes: attributes(rep, digest, spec) }
}

} // verus!
