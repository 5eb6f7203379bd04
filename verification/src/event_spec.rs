use crate::attachments::{action_models, ActionModel, AttachmentAction, TypeTag};
use crate::tristate::{text_state, TriState};
use std::time::SystemTime;
use vstd::prelude::*;

verus! {

/// How the report tree is turned into events: one setting per event field,
/// the rules that pick attachment texts, and what to do with child reports.
#[derive(Debug, PartialEq)]
pub struct ExceptionEventSpec {
    /// The `exception.type` attribute.
    pub ex_type: TriState<String>,
    /// The `exception.message` attribute; the report's own text unless a
    /// value is set.
    pub custom_message: TriState<String>,
    /// The time of the event. An explicit `None` asks for the current time.
    pub timestamp: TriState<Option<SystemTime>>,
    /// The `exception.stacktrace` attribute.
    pub backtrace: TriState<String>,
    /// The `exception.escaped` attribute, if it is to be there.
    pub escaped: Option<bool>,
    /// The rules that fill the `exception.extras` attribute, in order.
    pub attachments: Vec<AttachmentAction>,
    /// Child reports: none, with this configuration, or with the given one.
    pub children: Children,
}

/// What is done with the child reports of a report.
#[derive(Debug, PartialEq)]
pub enum Children {
    /// No event is made for them.
    Unset,
    /// Events are made for them, and for theirs, with the parent's
    /// configuration.
    Inferred,
    /// Events are made for them with this configuration, which says in turn
    /// what is done with their children.
    Explicit(Box<ExceptionEventSpec>),
}

/// The mathematical value of an [`ExceptionEventSpec`].
pub struct EventSpecModel {
    pub ex_type: TriState<Seq<char>>,
    pub custom_message: TriState<Seq<char>>,
    pub timestamp: TriState<Option<SystemTime>>,
    pub backtrace: TriState<Seq<char>>,
    pub escaped: Option<bool>,
    pub attachments: Seq<ActionModel>,
    pub children: ChildrenModel,
}

/// The mathematical value of a [`Children`].
pub enum ChildrenModel {
    Unset,
    Inferred,
    Explicit(Box<EventSpecModel>),
}

impl View for ExceptionEventSpec {
    type V = EventSpecModel;

    open spec fn view(&self) -> EventSpecModel
        decreases self,
    {
        EventSpecModel {
            ex_type: text_state(self.ex_type),
            custom_message: text_state(self.custom_message),
            timestamp: self.timestamp,
            backtrace: text_state(self.backtrace),
            escaped: self.escaped,
            attachments: action_models(self.attachments@),
            children: match self.children {
                Children::Unset => ChildrenModel::Unset,
                Children::Inferred => ChildrenModel::Inferred,
                Children::Explicit(child) => ChildrenModel::Explicit(Box::new((*child)@)),
            },
        }
    }
}

impl Clone for ExceptionEventSpec {
    fn clone(&self) -> (r: Self)
        ensures
            r@ == self@,
        decreases self,
    {
        let mut attachments: Vec<AttachmentAction> = Vec::new();
        let mut i: usize = 0;
        while i < self.attachments.len()
            invariant
                i <= self.attachments.len(),
                action_models(attachments@) == action_models(self.attachments@).take(i as int),
            decreases self.attachments.len() - i,
        {
            let ghost before = action_models(attachments@);
            let action = self.attachments[i].clone();
            attachments.push(action);
            proof {
                assert(action_models(attachments@) =~= before.push(action@));
                assert(action_models(self.attachments@).take(i + 1) =~= before.push(action@));
            }
            i = i + 1;
        }
        proof {
            assert(action_models(attachments@) =~= action_models(self.attachments@));
        }
        ExceptionEventSpec {
            ex_type: clone_text_state(&self.ex_type),
            custom_message: clone_text_state(&self.custom_message),
            timestamp: match &self.timestamp {
                TriState::Unset => TriState::Unset,
                TriState::Inferred => TriState::Inferred,
                TriState::Explicit(t) => TriState::Explicit(*t),
            },
            backtrace: clone_text_state(&self.backtrace),
            escaped: self.escaped,
            attachments,
            children: match &self.children {
                Children::Unset => Children::Unset,
                Children::Inferred => Children::Inferred,
                Children::Explicit(child) => Children::Explicit(Box::new((&**child).clone())),
            },
        }
    }
}

impl Clone for Children {
    fn clone(&self) -> (r: Self)
        ensures
            r@ == self@,
    {
        match self {
            Children::Unset => Children::Unset,
            Children::Inferred => Children::Inferred,
            Children::Explicit(child) => Children::Explicit(Box::new((&**child).clone())),
        }
    }
}

impl View for Children {
    type V = ChildrenModel;

    open spec fn view(&self) -> ChildrenModel {
        match self {
            Children::Unset => ChildrenModel::Unset,
            Children::Inferred => ChildrenModel::Inferred,
            Children::Explicit(child) => ChildrenModel::Explicit(Box::new((**child)@)),
        }
    }
}

/// A copy of a text setting.
fn clone_text_state(t: &TriState<String>) -> (r: TriState<String>)
    ensures
        text_state(r) == text_state(*t),
{
    match t {
        TriState::Unset => TriState::Unset,
        TriState::Inferred => TriState::Inferred,
        TriState::Explicit(s) => TriState::Explicit(s.clone()),
    }
}

impl ChildrenModel {
    /// The policy after a request to treat child reports like their parent:
    /// an explicit configuration is kept.
    pub open spec fn spec_infer(self) -> Self {
        match self {
            ChildrenModel::Explicit(c) => ChildrenModel::Explicit(c),
            _ => ChildrenModel::Inferred,
        }
    }

    /// The policy after `incoming` is layered onto this one.
    pub open spec fn spec_merge(self, incoming: Self) -> Self {
        match incoming {
            ChildrenModel::Unset => self,
            ChildrenModel::Inferred => self.spec_infer(),
            ChildrenModel::Explicit(c) => ChildrenModel::Explicit(c),
        }
    }
}

impl Children {
    /// Requests that child reports be treated like their parent. An explicit
    /// configuration for them stays.
    pub fn infer(self) -> (r: Self)
        ensures
            r@ == self@.spec_infer(),
    {
        match self {
            Children::Explicit(c) => Children::Explicit(c),
            _ => Children::Inferred,
        }
    }

    /// Layers the policy `incoming` onto this one.
    pub fn merge(self, incoming: Self) -> (r: Self)
        ensures
            r@ == self@.spec_merge(incoming@),
    {
        match incoming {
            Children::Unset => self,
            Children::Inferred => self.infer(),
            Children::Explicit(c) => Children::Explicit(c),
        }
    }
}

impl EventSpecModel {
    /// The configuration in which nothing is set.
    pub open spec fn empty() -> Self {
        EventSpecModel {
            ex_type: TriState::Unset,
            custom_message: TriState::Unset,
            timestamp: TriState::Unset,
            backtrace: TriState::Unset,
            escaped: None,
            attachments: Seq::empty(),
            children: ChildrenModel::Unset,
        }
    }

    pub open spec fn infer_ex_type(self) -> Self {
        EventSpecModel { ex_type: self.ex_type.spec_infer(), ..self }
    }

    pub open spec fn set_ex_type(self, ex_type: Seq<char>) -> Self {
        EventSpecModel { ex_type: self.ex_type.spec_set(ex_type), ..self }
    }

    pub open spec fn set_message(self, message: Seq<char>) -> Self {
        EventSpecModel { custom_message: self.custom_message.spec_set(message), ..self }
    }

    pub open spec fn infer_timestamp(self) -> Self {
        EventSpecModel { timestamp: self.timestamp.spec_infer(), ..self }
    }

    pub open spec fn set_timestamp(self, time: Option<SystemTime>) -> Self {
        EventSpecModel { timestamp: self.timestamp.spec_set(time), ..self }
    }

    pub open spec fn infer_backtrace(self) -> Self {
        EventSpecModel { backtrace: self.backtrace.spec_infer(), ..self }
    }

    pub open spec fn set_backtrace(self, backtrace: Seq<char>) -> Self {
        EventSpecModel { backtrace: self.backtrace.spec_set(backtrace), ..self }
    }

    pub open spec fn set_escaped(self, has_escaped: bool) -> Self {
        EventSpecModel { escaped: Some(has_escaped), ..self }
    }

    pub open spec fn add_action(self, action: ActionModel) -> Self {
        EventSpecModel { attachments: self.attachments.push(action), ..self }
    }

    pub open spec fn infer_children(self) -> Self {
        EventSpecModel { children: self.children.spec_infer(), ..self }
    }

    pub open spec fn set_children(self, child: EventSpecModel) -> Self {
        EventSpecModel { children: ChildrenModel::Explicit(Box::new(child)), ..self }
    }

    /// The configuration that asks for type, time and backtrace to be
    /// derived, on top of what is set already.
    pub open spec fn with_defaults(self) -> Self {
        self.infer_ex_type().infer_timestamp().infer_backtrace()
    }

    /// This configuration layered onto `base`, field by field: a field that
    /// is unset here leaves `base` as it is, the rules for attachments are
    /// added behind those of `base`.
    pub open spec fn inject(self, base: EventSpecModel) -> EventSpecModel {
        EventSpecModel {
            ex_type: base.ex_type.spec_merge(self.ex_type),
            custom_message: base.custom_message.spec_merge(self.custom_message),
            timestamp: base.timestamp.spec_merge(self.timestamp),
            backtrace: base.backtrace.spec_merge(self.backtrace),
            escaped: match self.escaped {
                Some(e) => Some(e),
                None => base.escaped,
            },
            attachments: base.attachments + self.attachments,
            children: base.children.spec_merge(self.children),
        }
    }

    /// Asking twice for a field to be derived is the same as asking once,
    /// for each field that can be derived.
    pub proof fn law_infer_idempotent(self)
        ensures
            self.infer_ex_type().infer_ex_type() == self.infer_ex_type(),
            self.infer_timestamp().infer_timestamp() == self.infer_timestamp(),
            self.infer_backtrace().infer_backtrace() == self.infer_backtrace(),
            self.infer_children().infer_children() == self.infer_children(),
    {
    }

    /// A value set after a request to derive a field is the field's value.
    pub proof fn law_set_after_infer(
        self,
        text: Seq<char>,
        time: Option<SystemTime>,
        child: EventSpecModel,
    )
        ensures
            self.infer_ex_type().set_ex_type(text).ex_type == TriState::Explicit(text),
            self.infer_timestamp().set_timestamp(time).timestamp == TriState::Explicit(time),
            self.infer_backtrace().set_backtrace(text).backtrace == TriState::Explicit(text),
            self.infer_children().set_children(child).children == ChildrenModel::Explicit(
                Box::new(child),
            ),
    {
    }

    /// A request to derive a field does not displace a value set before.
    pub proof fn law_infer_after_set(
        self,
        text: Seq<char>,
        time: Option<SystemTime>,
        child: EventSpecModel,
    )
        ensures
            self.set_ex_type(text).infer_ex_type() == self.set_ex_type(text),
            self.set_timestamp(time).infer_timestamp() == self.set_timestamp(time),
            self.set_backtrace(text).infer_backtrace() == self.set_backtrace(text),
            self.set_children(child).infer_children() == self.set_children(child),
    {
    }

    /// Layering touches each field on its own: what a field becomes depends
    /// on that field in the two configurations and on nothing else.
    pub proof fn law_inject_fieldwise(self, other: EventSpecModel, base: EventSpecModel)
        ensures
            self.ex_type == other.ex_type ==> self.inject(base).ex_type == other.inject(
                base,
            ).ex_type,
            self.custom_message == other.custom_message ==> self.inject(base).custom_message
                == other.inject(base).custom_message,
            self.timestamp == other.timestamp ==> self.inject(base).timestamp == other.inject(
                base,
            ).timestamp,
            self.backtrace == other.backtrace ==> self.inject(base).backtrace == other.inject(
                base,
            ).backtrace,
            self.escaped == other.escaped ==> self.inject(base).escaped == other.inject(
                base,
            ).escaped,
            self.attachments == other.attachments ==> self.inject(base).attachments
                == other.inject(base).attachments,
            self.children == other.children ==> self.inject(base).children == other.inject(
                base,
            ).children,
    {
    }

    /// Layering the empty configuration changes nothing.
    pub proof fn law_inject_empty(base: EventSpecModel)
        ensures
            Self::empty().inject(base) == base,
    {
        assert(base.attachments + Seq::<ActionModel>::empty() =~= base.attachments);
    }
}

/// The fluent operations that configure events.
pub trait ExceptionEventConfig: Sized {
    /// Derive the `exception.type` attribute from the report.
    fn ex_type(self) -> Self;

    /// Set the `exception.type` attribute.
    fn set_ex_type(self, ex_type: String) -> Self;

    /// Set the `exception.message` attribute, which is the report's own
    /// text otherwise.
    fn custom_message(self, msg: String) -> Self;

    /// Derive the time of the event from the report's attachments.
    fn timestamped(self) -> Self;

    /// Set the time of the event.
    fn set_timestamp(self, systime: SystemTime) -> Self;

    /// Set the time of the event to the time at which it is built.
    fn timestamp_now(self) -> Self;

    /// Derive the `exception.stacktrace` attribute from the backtrace
    /// attachment.
    fn backtrace(self) -> Self;

    /// Set the `exception.stacktrace` attribute.
    fn override_backtrace(self, backtrace: String) -> Self;

    /// Set the `exception.escaped` attribute.
    fn escaped(self, has_escaped: bool) -> Self;

    /// Add a text of the caller's to the `exception.extras` attribute.
    fn add_attacment(self, at: String) -> Self;

    /// Add the texts of all attachments to the `exception.extras` attribute.
    fn all_attachments(self) -> Self;

    /// Add to the `exception.extras` attribute the texts of all attachments
    /// that no dedicated attribute shows already.
    fn attachments(self) -> Self;

    /// Add to the `exception.extras` attribute the texts of all attachments
    /// of the given type.
    fn attachments_of_type_id(self, type_id: TypeTag) -> Self;

    /// Make events for all descendants with this configuration.
    fn recurse(self) -> Self;

    /// Make events for the immediate child reports with the given
    /// configuration.
    fn children(self, actions: ExceptionEventSpec) -> Self;
}

/// Shorthands on top of [`ExceptionEventConfig`].
pub trait ExceptionEventConfigExt: Sized {
    /// Derive type, time and backtrace.
    fn with_defaults(self) -> Self;

    /// Layer `spec` onto this configuration.
    fn config(self, spec: ExceptionEventSpec) -> Self;
}

impl ExceptionEventSpec {
    /// The configuration in which nothing is set: an event made with it has
    /// a message and the current time, and child reports get no event.
    pub fn new() -> (r: Self)
        ensures
            r@ == EventSpecModel::empty(),
    {
        let r = ExceptionEventSpec {
            ex_type: TriState::Unset,
            custom_message: TriState::Unset,
            timestamp: TriState::Unset,
            backtrace: TriState::Unset,
            escaped: None,
            attachments: Vec::new(),
            children: Children::Unset,
        };
        proof {
            assert(r@.attachments =~= Seq::<ActionModel>::empty());
        }
        r
    }

    /// Layers this configuration onto `other`.
    pub fn inject(self, other: ExceptionEventSpec) -> (r: ExceptionEventSpec)
        ensures
            r@ == self@.inject(other@),
    {
        let ghost layer = self@;
        let ghost base = other@;
        let ExceptionEventSpec {
            ex_type,
            custom_message,
            timestamp,
            backtrace,
            escaped,
            attachments,
            children,
        } = self;
        let mut added = attachments;
        let mut attachments = other.attachments;
        attachments.append(&mut added);
        let r = ExceptionEventSpec {
            ex_type: other.ex_type.merge(ex_type),
            custom_message: other.custom_message.merge(custom_message),
            timestamp: other.timestamp.merge(timestamp),
            backtrace: other.backtrace.merge(backtrace),
            escaped: match escaped {
                Some(e) => Some(e),
                None => other.escaped,
            },
            attachments,
            children: other.children.merge(children),
        };
        proof {
            assert(r@.attachments =~= base.attachments + layer.attachments);
        }
        r
    }

    fn push_action(self, action: AttachmentAction) -> (r: Self)
        ensures
            r@ == self@.add_action(action@),
    {
        let mut s = self;
        s.attachments.push(action);
        proof {
            assert(s@.attachments =~= self@.attachments.push(action@));
        }
        s
    }
}

impl Default for ExceptionEventSpec {
    fn default() -> (r: Self)
        ensures
            r@ == EventSpecModel::empty().with_defaults(),
    {
        ExceptionEventSpec::new().with_defaults()
    }
}

impl ExceptionEventConfig for ExceptionEventSpec {
    fn ex_type(self) -> (r: Self)
        ensures
            r@ == self@.infer_ex_type(),
    {
        let mut s = self;
        s.ex_type = s.ex_type.infer();
        s
    }

    fn set_ex_type(self, ex_type: String) -> (r: Self)
        ensures
            r@ == self@.set_ex_type(ex_type@),
    {
        let mut s = self;
        s.ex_type = TriState::Explicit(ex_type);
        s
    }

    fn custom_message(self, msg: String) -> (r: Self)
        ensures
            r@ == self@.set_message(msg@),
    {
        let mut s = self;
        s.custom_message = TriState::Explicit(msg);
        s
    }

    fn timestamped(self) -> (r: Self)
        ensures
            r@ == self@.infer_timestamp(),
    {
        let mut s = self;
        s.timestamp = s.timestamp.infer();
        s
    }

    fn set_timestamp(self, systime: SystemTime) -> (r: Self)
        ensures
            r@ == self@.set_timestamp(Some(systime)),
    {
        let mut s = self;
        s.timestamp = TriState::Explicit(Some(systime));
        s
    }

    fn timestamp_now(self) -> (r: Self)
        ensures
            r@ == self@.set_timestamp(None),
    {
        let mut s = self;
        s.timestamp = TriState::Explicit(None);
        s
    }

    fn backtrace(self) -> (r: Self)
        ensures
            r@ == self@.infer_backtrace(),
    {
        let mut s = self;
        s.backtrace = s.backtrace.infer();
        s
    }

    fn override_backtrace(self, backtrace: String) -> (r: Self)
        ensures
            r@ == self@.set_backtrace(backtrace@),
    {
        let mut s = self;
        s.backtrace = TriState::Explicit(backtrace);
        s
    }

    fn escaped(self, has_escaped: bool) -> (r: Self)
        ensures
            r@ == self@.set_escaped(has_escaped),
    {
        let mut s = self;
        s.escaped = Some(has_escaped);
        s
    }

    fn add_attacment(self, at: String) -> (r: Self)
        ensures
            r@ == self@.add_action(ActionModel::Custom(at@)),
    {
        self.push_action(AttachmentAction::Custom(at))
    }

    fn all_attachments(self) -> (r: Self)
        ensures
            r@ == self@.add_action(ActionModel::All),
    {
        self.push_action(AttachmentAction::All)
    }

    fn attachments(self) -> (r: Self)
        ensures
            r@ == self@.add_action(ActionModel::Smart),
    {
        self.push_action(AttachmentAction::Smart)
    }

    fn attachments_of_type_id(self, type_id: TypeTag) -> (r: Self)
        ensures
            r@ == self@.add_action(ActionModel::ByType(type_id)),
    {
        self.push_action(AttachmentAction::ByType(type_id))
    }

    fn recurse(self) -> (r: Self)
        ensures
            r@ == self@.infer_children(),
    {
        let mut s = self;
        s.children = s.children.infer();
        s
    }

    fn children(self, actions: ExceptionEventSpec) -> (r: Self)
        ensures
            r@ == self@.set_children(actions@),
    {
        let mut s = self;
        s.children = Children::Explicit(Box::new(actions));
        s
    }
}

impl ExceptionEventConfigExt for ExceptionEventSpec {
    fn with_defaults(self) -> (r: Self)
        ensures
            r@ == self@.with_defaults(),
    {
        self.ex_type().timestamped().backtrace()
    }

    fn config(self, spec: ExceptionEventSpec) -> (r: Self)
        ensures
            r@ == spec@.inject(self@),
    {
        spec.inject(self)
    }
}

} // verus!
