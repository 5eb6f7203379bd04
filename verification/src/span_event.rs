use crate::attachments::{first_with_tag, AttachmentValue, TypeTag};
use crate::event::{
    attribute_models, clone_attributes, Attribute, AttributeModel, AttributeValue, EventModel, FinishedEvent,
    ValueModel,
};
use crate::keys::{error_type, error_type_key, owned, EXCEPTION};
use crate::report::{lemma_children, ReportModel, ReportNode};
use crate::span_context::{SpanContext, SpanContextModel};
use crate::utilities::{
    attributes, attributes_brief, brief_attributes, full_attributes, report_time, timestamp_or,
    AttachmentsExt,
};
use std::time::SystemTime;
use vstd::prelude::*;

verus! {

/// The status of a span.
#[derive(Debug, PartialEq, Eq)]
pub enum Status {
    Unset,
    Error { description: String },
    Success,
}

/// The mathematical value of a [`Status`].
pub enum StatusModel {
    Unset,
    Error { description: Seq<char> },
    Success,
}

impl View for Status {
    type V = StatusModel;

    open spec fn view(&self) -> StatusModel {
        match self {
            Status::Unset => StatusModel::Unset,
            Status::Error { description } => StatusModel::Error { description: description@ },
            Status::Success => StatusModel::Success,
        }
    }
}

impl Clone for Status {
    fn clone(&self) -> (r: Self)
        ensures
            r@ == self@,
    {
        match self {
            Status::Unset => Status::Unset,
            Status::Error { description } => Status::Error { description: description.clone() },
            Status::Success => Status::Success,
        }
    }
}

/// One thing to do to a span.
#[derive(Debug, PartialEq)]
pub enum SpanAction {
    /// Add this event.
    AddEvent(FinishedEvent),
    /// Set these attributes on the span itself.
    SetAttributes(Vec<Attribute>),
    /// Set the status of the span.
    SetStatus(Status),
    /// Link the span to the span with this context.
    AddLink { span_context: SpanContext, attributes: Vec<Attribute> },
    /// End the span at this time.
    End(SystemTime),
}

/// The mathematical value of a [`SpanAction`].
pub enum SpanActionModel {
    AddEvent(EventModel),
    SetAttributes(Seq<AttributeModel>),
    SetStatus(StatusModel),
    AddLink { span_context: SpanContextModel, attributes: Seq<AttributeModel> },
    End(SystemTime),
}

impl View for SpanAction {
    type V = SpanActionModel;

    open spec fn view(&self) -> SpanActionModel {
        match self {
            SpanAction::AddEvent(e) => SpanActionModel::AddEvent(e@),
            SpanAction::SetAttributes(a) => SpanActionModel::SetAttributes(attribute_models(a@)),
            SpanAction::SetStatus(s) => SpanActionModel::SetStatus(s@),
            SpanAction::AddLink { span_context, attributes } => SpanActionModel::AddLink {
                span_context: span_context@,
                attributes: attribute_models(attributes@),
            },
            SpanAction::End(t) => SpanActionModel::End(*t),
        }
    }
}

impl Clone for SpanAction {
    fn clone(&self) -> (r: Self)
        ensures
            r@ == self@,
    {
        match self {
            SpanAction::AddEvent(e) => SpanAction::AddEvent(e.clone()),
            SpanAction::SetAttributes(a) => SpanAction::SetAttributes(clone_attributes(a)),
            SpanAction::SetStatus(s) => SpanAction::SetStatus(s.clone()),
            SpanAction::AddLink { span_context, attributes } => SpanAction::AddLink {
                span_context: span_context.clone(),
                attributes: clone_attributes(attributes),
            },
            SpanAction::End(t) => SpanAction::End(*t),
        }
    }
}

/// The views of a list of span actions, in the list's order.
pub open spec fn span_action_models(actions: Seq<SpanAction>) -> Seq<SpanActionModel> {
    actions.map_values(|a: SpanAction| a@)
}

/// The one attribute that names the type of an error.
pub open spec fn error_type_attributes(rep: ReportModel) -> Seq<AttributeModel> {
    seq![AttributeModel { key: error_type_key(), value: ValueModel::Text(rep.context_type_name) }]
}

/// The attributes of a link to the span of a report: type and message, or
/// the type alone where `terse` is set.
pub open spec fn link_attributes(rep: ReportModel, terse: bool) -> Seq<AttributeModel> {
    if terse {
        error_type_attributes(rep)
    } else {
        brief_attributes(rep)
    }
}

/// The context of the span in which a report was made, if an attachment
/// holds it.
pub open spec fn span_of(rep: ReportModel) -> Option<SpanContextModel> {
    match first_with_tag(rep.attachments, TypeTag::SpanContext) {
        Some(a) => a.value.span_context(),
        None => None,
    }
}

/// The link for one report, as a list of one action or none: a report made
/// in another span than `current` is linked to that span.
pub open spec fn own_link(rep: ReportModel, current: SpanContextModel, terse: bool) -> Seq<
    SpanActionModel,
> {
    match span_of(rep) {
        Some(ctx) => if ctx != current {
            seq![
                SpanActionModel::AddLink {
                    span_context: ctx,
                    attributes: link_attributes(rep, terse),
                },
            ]
        } else {
            Seq::empty()
        },
        None => Seq::empty(),
    }
}

/// The links for a tree of reports: that of the root, with those of each
/// child's tree in the order of the children.
pub open spec fn link_models(rep: ReportModel, current: SpanContextModel, terse: bool) -> Seq<
    SpanActionModel,
>
    decreases rep, 1int,
{
    own_link(rep, current, terse) + child_links(rep, rep.children.len() as int, current, terse)
}

/// The links for the trees of the first `k` children of `rep`.
pub open spec fn child_links(
    rep: ReportModel,
    k: int,
    current: SpanContextModel,
    terse: bool,
) -> Seq<SpanActionModel>
    decreases rep, 0int, k,
{
    if k <= 0 || k > rep.children.len() {
        Seq::empty()
    } else {
        child_links(rep, k - 1, current, terse) + link_models(rep.children[k - 1], current, terse)
    }
}

/// Whether an action links to a span other than `current`.
pub open spec fn links_elsewhere(action: SpanActionModel, current: SpanContextModel) -> bool {
    action matches SpanActionModel::AddLink { span_context, .. } && span_context != current
}

/// No link of a tree of reports points to the current span.
pub proof fn law_links_point_elsewhere(rep: ReportModel, current: SpanContextModel, terse: bool)
    ensures
        forall|i: int|
            0 <= i < link_models(rep, current, terse).len() ==> links_elsewhere(
                #[trigger] link_models(rep, current, terse)[i],
                current,
            ),
    decreases rep, 1int,
{
    let own = own_link(rep, current, terse);
    let below = child_links(rep, rep.children.len() as int, current, terse);
    lemma_child_links_point_elsewhere(rep, rep.children.len() as int, current, terse);
    assert forall|i: int| 0 <= i < link_models(rep, current, terse).len() implies links_elsewhere(
        #[trigger] link_models(rep, current, terse)[i],
        current,
    ) by {
        if i >= own.len() {
            assert(link_models(rep, current, terse)[i] == below[i - own.len()]);
        }
    }
}

/// No link of the trees of the first `k` children points to the current
/// span.
pub proof fn lemma_child_links_point_elsewhere(
    rep: ReportModel,
    k: int,
    current: SpanContextModel,
    terse: bool,
)
    ensures
        forall|i: int|
            0 <= i < child_links(rep, k, current, terse).len() ==> links_elsewhere(
                #[trigger] child_links(rep, k, current, terse)[i],
                current,
            ),
    decreases rep, 0int, k,
{
    if 0 < k <= rep.children.len() {
        lemma_child_links_point_elsewhere(rep, k - 1, current, terse);
        law_links_point_elsewhere(rep.children[k - 1], current, terse);
        let before = child_links(rep, k - 1, current, terse);
        let block = link_models(rep.children[k - 1], current, terse);
        assert forall|i: int|
            0 <= i < child_links(rep, k, current, terse).len() implies links_elsewhere(
            #[trigger] child_links(rep, k, current, terse)[i],
            current,
        ) by {
            if i < before.len() {
                assert(child_links(rep, k, current, terse)[i] == before[i]);
            } else {
                assert(child_links(rep, k, current, terse)[i] == block[i - before.len()]);
            }
        }
    }
}

/// A report that holds no span context, or that of the current span, gets
/// no link of its own.
pub proof fn law_same_span_no_link(rep: ReportModel, current: SpanContextModel, terse: bool)
    requires
        span_of(rep) is None || span_of(rep) == Some(current),
    ensures
        own_link(rep, current, terse).len() == 0,
{
}

/// The type of a report as the one attribute `error.type`.
fn error_type_attribute(rep: &ReportNode) -> (res: Vec<Attribute>)
    ensures
        attribute_models(res@) == error_type_attributes(rep@),
{
    let mut res: Vec<Attribute> = Vec::new();
    res.push(
        Attribute {
            key: owned(error_type()),
            value: AttributeValue::Text(rep.context_type_name.clone()),
        },
    );
    proof {
        assert(attribute_models(res@) =~= error_type_attributes(rep@));
    }
    res
}

/// Appends to `out` the links for the tree of `rep`.
fn links_into(rep: &ReportNode, current: &SpanContext, terse: bool, out: &mut Vec<SpanAction>)
    ensures
        span_action_models(final(out)@) == span_action_models(old(out)@) + link_models(
            rep@,
            current@,
            terse,
        ),
    decreases rep,
{
    let ghost start = span_action_models(out@);
    match rep.find_attachment(TypeTag::SpanContext) {
        Some(a) => match &a.value {
            AttachmentValue::SpanContext(ctx) => {
                if !ctx.same(current) {
                    let attributes = if terse {
                        error_type_attribute(rep)
                    } else {
                        attributes_brief(rep)
                    };
                    let link = SpanAction::AddLink { span_context: ctx.clone(), attributes };
                    out.push(link);
                    proof {
                        assert(span_action_models(out@) =~= start + own_link(
                            rep@,
                            current@,
                            terse,
                        ));
                    }
                }
            },
            _ => {},
        },
        None => {},
    }
    proof {
        assert(span_action_models(out@) =~= start + own_link(rep@, current@, terse));
        lemma_children(*rep);
    }
    let mut i: usize = 0;
    proof {
        assert(span_action_models(out@) =~= start + own_link(rep@, current@, terse) + child_links(
            rep@,
            0,
            current@,
            terse,
        ));
    }
    while i < rep.children.len()
        invariant
            i <= rep.children.len(),
            rep@.children.len() == rep.children@.len(),
            forall|j: int|
                0 <= j < rep.children@.len() ==> #[trigger] rep@.children[j] == rep.children@[j]@,
            span_action_models(out@) == start + own_link(rep@, current@, terse) + child_links(
                rep@,
                i as int,
                current@,
                terse,
            ),
        decreases rep.children.len() - i,
    {
        let ghost before = span_action_models(out@);
        links_into(&rep.children[i], current, terse, out);
        proof {
            let block = link_models(rep@.children[i as int], current@, terse);
            assert(span_action_models(out@) == before + block);
            assert(child_links(rep@, i + 1, current@, terse) == child_links(
                rep@,
                i as int,
                current@,
                terse,
            ) + block);
            assert(span_action_models(out@) =~= start + own_link(rep@, current@, terse)
                + child_links(rep@, i + 1, current@, terse));
        }
        i = i + 1;
    }
    proof {
        assert(span_action_models(out@) =~= start + link_models(rep@, current@, terse));
    }
}

/// Gathers what is to be recorded of a report on a span, step by step.
///
/// Each step adds to a list of actions, which is with handed to whoever
/// holds the span.
#[derive(Debug)]
pub struct RecordErrorReport<'a> {
    /// The report to record.
    pub report: &'a ReportNode,
    /// The whole report as it is printed.
    pub rendered: &'a str,
    /// The context of the span to record on.
    pub current: SpanContext,
    /// The time at which recording began.
    pub now: SystemTime,
    /// The actions gathered so far.
    pub actions: Vec<SpanAction>,
}

/// The mathematical value of a [`RecordErrorReport`].
pub struct RecordModel {
    pub report: ReportModel,
    pub rendered: Seq<char>,
    pub current: SpanContextModel,
    pub now: SystemTime,
    pub actions: Seq<SpanActionModel>,
}

impl RecordModel {
    /// The same record with one more action.
    pub open spec fn with(self, action: SpanActionModel) -> RecordModel {
        RecordModel { actions: self.actions.push(action), ..self }
    }

    /// The same record with more actions.
    pub open spec fn with_all(self, actions: Seq<SpanActionModel>) -> RecordModel {
        RecordModel { actions: self.actions + actions, ..self }
    }

    /// The event of the report, with or without its backtrace.
    pub open spec fn event(self, brief: bool) -> SpanActionModel {
        SpanActionModel::AddEvent(
            EventModel {
                name: EXCEPTION@,
                timestamp: report_time(self.report, self.now),
                attributes: if brief {
                    brief_attributes(self.report)
                } else {
                    full_attributes(self.report, self.rendered)
                },
            },
        )
    }
}

impl<'a> View for RecordErrorReport<'a> {
    type V = RecordModel;

    open spec fn view(&self) -> RecordModel {
        RecordModel {
            report: self.report@,
            rendered: self.rendered@,
            current: self.current@,
            now: self.now,
            actions: span_action_models(self.actions@),
        }
    }
}

impl<'a> RecordErrorReport<'a> {
    /// Begins to record `report` on the span with the context `current`, at
    /// the time `now`. `rendered` is the whole report as it is printed.
    pub fn new(
        report: &'a ReportNode,
        rendered: &'a str,
        current: SpanContext,
        now: SystemTime,
    ) -> (r: Self)
        ensures
            r@ == (RecordModel {
                report: report@,
                rendered: rendered@,
                current: current@,
                now,
                actions: Seq::empty(),
            }),
    {
        let r = RecordErrorReport { report, rendered, current, now, actions: Vec::new() };
        proof {
            assert(r@.actions =~= Seq::<SpanActionModel>::empty());
        }
        r
    }

    fn push(self, action: SpanAction) -> (r: Self)
        ensures
            r@ == self@.with(action@),
    {
        let mut s = self;
        s.actions.push(action);
        proof {
            assert(s@.actions =~= self@.actions.push(action@));
        }
        s
    }

    /// Records the report as an `exception` event: at the time of its first
    /// timestamp attachment, else at the time recording began, with its
    /// type, its message and the printed report as attributes.
    pub fn as_event(self) -> (r: Self)
        ensures
            r@ == self@.with(self@.event(false)),
    {
        let event = FinishedEvent {
            name: owned(EXCEPTION),
            timestamp: timestamp_or(self.report, self.now),
            attributes: attributes(self.report, self.rendered),
        };
        self.push(SpanAction::AddEvent(event))
    }

    /// Records the report as an `exception` event without the printed
    /// report.
    pub fn as_event_brief(self) -> (r: Self)
        ensures
            r@ == self@.with(self@.event(true)),
    {
        let event = FinishedEvent {
            name: owned(EXCEPTION),
            timestamp: timestamp_or(self.report, self.now),
            attributes: attributes_brief(self.report),
        };
        self.push(SpanAction::AddEvent(event))
    }

    /// Marks the span as failed: the type of the report becomes the span's
    /// `error.type` attribute, its message the description of the status.
    pub fn with_error_status(self) -> (r: Self)
        ensures
            r@ == self@.with(
                SpanActionModel::SetAttributes(error_type_attributes(self@.report)),
            ).with(
                SpanActionModel::SetStatus(
                    StatusModel::Error { description: self@.report.formatted_context },
                ),
            ),
    {
        let attributes = error_type_attribute(self.report);
        let status = Status::Error { description: self.report.formatted_context.clone() };
        self.push(SpanAction::SetAttributes(attributes)).push(SpanAction::SetStatus(status))
    }

    /// Ends the span at the time of the report.
    pub fn end_span(self) -> (r: Self)
        ensures
            r@ == self@.with(SpanActionModel::End(report_time(self@.report, self@.now))),
    {
        let at = timestamp_or(self.report, self.now);
        self.push(SpanAction::End(at))
    }

    /// Puts type, message and printed report on the span itself.
    pub fn on_span_attributes(self) -> (r: Self)
        ensures
            r@ == self@.with(
                SpanActionModel::SetAttributes(full_attributes(self@.report, self@.rendered)),
            ),
    {
        let attributes = attributes(self.report, self.rendered);
        self.push(SpanAction::SetAttributes(attributes))
    }

    /// Puts type and message on the span itself.
    pub fn as_span_attributes_brief(self) -> (r: Self)
        ensures
            r@ == self@.with(SpanActionModel::SetAttributes(brief_attributes(self@.report))),
    {
        let attributes = attributes_brief(self.report);
        self.push(SpanAction::SetAttributes(attributes))
    }

    /// Links the span to the span of every report of the tree that was made
    /// in another span, with the type and the message of that report.
    pub fn link_child_report_spans(self) -> (r: Self)
        ensures
            r@ == self@.with_all(link_models(self@.report, self@.current, false)),
    {
        let mut s = self;
        links_into(s.report, &s.current, false, &mut s.actions);
        s
    }

    /// Links the span to the span of every report of the tree that was made
    /// in another span, with the type of that report alone.
    pub fn link_child_report_spans_brief(self) -> (r: Self)
        ensures
            r@ == self@.with_all(link_models(self@.report, self@.current, true)),
    {
        let mut s = self;
        links_into(s.report, &s.current, true, &mut s.actions);
        s
    }

    /// The actions gathered, in the order in which they were asked for.
    pub fn into_actions(self) -> (r: Vec<SpanAction>)
        ensures
            span_action_models(r@) == self@.actions,
    {
        self.actions
    }
}

} // verus!
