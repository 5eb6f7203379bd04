use crate::attachments::{ActionModel, TypeTag};
use crate::event::EventModel;
use crate::event_spec::{
    EventSpecModel, ExceptionEventConfig, ExceptionEventConfigExt, ExceptionEventSpec,
};
use crate::projector::{event_models, project_at, project_model};
use crate::report::{ReportModel, ReportNode};
use crate::span_event::{span_action_models, SpanAction, SpanActionModel, Status, StatusModel};
use crate::time::current_time;
use std::time::SystemTime;
use vstd::prelude::*;

verus! {

/// A report on its way to a span: the report, how it is to be turned into
/// events, and the status that the span is to get.
#[derive(Debug)]
pub struct ReportWrapper {
    pub report: ReportNode,
    pub status: Status,
    pub spec: ExceptionEventSpec,
}

/// The mathematical value of a [`ReportWrapper`].
pub struct WrapperModel {
    pub report: ReportModel,
    pub status: StatusModel,
    pub spec: EventSpecModel,
}

impl View for ReportWrapper {
    type V = WrapperModel;

    open spec fn view(&self) -> WrapperModel {
        WrapperModel { report: self.report@, status: self.status@, spec: self.spec@ }
    }
}

/// The wrapper of a report of which nothing was asked yet: type, time and
/// backtrace are derived, and the status is unset.
pub open spec fn fresh_wrapper(report: ReportModel) -> WrapperModel {
    WrapperModel {
        report,
        status: StatusModel::Unset,
        spec: EventSpecModel::empty().with_defaults(),
    }
}

/// The events of a list as actions that add them to a span, in the list's
/// order.
pub open spec fn add_events(events: Seq<EventModel>) -> Seq<SpanActionModel> {
    events.map_values(|e: EventModel| SpanActionModel::AddEvent(e))
}

/// The action that sets a status, as a list of one action, or of none where
/// the status is unset.
pub open spec fn status_action(status: StatusModel) -> Seq<SpanActionModel> {
    match status {
        StatusModel::Unset => Seq::empty(),
        _ => seq![SpanActionModel::SetStatus(status)],
    }
}

impl WrapperModel {
    /// What sending does to a span: one event for each report that the
    /// configuration reaches, root first, then the status if one was set.
    pub open spec fn actions(self, now: SystemTime) -> Seq<SpanActionModel> {
        add_events(project_model(self.report, self.spec, now)) + status_action(self.status)
    }
}

impl ReportWrapper {
    /// Wraps a report. Type, time and backtrace of its events are derived
    /// unless something else is asked for, and the span keeps its status.
    pub fn new(report: ReportNode) -> (r: Self)
        ensures
            r@ == fresh_wrapper(report@),
    {
        ReportWrapper { report, status: Status::Unset, spec: ExceptionEventSpec::default() }
    }

    /// Hands back the report, and what is to be done to the span for it,
    /// with `now` as the current time.
    pub fn send_at(self, now: SystemTime) -> (r: (ReportNode, Vec<SpanAction>))
        ensures
            r.0@ == self@.report,
            span_action_models(r.1@) == self@.actions(now),
    {
        let ReportWrapper { report, status, spec } = self;
        let events = project_at(&report, &spec, now);
        let ghost models = event_models(events@);
        let mut actions: Vec<SpanAction> = Vec::new();
        let mut i: usize = 0;
        while i < events.len()
            invariant
                i <= events.len(),
                models == event_models(events@),
                span_action_models(actions@) == add_events(models.take(i as int)),
            decreases events.len() - i,
        {
            let ghost before = span_action_models(actions@);
            let event = events[i].clone();
            actions.push(SpanAction::AddEvent(event));
            proof {
                assert(event@ == models[i as int]);
                assert(span_action_models(actions@) =~= before.push(
                    SpanActionModel::AddEvent(models[i as int]),
                ));
                assert(add_events(models.take(i + 1)) =~= before.push(
                    SpanActionModel::AddEvent(models[i as int]),
                ));
            }
            i = i + 1;
        }
        proof {
            assert(models.take(i as int) =~= models);
        }
        let ghost events_done = span_action_models(actions@);
        match status {
            Status::Unset => {
                proof {
                    assert(span_action_models(actions@) =~= events_done + status_action(
                        status@,
                    ));
                }
            },
            other => {
                actions.push(SpanAction::SetStatus(other));
                proof {
                    assert(span_action_models(actions@) =~= events_done + status_action(
                        status@,
                    ));
                }
            },
        }
        (report, actions)
    }
}

/// A report, or a result that may hold one, on its way to a span.
pub trait ExceptionEventBuilder: Sized {
    /// What is handed back when the report has been sent.
    type WrappedReport;

    /// Hands back the report, and what is to be done to the span for it.
    fn send(self) -> (Self::WrappedReport, Vec<SpanAction>);

    /// The report that is on its way, if there is one.
    fn underlying_report_ref(&self) -> Option<&ReportNode>;

    /// Sets the status that the span gets when the report is sent.
    fn status(self, status: Status) -> Self;
}

impl ExceptionEventBuilder for ReportWrapper {
    type WrappedReport = ReportNode;

    /// The clock is read once.
    fn send(self) -> (r: (ReportNode, Vec<SpanAction>))
        ensures
            r.0@ == self@.report,
            exists|now: SystemTime| span_action_models(r.1@) == self@.actions(now),
    {
        let now = current_time();
        self.send_at(now)
    }

    fn underlying_report_ref(&self) -> (r: Option<&ReportNode>)
        ensures
            r matches Some(report) && report@ == self@.report,
    {
        Some(&self.report)
    }

    fn status(self, status: Status) -> (r: Self)
        ensures
            r@ == (WrapperModel { status: status@, ..self@ }),
    {
        let mut s = self;
        s.status = status;
        s
    }
}

impl<X> ExceptionEventBuilder for Result<X, ReportWrapper> {
    type WrappedReport = Result<X, ReportNode>;

    /// Where there is no report, nothing is to be done to the span.
    fn send(self) -> (r: (Result<X, ReportNode>, Vec<SpanAction>))
        ensures
            match self {
                Ok(x) => r.0 == Ok::<X, ReportNode>(x) && r.1@.len() == 0,
                Err(wrapper) => r.0 is Err && r.0->Err_0@ == wrapper@.report && exists|
                    now: SystemTime,
                |
                    span_action_models(r.1@) == wrapper@.actions(now),
            },
    {
        match self {
            Ok(x) => (Ok(x), Vec::new()),
            Err(wrapper) => {
                let (report, actions) = wrapper.send();
                (Err(report), actions)
            },
        }
    }

    fn underlying_report_ref(&self) -> (r: Option<&ReportNode>)
        ensures
            match self {
                Ok(_) => r is None,
                Err(wrapper) => r matches Some(report) && report@ == wrapper@.report,
            },
    {
        match self {
            Ok(_) => None,
            Err(wrapper) => wrapper.underlying_report_ref(),
        }
    }

    fn status(self, status: Status) -> (r: Self)
        ensures
            match self {
                Ok(x) => r == Ok::<X, ReportWrapper>(x),
                Err(wrapper) => r is Err && r->Err_0@ == (WrapperModel {
                    status: status@,
                    ..wrapper@
                }),
            },
    {
        match self {
            Ok(x) => Ok(x),
            Err(wrapper) => Err(wrapper.status(status)),
        }
    }
}

impl ExceptionEventConfig for ReportWrapper {
    fn ex_type(self) -> (r: Self)
        ensures
            r@ == (WrapperModel { spec: self@.spec.infer_ex_type(), ..self@ }),
    {
        let ReportWrapper { report, status, spec } = self;
        ReportWrapper { report, status, spec: spec.ex_type() }
    }

    fn set_ex_type(self, ex_type: String) -> (r: Self)
        ensures
            r@ == (WrapperModel { spec: self@.spec.set_ex_type(ex_type@), ..self@ }),
    {
        let ReportWrapper { report, status, spec } = self;
        ReportWrapper { report, status, spec: spec.set_ex_type(ex_type) }
    }

    fn custom_message(self, msg: String) -> (r: Self)
        ensures
            r@ == (WrapperModel { spec: self@.spec.set_message(msg@), ..self@ }),
    {
        let ReportWrapper { report, status, spec } = self;
        ReportWrapper { report, status, spec: spec.custom_message(msg) }
    }

    fn timestamped(self) -> (r: Self)
        ensures
            r@ == (WrapperModel { spec: self@.spec.infer_timestamp(), ..self@ }),
    {
        let ReportWrapper { report, status, spec } = self;
        ReportWrapper { report, status, spec: spec.timestamped() }
    }

    fn set_timestamp(self, systime: SystemTime) -> (r: Self)
        ensures
            r@ == (WrapperModel { spec: self@.spec.set_timestamp(Some(systime)), ..self@ }),
    {
        let ReportWrapper { report, status, spec } = self;
        ReportWrapper { report, status, spec: spec.set_timestamp(systime) }
    }

    fn timestamp_now(self) -> (r: Self)
        ensures
            r@ == (WrapperModel { spec: self@.spec.set_timestamp(None), ..self@ }),
    {
        let ReportWrapper { report, status, spec } = self;
        ReportWrapper { report, status, spec: spec.timestamp_now() }
    }

    fn backtrace(self) -> (r: Self)
        ensures
            r@ == (WrapperModel { spec: self@.spec.infer_backtrace(), ..self@ }),
    {
        let ReportWrapper { report, status, spec } = self;
        ReportWrapper { report, status, spec: spec.backtrace() }
    }

    fn override_backtrace(self, backtrace: String) -> (r: Self)
        ensures
            r@ == (WrapperModel { spec: self@.spec.set_backtrace(backtrace@), ..self@ }),
    {
        let ReportWrapper { report, status, spec } = self;
        ReportWrapper { report, status, spec: spec.override_backtrace(backtrace) }
    }

    fn escaped(self, has_escaped: bool) -> (r: Self)
        ensures
            r@ == (WrapperModel { spec: self@.spec.set_escaped(has_escaped), ..self@ }),
    {
        let ReportWrapper { report, status, spec } = self;
        ReportWrapper { report, status, spec: spec.escaped(has_escaped) }
    }

    fn add_attacment(self, at: String) -> (r: Self)
        ensures
            r@ == (WrapperModel {
                spec: self@.spec.add_action(ActionModel::Custom(at@)),
                ..self@
            }),
    {
        let ReportWrapper { report, status, spec } = self;
        ReportWrapper { report, status, spec: spec.add_attacment(at) }
    }

    fn all_attachments(self) -> (r: Self)
        ensures
            r@ == (WrapperModel {
                spec: self@.spec.add_action(ActionModel::All),
                ..self@
            }),
    {
        let ReportWrapper { report, status, spec } = self;
        ReportWrapper { report, status, spec: spec.all_attachments() }
    }

    fn attachments(self) -> (r: Self)
        ensures
            r@ == (WrapperModel {
                spec: self@.spec.add_action(ActionModel::Smart),
                ..self@
            }),
    {
        let ReportWrapper { report, status, spec } = self;
        ReportWrapper { report, status, spec: spec.attachments() }
    }

    fn attachments_of_type_id(self, type_id: TypeTag) -> (r: Self)
        ensures
            r@ == (WrapperModel {
                spec: self@.spec.add_action(ActionModel::ByType(type_id)),
                ..self@
            }),
    {
        let ReportWrapper { report, status, spec } = self;
        ReportWrapper { report, status, spec: spec.attachments_of_type_id(type_id) }
    }

    fn recurse(self) -> (r: Self)
        ensures
            r@ == (WrapperModel { spec: self@.spec.infer_children(), ..self@ }),
    {
        let ReportWrapper { report, status, spec } = self;
        ReportWrapper { report, status, spec: spec.recurse() }
    }

    fn children(self, actions: ExceptionEventSpec) -> (r: Self)
        ensures
            r@ == (WrapperModel { spec: self@.spec.set_children(actions@), ..self@ }),
    {
        let ReportWrapper { report, status, spec } = self;
        ReportWrapper { report, status, spec: spec.children(actions) }
    }
}

impl ExceptionEventConfigExt for ReportWrapper {
    fn with_defaults(self) -> (r: Self)
        ensures
            r@ == (WrapperModel { spec: self@.spec.with_defaults(), ..self@ }),
    {
        let ReportWrapper { report, status, spec } = self;
        ReportWrapper { report, status, spec: spec.with_defaults() }
    }

    fn config(self, spec: ExceptionEventSpec) -> (r: Self)
        ensures
            r@ == (WrapperModel { spec: spec@.inject(self@.spec), ..self@ }),
    {
        let ReportWrapper { report, status, spec: own } = self;
        ReportWrapper { report, status, spec: spec.inject(own) }
    }
}

/// Turning a report, or a result that may hold one, into a builder for the
/// report's events.
pub trait ReportExt: Sized {
    /// What the report is built with.
    type Builder;

    /// A builder of which nothing was asked yet.
    fn otel_raw(self) -> Self::Builder;

    /// A builder that derives type, time and backtrace.
    fn otel(self) -> Self::Builder;

    /// A builder with the given configuration layered onto the fresh one.
    fn otel_spec(self, spec: ExceptionEventSpec) -> Self::Builder;
}

impl ReportExt for ReportNode {
    type Builder = ReportWrapper;

    fn otel_raw(self) -> (r: ReportWrapper)
        ensures
            r@ == fresh_wrapper(self@),
    {
        ReportWrapper::new(self)
    }

    fn otel(self) -> (r: ReportWrapper)
        ensures
            r@ == fresh_wrapper(self@),
    {
        ReportWrapper::new(self).ex_type().timestamped().backtrace()
    }

    fn otel_spec(self, spec: ExceptionEventSpec) -> (r: ReportWrapper)
        ensures
            r@ == (WrapperModel {
                spec: spec@.inject(EventSpecModel::empty().with_defaults()),
                ..fresh_wrapper(self@)
            }),
    {
        ReportWrapper::new(self).config(spec)
    }
}

impl<X> ReportExt for Result<X, ReportNode> {
    type Builder = Result<X, ReportWrapper>;

    fn otel_raw(self) -> (r: Result<X, ReportWrapper>)
        ensures
            match self {
                Ok(x) => r == Ok::<X, ReportWrapper>(x),
                Err(report) => r is Err && r->Err_0@ == fresh_wrapper(report@),
            },
    {
        match self {
            Ok(x) => Ok(x),
            Err(report) => Err(ReportWrapper::new(report)),
        }
    }

    fn otel(self) -> (r: Result<X, ReportWrapper>)
        ensures
            match self {
                Ok(x) => r == Ok::<X, ReportWrapper>(x),
                Err(report) => r is Err && r->Err_0@ == fresh_wrapper(report@),
            },
    {
        match self {
            Ok(x) => Ok(x),
            Err(report) => Err(report.otel()),
        }
    }

    fn otel_spec(self, spec: ExceptionEventSpec) -> (r: Result<X, ReportWrapper>)
        ensures
            match self {
                Ok(x) => r == Ok::<X, ReportWrapper>(x),
                Err(report) => r is Err && r->Err_0@ == (WrapperModel {
                    spec: spec@.inject(EventSpecModel::empty().with_defaults()),
                    ..fresh_wrapper(report@)
                }),
            },
    {
        match self {
            Ok(x) => Ok(x),
            Err(report) => Err(report.otel_spec(spec)),
        }
    }
}

} // verus!
