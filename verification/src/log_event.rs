use crate::attachments::{first_with_tag, AttachmentValue, TypeTag};
use crate::event::{attribute_models, Attribute, AttributeModel};
use crate::keys::{owned, EXCEPTION};
use crate::report::{ReportModel, ReportNode};
use crate::span_context::{SpanContext, SpanContextModel};
use crate::span_event::span_of;
use crate::time::current_time;
use crate::utilities::{attributes, full_attributes, report_time, timestamp_or, AttachmentsExt};
use std::time::SystemTime;
use vstd::prelude::*;

verus! {

/// The number of the severity `ERROR` in the logs data model.
pub const SEVERITY_ERROR: u8 = 17;

/// One log record, as it is handed to a logger.
#[derive(Debug, PartialEq)]
pub struct LogRecord {
    pub event_name: String,
    /// When what is logged was seen.
    pub observed_timestamp: SystemTime,
    /// When the record was made.
    pub timestamp: SystemTime,
    pub severity_number: u8,
    /// The span that the record belongs to, if one is known.
    pub trace_context: Option<SpanContext>,
    pub attributes: Vec<Attribute>,
}

/// The mathematical value of a [`LogRecord`].
pub struct LogRecordModel {
    pub event_name: Seq<char>,
    pub observed_timestamp: SystemTime,
    pub timestamp: SystemTime,
    pub severity_number: u8,
    pub trace_context: Option<SpanContextModel>,
    pub attributes: Seq<AttributeModel>,
}

impl View for LogRecord {
    type V = LogRecordModel;

    open spec fn view(&self) -> LogRecordModel {
        LogRecordModel {
            event_name: self.event_name@,
            observed_timestamp: self.observed_timestamp,
            timestamp: self.timestamp,
            severity_number: self.severity_number,
            trace_context: match self.trace_context {
                Some(c) => Some(c@),
                None => None,
            },
            attributes: attribute_models(self.attributes@),
        }
    }
}

/// The severity of a report: that of its first severity attachment, else
/// `ERROR`.
pub open spec fn report_severity(rep: ReportModel) -> u8 {
    match first_with_tag(rep.attachments, TypeTag::Severity) {
        Some(a) => match a.value.severity() {
            Some(n) => n,
            None => SEVERITY_ERROR,
        },
        None => SEVERITY_ERROR,
    }
}

/// The span that a record for a report belongs to: the span in which the
/// report was made, else the current span; and none where that context
/// names no span.
pub open spec fn record_span(rep: ReportModel, current: SpanContextModel) -> Option<
    SpanContextModel,
> {
    let ctx = match span_of(rep) {
        Some(c) => c,
        None => current,
    };
    if ctx.valid() {
        Some(ctx)
    } else {
        None
    }
}

/// The log record for a report, made at `now` within the span `current`.
pub open spec fn record_model(
    rep: ReportModel,
    rendered: Seq<char>,
    current: SpanContextModel,
    now: SystemTime,
) -> LogRecordModel {
    LogRecordModel {
        event_name: EXCEPTION@,
        observed_timestamp: report_time(rep, now),
        timestamp: now,
        severity_number: report_severity(rep),
        trace_context: record_span(rep, current),
        attributes: full_attributes(rep, rendered),
    }
}

/// Makes the log record for a report, with `now` as the current time and
/// `current` as the context of the current span. `rendered` is the whole
/// report as it is printed.
pub fn error_report_record(
    rep: &ReportNode,
    rendered: &str,
    current: &SpanContext,
    now: SystemTime,
) -> (r: LogRecord)
    ensures
        r@ == record_model(rep@, rendered@, current@, now),
{
    let severity_number = match rep.find_attachment(TypeTag::Severity) {
        Some(a) => match &a.value {
            AttachmentValue::Severity(n) => *n,
            _ => SEVERITY_ERROR,
        },
        None => SEVERITY_ERROR,
    };
    let span_context = match rep.find_attachment(TypeTag::SpanContext) {
        Some(a) => match &a.value {
            AttachmentValue::SpanContext(c) => c.clone(),
            _ => current.clone(),
        },
        None => current.clone(),
    };
    let trace_context = if span_context.is_valid() {
        Some(span_context)
    } else {
        None
    };
    LogRecord {
        event_name: owned(EXCEPTION),
        observed_timestamp: timestamp_or(rep, now),
        timestamp: now,
        severity_number,
        trace_context,
        attributes: attributes(rep, rendered),
    }
}

/// Makes the log record for a report within the span `current`. The clock
/// is read once.
pub fn emit_error_report(rep: &ReportNode, rendered: &str, current: &SpanContext) -> (r: LogRecord)
    ensures
        exists|now: SystemTime| r@ == record_model(rep@, rendered@, current@, now),
{
    let now = current_time();
    error_report_record(rep, rendered, current, now)
}

} // verus!
