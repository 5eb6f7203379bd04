use crate::attachments::{first_with_tag, text_of, TypeTag};
use crate::event::{attribute_models, Attribute, AttributeModel, AttributeValue, ValueModel};
use crate::granular::{
    found_attribute, granular_time, pending_models, Event, GranularExceptions, PendingEvent,
    PendingModel,
};
use crate::keys::{
    exception_message, exception_stacktrace, exception_type, message_key, owned, stacktrace_key,
    type_key, EXCEPTION,
};
use crate::report::{ReportModel, ReportNode};
use crate::utilities::AttachmentsExt;
use vstd::prelude::*;

verus! {

/// Builds the event of a single report, unless the report was sent already.
///
/// The event holds the message, the type and, for its backtrace, the text
/// of the first backtrace attachment, or of the first location attachment
/// where the report has no backtrace.
#[derive(Debug, Clone, Copy, PartialEq, Eq)]
pub struct EventConfig;

/// The text that stands for the backtrace of a report.
pub open spec fn origin_text(rep: ReportModel) -> Option<Seq<char>> {
    match text_of(first_with_tag(rep.attachments, TypeTag::Backtrace)) {
        Some(text) => Some(text),
        None => text_of(first_with_tag(rep.attachments, TypeTag::Location)),
    }
}

/// The attributes of the event: message, type and backtrace.
pub open spec fn built_attributes(rep: ReportModel) -> Seq<AttributeModel> {
    seq![
        AttributeModel { key: message_key(), value: ValueModel::Text(rep.formatted_context) },
        AttributeModel { key: type_key(), value: ValueModel::Text(rep.context_type_name) },
    ] + found_attribute(stacktrace_key(), origin_text(rep))
}

/// Whether an attachment marks the report as sent.
pub open spec fn was_sent(rep: ReportModel) -> bool {
    first_with_tag(rep.attachments, TypeTag::SentTo) is Some
}

/// The event of a report, as a list of one event, or of none where the
/// report was sent already.
pub open spec fn built_events(rep: ReportModel) -> Seq<PendingModel> {
    if was_sent(rep) {
        Seq::empty()
    } else {
        seq![
            PendingModel {
                name: EXCEPTION@,
                timestamp: granular_time(rep),
                attributes: built_attributes(rep),
            },
        ]
    }
}

impl EventConfig {
    /// The configuration that finds each part of an event in the usual
    /// place.
    pub fn new() -> (r: Self)
        ensures
            r == EventConfig,
    {
        EventConfig
    }

    /// Appends to `res` the event of `rep`, unless `rep` was sent already.
    pub fn build(&self, rep: &ReportNode, res: &mut Vec<PendingEvent>)
        ensures
            pending_models(final(res)@) == pending_models(old(res)@) + built_events(rep@),
    {
        let ghost start = pending_models(res@);
        let mut attributes: Vec<Attribute> = Vec::new();
        attributes.push(
            Attribute {
                key: owned(exception_message()),
                value: AttributeValue::Text(rep.formatted_context.clone()),
            },
        );
        attributes.push(
            Attribute {
                key: owned(exception_type()),
                value: AttributeValue::Text(rep.context_type_name.clone()),
            },
        );
        let ghost named = attribute_models(attributes@);
        let origin = match rep.find_attachment(TypeTag::Backtrace) {
            Some(backtrace) => Some(backtrace),
            None => rep.find_attachment(TypeTag::Location),
        };
        match origin {
            Some(found) => {
                attributes.push(
                    Attribute {
                        key: owned(exception_stacktrace()),
                        value: AttributeValue::Text(found.text.clone()),
                    },
                );
            },
            None => {},
        }
        proof {
            assert(attribute_models(attributes@) =~= named + found_attribute(
                stacktrace_key(),
                origin_text(rep@),
            ));
            assert(attribute_models(attributes@) =~= built_attributes(rep@));
        }
        let sent = rep.find_attachment(TypeTag::SentTo).is_some();
        if !sent {
            let this = PendingEvent {
                name: owned(EXCEPTION),
                timestamp: GranularExceptions(rep).timestamp(),
                attributes,
            };
            res.push(this);
            proof {
                assert(pending_models(res@) =~= start + built_events(rep@));
            }
        } else {
            proof {
                assert(pending_models(res@) =~= start + built_events(rep@));
            }
        }
    }
}

} // verus!
