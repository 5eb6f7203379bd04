use crate::attachments::{
    attachment_models, first_with_tag, lemma_first_is, lemma_first_is_none, Attachment, TypeTag,
};
use crate::event::{attribute_models, Attribute, AttributeModel, AttributeValue, ValueModel};
use crate::keys::{
    exception_message, exception_stacktrace, exception_type, message_key, owned, stacktrace_key,
    type_key,
};
use crate::report::{ReportModel, ReportNode};
use crate::time::current_time;
use std::time::SystemTime;
use vstd::prelude::*;

verus! {

/// Looking up attachments by their type.
pub trait AttachmentsExt {
    /// The first attachment of the given type.
    fn find_attachment(&self, tag: TypeTag) -> Option<&Attachment>;
}

impl AttachmentsExt for Vec<Attachment> {
    fn find_attachment(&self, tag: TypeTag) -> (r: Option<&Attachment>)
        ensures
            match r {
                Some(a) => first_with_tag(attachment_models(self@), tag) == Some(a@),
                None => first_with_tag(attachment_models(self@), tag) is None,
            },
    {
        let ghost atts = attachment_models(self@);
        let mut i: usize = 0;
        while i < self.len()
            invariant
                i <= self.len(),
                atts == attachment_models(self@),
                forall|j: int| 0 <= j < i ==> (#[trigger] atts[j]).value.tag() != tag,
            decreases self.len() - i,
        {
            let a = &self[i];
            if a.type_tag() == tag {
                proof {
                    assert(atts[i as int] == a@);
                    lemma_first_is(atts, tag, i as int);
                }
                return Some(a);
            }
            proof {
                assert(atts[i as int] == a@);
            }
            i = i + 1;
        }
        proof {
            lemma_first_is_none(atts, tag);
        }
        None
    }
}

impl AttachmentsExt for ReportNode {
    fn find_attachment(&self, tag: TypeTag) -> (r: Option<&Attachment>)
        ensures
            match r {
                Some(a) => first_with_tag(self@.attachments, tag) == Some(a@),
                None => first_with_tag(self@.attachments, tag) is None,
            },
    {
        self.attachments.find_attachment(tag)
    }
}

/// The two attributes that name a report: its type and its message.
pub open spec fn brief_attributes(rep: ReportModel) -> Seq<AttributeModel> {
    seq![
        AttributeModel { key: type_key(), value: ValueModel::Text(rep.context_type_name) },
        AttributeModel { key: message_key(), value: ValueModel::Text(rep.formatted_context) },
    ]
}

/// The attributes of a report with the whole report, as it is printed, for
/// its backtrace.
pub open spec fn full_attributes(rep: ReportModel, rendered: Seq<char>) -> Seq<AttributeModel> {
    brief_attributes(rep).push(
        AttributeModel { key: stacktrace_key(), value: ValueModel::Text(rendered) },
    )
}

/// The time of a report: that of its first timestamp attachment, else the
/// current time.
pub open spec fn report_time(rep: ReportModel, now: SystemTime) -> SystemTime {
    match first_with_tag(rep.attachments, TypeTag::Timestamp) {
        Some(a) => match a.value.time() {
            Some(t) => t,
            None => now,
        },
        None => now,
    }
}

/// The type and the message of a report, as attributes.
pub fn attributes_brief(rep: &ReportNode) -> (res: Vec<Attribute>)
    ensures
        attribute_models(res@) == brief_attributes(rep@),
{
    let mut res: Vec<Attribute> = Vec::new();
    res.push(
        Attribute {
            key: owned(exception_type()),
            value: AttributeValue::Text(rep.context_type_name.clone()),
        },
    );
    res.push(
        Attribute {
            key: owned(exception_message()),
            value: AttributeValue::Text(rep.formatted_context.clone()),
        },
    );
    proof {
        assert(attribute_models(res@) =~= brief_attributes(rep@));
    }
    res
}

/// The type and the message of a report and, for its backtrace, the whole
/// report as it is printed.
pub fn attributes(rep: &ReportNode, rendered: &str) -> (res: Vec<Attribute>)
    ensures
        attribute_models(res@) == full_attributes(rep@, rendered@),
{
    let mut res = attributes_brief(rep);
    res.push(
        Attribute { key: owned(exception_stacktrace()), value: AttributeValue::Text(owned(rendered)) },
    );
    proof {
        assert(attribute_models(res@) =~= full_attributes(rep@, rendered@));
    }
    res
}

/// The time of a report, with `now` as the current time.
pub fn timestamp_or(rep: &ReportNode, now: SystemTime) -> (r: SystemTime)
    ensures
        r == report_time(rep@, now),
{
    match rep.find_attachment(TypeTag::Timestamp) {
        Some(a) => match a.downcast_timestamp() {
            Some(t) => t,
            None => now,
        },
        None => now,
    }
}

/// The time of a report: that of its first timestamp attachment. The clock
/// is read where the report has none.
pub fn timestamp(rep: &ReportNode) -> (r: SystemTime)
    ensures
        exists|now: SystemTime| r == report_time(rep@, now),
{
    let now = current_time();
    timestamp_or(rep, now)
}

} // verus!
