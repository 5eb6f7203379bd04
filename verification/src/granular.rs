use crate::attachments::{first_with_tag, text_of, TypeTag};
use crate::event::{attribute_models, Attribute, AttributeModel, AttributeValue, ValueModel};
use crate::keys::{exception_stacktrace, owned, stacktrace_key, EXCEPTION};
use crate::report::{lemma_children, ReportModel, ReportNode};
use crate::utilities::{attributes_brief, brief_attributes, AttachmentsExt};
use std::time::SystemTime;
use vstd::prelude::*;

verus! {

/// The key of the attribute that holds the place in the source at which a
/// report was made.
pub open spec fn location_key() -> Seq<char> {
    "exception.location"@
}

/// An event whose time may be left to the span that records it.
#[derive(Debug, PartialEq)]
pub struct PendingEvent {
    pub name: String,
    pub timestamp: Option<SystemTime>,
    pub attributes: Vec<Attribute>,
}

/// The mathematical value of a [`PendingEvent`].
pub struct PendingModel {
    pub name: Seq<char>,
    pub timestamp: Option<SystemTime>,
    pub attributes: Seq<AttributeModel>,
}

impl View for PendingEvent {
    type V = PendingModel;

    open spec fn view(&self) -> PendingModel {
        PendingModel {
            name: self.name@,
            timestamp: self.timestamp,
            attributes: attribute_models(self.attributes@),
        }
    }
}

/// The views of a list of pending events, in the list's order.
pub open spec fn pending_models(events: Seq<PendingEvent>) -> Seq<PendingModel> {
    events.map_values(|e: PendingEvent| e@)
}

/// Something that can be recorded on a span as one event.
pub trait Event: Sized {
    /// The name of the event.
    fn name(&self) -> String;

    /// The time of the event, if the thing recorded has one.
    fn timestamp(&self) -> Option<SystemTime>;

    /// The attributes of the event.
    fn attributes(&self) -> Vec<Attribute>;
}

/// A report that is recorded level by level: one event for each report of
/// its tree, the causes before what they caused.
#[derive(Debug)]
pub struct GranularExceptions<'a>(pub &'a ReportNode);

/// An attribute with the text `found`, as a list of one attribute, or of
/// none where nothing was found.
pub open spec fn found_attribute(key: Seq<char>, found: Option<Seq<char>>) -> Seq<AttributeModel> {
    match found {
        Some(text) => seq![AttributeModel { key, value: ValueModel::Text(text) }],
        None => Seq::empty(),
    }
}

/// The attributes of one level: type and message, then the text of the
/// first backtrace attachment and of the first location attachment, each
/// where there is one.
pub open spec fn granular_attributes(rep: ReportModel) -> Seq<AttributeModel> {
    brief_attributes(rep) + found_attribute(
        stacktrace_key(),
        text_of(first_with_tag(rep.attachments, TypeTag::Backtrace)),
    ) + found_attribute(
        location_key(),
        text_of(first_with_tag(rep.attachments, TypeTag::Location)),
    )
}

/// The time of one level: that of its first timestamp attachment.
pub open spec fn granular_time(rep: ReportModel) -> Option<SystemTime> {
    match first_with_tag(rep.attachments, TypeTag::Timestamp) {
        Some(a) => a.value.time(),
        None => None,
    }
}

/// The event of one level.
pub open spec fn granular_event(rep: ReportModel) -> PendingModel {
    PendingModel {
        name: EXCEPTION@,
        timestamp: granular_time(rep),
        attributes: granular_attributes(rep),
    }
}

/// The events of a tree, level by level: those of each child's tree in the
/// order of the children, then that of the root.
pub open spec fn granular_events(rep: ReportModel) -> Seq<PendingModel>
    decreases rep, 1int,
{
    granular_children(rep, rep.children.len() as int).push(granular_event(rep))
}

/// The events of the trees of the first `k` children of `rep`.
pub open spec fn granular_children(rep: ReportModel, k: int) -> Seq<PendingModel>
    decreases rep, 0int, k,
{
    if k <= 0 || k > rep.children.len() {
        Seq::empty()
    } else {
        granular_children(rep, k - 1) + granular_events(rep.children[k - 1])
    }
}

/// The event of the root of a tree is the last of the tree's events.
pub proof fn law_root_last(rep: ReportModel)
    ensures
        granular_events(rep).len() >= 1,
        granular_events(rep).last() == granular_event(rep),
{
}

impl<'a> Event for GranularExceptions<'a> {
    fn name(&self) -> (r: String)
        ensures
            r@ == EXCEPTION@,
    {
        owned(EXCEPTION)
    }

    fn timestamp(&self) -> (r: Option<SystemTime>)
        ensures
            r == granular_time(self.0@),
    {
        match self.0.find_attachment(TypeTag::Timestamp) {
            Some(a) => a.downcast_timestamp(),
            None => None,
        }
    }

    fn attributes(&self) -> (res: Vec<Attribute>)
        ensures
            attribute_models(res@) == granular_attributes(self.0@),
    {
        let mut res = attributes_brief(self.0);
        let ghost m0 = attribute_models(res@);
        match self.0.find_attachment(TypeTag::Backtrace) {
            Some(bt) => {
                res.push(
                    Attribute {
                        key: owned(exception_stacktrace()),
                        value: AttributeValue::Text(bt.text.clone()),
                    },
                );
            },
            None => {},
        }
        let ghost m1 = m0 + found_attribute(
            stacktrace_key(),
            text_of(first_with_tag(self.0@.attachments, TypeTag::Backtrace)),
        );
        assert(attribute_models(res@) =~= m1);
        match self.0.find_attachment(TypeTag::Location) {
            Some(loc) => {
                res.push(
                    Attribute {
                        key: owned("exception.location"),
                        value: AttributeValue::Text(loc.text.clone()),
                    },
                );
            },
            None => {},
        }
        assert(attribute_models(res@) =~= m1 + found_attribute(
            location_key(),
            text_of(first_with_tag(self.0@.attachments, TypeTag::Location)),
        ));
        res
    }
}

/// Appends to `out` the events of the tree of `rep`, level by level.
fn granular_into(rep: &ReportNode, out: &mut Vec<PendingEvent>)
    ensures
        pending_models(final(out)@) == pending_models(old(out)@) + granular_events(rep@),
    decreases rep,
{
    let ghost start = pending_models(out@);
    proof {
        lemma_children(*rep);
        assert(pending_models(out@) =~= start + granular_children(rep@, 0));
    }
    let mut i: usize = 0;
    while i < rep.children.len()
        invariant
            i <= rep.children.len(),
            rep@.children.len() == rep.children@.len(),
            forall|j: int|
                0 <= j < rep.children@.len() ==> #[trigger] rep@.children[j] == rep.children@[j]@,
            pending_models(out@) == start + granular_children(rep@, i as int),
        decreases rep.children.len() - i,
    {
        let ghost before = pending_models(out@);
        granular_into(&rep.children[i], out);
        proof {
            let block = granular_events(rep@.children[i as int]);
            assert(pending_models(out@) == before + block);
            assert(granular_children(rep@, i + 1) == granular_children(rep@, i as int) + block);
            assert(pending_models(out@) =~= start + granular_children(rep@, i + 1));
        }
        i = i + 1;
    }
    let ghost before = pending_models(out@);
    let this = GranularExceptions(rep);
    let event = PendingEvent {
        name: this.name(),
        timestamp: this.timestamp(),
        attributes: this.attributes(),
    };
    out.push(event);
    proof {
        assert(pending_models(out@) =~= before.push(granular_event(rep@)));
        assert(pending_models(out@) =~= start + granular_events(rep@));
    }
}

impl<'a> GranularExceptions<'a> {
    /// The events of the whole tree in the order in which they are
    /// recorded: the events of each child's tree, then the event of the
    /// root.
    pub fn record(&self) -> (r: Vec<PendingEvent>)
        ensures
            pending_models(r@) == granular_events(self.0@),
    {
        let mut out: Vec<PendingEvent> = Vec::new();
        granular_into(self.0, &mut out);
        proof {
            assert(pending_models(out@) =~= granular_events(self.0@));
        }
        out
    }
}

} // verus!
