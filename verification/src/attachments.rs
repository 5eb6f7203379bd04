use crate::span_context::{SpanContext, SpanContextModel};
use std::time::SystemTime;
use vstd::prelude::*;

verus! {

/// Identifies the type of the value that an attachment carries.
///
/// Three types are reserved: each of them feeds a dedicated field of an
/// event. Span contexts, severities and the mark of a report that was sent
/// have tags of their own, and every other type is told apart by a number.
#[derive(Debug, Clone, Copy, PartialEq, Eq, Structural, Hash)]
pub enum TypeTag {
    Timestamp,
    Backtrace,
    Location,
    SpanContext,
    Severity,
    SentTo,
    Other(u64),
}

impl TypeTag {
    /// Whether a dedicated event field exists for values of this type.
    pub open spec fn reserved(self) -> bool {
        self == TypeTag::Timestamp || self == TypeTag::Backtrace || self == TypeTag::Location
    }
}

/// What an attachment carries, as far as events need it.
#[derive(Debug, PartialEq)]
pub enum AttachmentValue {
    /// A point in time.
    Timestamp(SystemTime),
    /// A captured backtrace; only its formatted text is used.
    Backtrace,
    /// A source location; only its formatted text is used.
    Location,
    /// The context of the span in which the report was made.
    SpanContext(SpanContext),
    /// How severe the report is, as the number that the logs data model
    /// gives to the severity.
    Severity(u8),
    /// The mark of a report that was sent to a span already.
    SentTo,
    /// A value of any other type, with the number of that type.
    Other(u64),
}

/// The mathematical value of an [`AttachmentValue`].
pub enum ValueKind {
    Timestamp(SystemTime),
    Backtrace,
    Location,
    SpanContext(SpanContextModel),
    Severity(u8),
    SentTo,
    Other(u64),
}

impl View for AttachmentValue {
    type V = ValueKind;

    open spec fn view(&self) -> ValueKind {
        match self {
            AttachmentValue::Timestamp(t) => ValueKind::Timestamp(*t),
            AttachmentValue::Backtrace => ValueKind::Backtrace,
            AttachmentValue::Location => ValueKind::Location,
            AttachmentValue::SpanContext(c) => ValueKind::SpanContext(c@),
            AttachmentValue::Severity(n) => ValueKind::Severity(*n),
            AttachmentValue::SentTo => ValueKind::SentTo,
            AttachmentValue::Other(n) => ValueKind::Other(*n),
        }
    }
}

impl Clone for AttachmentValue {
    fn clone(&self) -> (r: Self)
        ensures
            r@ == self@,
    {
        match self {
            AttachmentValue::Timestamp(t) => AttachmentValue::Timestamp(*t),
            AttachmentValue::Backtrace => AttachmentValue::Backtrace,
            AttachmentValue::Location => AttachmentValue::Location,
            AttachmentValue::SpanContext(c) => AttachmentValue::SpanContext(c.clone()),
            AttachmentValue::Severity(n) => AttachmentValue::Severity(*n),
            AttachmentValue::SentTo => AttachmentValue::SentTo,
            AttachmentValue::Other(n) => AttachmentValue::Other(*n),
        }
    }
}

impl ValueKind {
    /// The tag of the carried value's type.
    pub open spec fn tag(self) -> TypeTag {
        match self {
            ValueKind::Timestamp(_) => TypeTag::Timestamp,
            ValueKind::Backtrace => TypeTag::Backtrace,
            ValueKind::Location => TypeTag::Location,
            ValueKind::SpanContext(_) => TypeTag::SpanContext,
            ValueKind::Severity(_) => TypeTag::Severity,
            ValueKind::SentTo => TypeTag::SentTo,
            ValueKind::Other(n) => TypeTag::Other(n),
        }
    }

    /// The carried point in time, if the value is one.
    pub open spec fn time(self) -> Option<SystemTime> {
        match self {
            ValueKind::Timestamp(t) => Some(t),
            _ => None,
        }
    }

    /// The carried span context, if the value is one.
    pub open spec fn span_context(self) -> Option<SpanContextModel> {
        match self {
            ValueKind::SpanContext(c) => Some(c),
            _ => None,
        }
    }

    /// The carried severity number, if the value is one.
    pub open spec fn severity(self) -> Option<u8> {
        match self {
            ValueKind::Severity(n) => Some(n),
            _ => None,
        }
    }
}

/// A typed side value of a report, with the text it is shown as.
#[derive(Debug, PartialEq)]
pub struct Attachment {
    pub value: AttachmentValue,
    pub text: String,
}

/// The mathematical value of an [`Attachment`].
pub struct AttachmentModel {
    pub value: ValueKind,
    pub text: Seq<char>,
}

impl View for Attachment {
    type V = AttachmentModel;

    open spec fn view(&self) -> AttachmentModel {
        AttachmentModel { value: self.value@, text: self.text@ }
    }
}

impl Clone for Attachment {
    fn clone(&self) -> (r: Self)
        ensures
            r@ == self@,
    {
        Attachment { value: self.value.clone(), text: self.text.clone() }
    }
}

impl Attachment {
    /// An attachment that carries `value` and is shown as `text`.
    pub fn new(value: AttachmentValue, text: String) -> (r: Self)
        ensures
            r@ == (AttachmentModel { value: value@, text: text@ }),
    {
        Attachment { value, text }
    }

    /// The tag of the carried value's type.
    pub fn type_tag(&self) -> (r: TypeTag)
        ensures
            r == self@.value.tag(),
    {
        match &self.value {
            AttachmentValue::Timestamp(_) => TypeTag::Timestamp,
            AttachmentValue::Backtrace => TypeTag::Backtrace,
            AttachmentValue::Location => TypeTag::Location,
            AttachmentValue::SpanContext(_) => TypeTag::SpanContext,
            AttachmentValue::Severity(_) => TypeTag::Severity,
            AttachmentValue::SentTo => TypeTag::SentTo,
            AttachmentValue::Other(n) => TypeTag::Other(*n),
        }
    }

    /// The carried point in time, or `None` for a value of another type.
    pub fn downcast_timestamp(&self) -> (r: Option<SystemTime>)
        ensures
            r == self@.value.time(),
    {
        match &self.value {
            AttachmentValue::Timestamp(t) => Some(*t),
            _ => None,
        }
    }

    /// The text the attachment is shown as.
    pub fn formatted_text(&self) -> (r: String)
        ensures
            r@ == self@.text,
    {
        self.text.clone()
    }
}

/// The views of a list of attachments, in the list's order.
pub open spec fn attachment_models(atts: Seq<Attachment>) -> Seq<AttachmentModel> {
    atts.map_values(|a: Attachment| a@)
}

/// Whether `i` is the position of the first attachment of type `tag`.
pub open spec fn is_first_with_tag(atts: Seq<AttachmentModel>, tag: TypeTag, i: int) -> bool {
    &&& 0 <= i < atts.len()
    &&& atts[i].value.tag() == tag
    &&& forall|j: int| 0 <= j < i ==> (#[trigger] atts[j]).value.tag() != tag
}

/// The first attachment of type `tag`, if there is one.
pub open spec fn first_with_tag(atts: Seq<AttachmentModel>, tag: TypeTag) -> Option<
    AttachmentModel,
> {
    if exists|i: int| is_first_with_tag(atts, tag, i) {
        Some(atts[choose|i: int| is_first_with_tag(atts, tag, i)])
    } else {
        None
    }
}

/// The first attachment of a type is the one at the first position of that
/// type.
pub proof fn lemma_first_is(atts: Seq<AttachmentModel>, tag: TypeTag, i: int)
    requires
        is_first_with_tag(atts, tag, i),
    ensures
        first_with_tag(atts, tag) == Some(atts[i]),
{
    let k = choose|k: int| is_first_with_tag(atts, tag, k);
    if k < i {
        assert(atts[k].value.tag() != tag);
    } else if i < k {
        assert(atts[i].value.tag() != tag);
    }
}

/// Where no attachment has the type, none is the first of it.
pub proof fn lemma_first_is_none(atts: Seq<AttachmentModel>, tag: TypeTag)
    requires
        forall|j: int| 0 <= j < atts.len() ==> (#[trigger] atts[j]).value.tag() != tag,
    ensures
        first_with_tag(atts, tag) is None,
{
    if exists|k: int| is_first_with_tag(atts, tag, k) {
        let k = choose|k: int| is_first_with_tag(atts, tag, k);
        assert(atts[k].value.tag() != tag);
    }
}

/// What extending a list by one attachment does to its first attachment of
/// a type: an earlier find stays, and the new attachment is found only if
/// nothing was found before it.
pub proof fn lemma_first_with_tag_step(atts: Seq<AttachmentModel>, tag: TypeTag, n: int)
    requires
        0 <= n < atts.len(),
    ensures
        first_with_tag(atts.take(n + 1), tag) == match first_with_tag(atts.take(n), tag) {
            Some(a) => Some(a),
            None => if atts[n].value.tag() == tag {
                Some(atts[n])
            } else {
                None
            },
        },
{
    let short = atts.take(n);
    let long = atts.take(n + 1);
    assert forall|j: int| 0 <= j < n implies #[trigger] long[j] == short[j] by {}
    if exists|i: int| is_first_with_tag(short, tag, i) {
        let i = choose|i: int| is_first_with_tag(short, tag, i);
        assert(is_first_with_tag(long, tag, i)) by {
            assert forall|j: int| 0 <= j < i implies (#[trigger] long[j]).value.tag() != tag by {
                assert(long[j] == short[j]);
            }
        }
        let k = choose|k: int| is_first_with_tag(long, tag, k);
        if k < i {
            assert(short[k] == long[k]);
        } else if i < k {
            assert(long[i] == short[i]);
        }
        assert(k == i);
    } else if atts[n].value.tag() == tag {
        assert(is_first_with_tag(long, tag, n)) by {
            assert forall|j: int| 0 <= j < n implies (#[trigger] long[j]).value.tag() != tag by {
                if short[j].value.tag() == tag {
                    lemma_some_first_exists(short, tag, j);
                }
            }
        }
        let k = choose|k: int| is_first_with_tag(long, tag, k);
        if k < n {
            assert(long[k].value.tag() != tag);
        }
        assert(k == n);
    } else {
        if exists|k: int| is_first_with_tag(long, tag, k) {
            let k = choose|k: int| is_first_with_tag(long, tag, k);
            assert(k < n);
            assert(is_first_with_tag(short, tag, k)) by {
                assert forall|j: int| 0 <= j < k implies (#[trigger] short[j]).value.tag()
                    != tag by {
                    assert(long[j] == short[j]);
                }
            }
        }
    }
}

/// Where an attachment of type `tag` occurs, a first one exists.
pub proof fn lemma_some_first_exists(atts: Seq<AttachmentModel>, tag: TypeTag, at: int)
    requires
        0 <= at < atts.len(),
        atts[at].value.tag() == tag,
    ensures
        exists|i: int| is_first_with_tag(atts, tag, i),
    decreases at,
{
    if forall|j: int| 0 <= j < at ==> (#[trigger] atts[j]).value.tag() != tag {
        assert(is_first_with_tag(atts, tag, at));
    } else {
        let j = choose|j: int| 0 <= j < at && (#[trigger] atts[j]).value.tag() == tag;
        lemma_some_first_exists(atts, tag, j);
    }
}

/// What is gathered from the attachments of one report before an event is
/// built from it.
#[derive(Debug, Clone, PartialEq)]
pub struct AttachmentDigest {
    /// The time carried by the first timestamp attachment.
    pub timestamp: Option<SystemTime>,
    /// The text of the first backtrace attachment.
    pub backtrace_text: Option<String>,
    /// The text of the first location attachment.
    pub location_text: Option<String>,
    /// Type and text of every attachment, in the report's order.
    pub all: Vec<(TypeTag, String)>,
}

/// The mathematical value of an [`AttachmentDigest`].
pub struct DigestModel {
    pub timestamp: Option<SystemTime>,
    pub backtrace_text: Option<Seq<char>>,
    pub location_text: Option<Seq<char>>,
    pub all: Seq<(TypeTag, Seq<char>)>,
}

/// The views of the entries of a digest's full list.
pub open spec fn entry_models(all: Seq<(TypeTag, String)>) -> Seq<(TypeTag, Seq<char>)> {
    all.map_values(|e: (TypeTag, String)| (e.0, e.1@))
}

/// The view of an optional text.
pub open spec fn text_model(text: Option<String>) -> Option<Seq<char>> {
    match text {
        Some(s) => Some(s@),
        None => None,
    }
}

impl View for AttachmentDigest {
    type V = DigestModel;

    open spec fn view(&self) -> DigestModel {
        DigestModel {
            timestamp: self.timestamp,
            backtrace_text: text_model(self.backtrace_text),
            location_text: text_model(self.location_text),
            all: entry_models(self.all@),
        }
    }
}

/// The text of an attachment that may be missing.
pub open spec fn text_of(a: Option<AttachmentModel>) -> Option<Seq<char>> {
    match a {
        Some(a) => Some(a.text),
        None => None,
    }
}

/// The digest of a list of attachments: of each reserved type the first
/// occurrence, and every attachment's type and text.
pub open spec fn digest_of(atts: Seq<AttachmentModel>) -> DigestModel {
    DigestModel {
        timestamp: match first_with_tag(atts, TypeTag::Timestamp) {
            Some(a) => a.value.time(),
            None => None,
        },
        backtrace_text: text_of(first_with_tag(atts, TypeTag::Backtrace)),
        location_text: text_of(first_with_tag(atts, TypeTag::Location)),
        all: atts.map_values(|a: AttachmentModel| (a.value.tag(), a.text)),
    }
}

impl AttachmentDigest {
    /// Reads the attachments once, in their order, and gathers the digest.
    pub fn from(attachments: &Vec<Attachment>) -> (r: Self)
        ensures
            r@ == digest_of(attachment_models(attachments@)),
    {
        let ghost atts = attachment_models(attachments@);
        let mut res = AttachmentDigest {
            timestamp: None,
            backtrace_text: None,
            location_text: None,
            all: Vec::new(),
        };
        let mut i: usize = 0;
        proof {
            assert(atts.take(0).len() == 0);
            assert(res@.all =~= digest_of(atts.take(0)).all);
        }
        while i < attachments.len()
            invariant
                i <= attachments.len(),
                atts == attachment_models(attachments@),
                res@ == digest_of(atts.take(i as int)),
            decreases attachments.len() - i,
        {
            let at = &attachments[i];
            let ghost before = res@;
            proof {
                assert(atts[i as int] == at@);
                lemma_first_with_tag_step(atts, TypeTag::Timestamp, i as int);
                lemma_first_with_tag_step(atts, TypeTag::Backtrace, i as int);
                lemma_first_with_tag_step(atts, TypeTag::Location, i as int);
            }
            match &at.value {
                AttachmentValue::Timestamp(st) => {
                    if res.timestamp.is_none() {
                        res.timestamp = Some(*st);
                    }
                },
                AttachmentValue::Backtrace => {
                    if res.backtrace_text.is_none() {
                        res.backtrace_text = Some(at.text.clone());
                    }
                },
                AttachmentValue::Location => {
                    if res.location_text.is_none() {
                        res.location_text = Some(at.text.clone());
                    }
                },
                _ => {},
            }
            res.all.push((at.type_tag(), at.text.clone()));
            proof {
                let entry = (at@.value.tag(), at@.text);
                assert(res@.all =~= before.all.push(entry));
                assert(atts.take(i + 1) =~= atts.take(i as int).push(atts[i as int]));
                assert(digest_of(atts.take(i + 1)).all =~= before.all.push(entry));
            }
            i = i + 1;
        }
        proof {
            assert(atts.take(i as int) =~= atts);
        }
        res
    }
}

/// One rule for picking attachment texts into the extras of an event.
#[derive(Debug, PartialEq)]
pub enum AttachmentAction {
    /// Every attachment but the first of each reserved type.
    Smart,
    /// Every attachment.
    All,
    /// This text, whatever the report holds.
    Custom(String),
    /// Every attachment of this type.
    ByType(TypeTag),
}

/// The mathematical value of an [`AttachmentAction`].
pub enum ActionModel {
    Smart,
    All,
    Custom(Seq<char>),
    ByType(TypeTag),
}

impl View for AttachmentAction {
    type V = ActionModel;

    open spec fn view(&self) -> ActionModel {
        match self {
            AttachmentAction::Smart => ActionModel::Smart,
            AttachmentAction::All => ActionModel::All,
            AttachmentAction::Custom(s) => ActionModel::Custom(s@),
            AttachmentAction::ByType(t) => ActionModel::ByType(*t),
        }
    }
}

impl Clone for AttachmentAction {
    fn clone(&self) -> (r: Self)
        ensures
            r@ == self@,
    {
        match self {
            AttachmentAction::Smart => AttachmentAction::Smart,
            AttachmentAction::All => AttachmentAction::All,
            AttachmentAction::Custom(s) => AttachmentAction::Custom(s.clone()),
            AttachmentAction::ByType(t) => AttachmentAction::ByType(*t),
        }
    }
}

/// The views of a list of actions, in the list's order.
pub open spec fn action_models(actions: Seq<AttachmentAction>) -> Seq<ActionModel> {
    actions.map_values(|a: AttachmentAction| a@)
}

/// The views of a list of texts, in the list's order.
pub open spec fn texts(v: Seq<String>) -> Seq<Seq<char>> {
    v.map_values(|s: String| s@)
}

/// Whether an earlier entry than the one at `i` has the same type.
pub open spec fn seen_before(all: Seq<(TypeTag, Seq<char>)>, i: int) -> bool {
    exists|j: int| 0 <= j < i && (#[trigger] all[j]).0 == all[i].0
}

/// Whether `action` picks the entry at position `i` of a digest's full list.
///
/// `Smart` leaves out the first entry of each reserved type, which a
/// dedicated field already shows, and picks everything else, later entries
/// of a reserved type included. `Custom` picks no entry.
pub open spec fn picks(all: Seq<(TypeTag, Seq<char>)>, action: ActionModel, i: int) -> bool {
    match action {
        ActionModel::Smart => !all[i].0.reserved() || seen_before(all, i),
        ActionModel::All => true,
        ActionModel::Custom(_) => false,
        ActionModel::ByType(tag) => all[i].0 == tag,
    }
}

/// The texts of the entries among the first `n` that `action` picks, in
/// their order.
pub open spec fn picked(all: Seq<(TypeTag, Seq<char>)>, action: ActionModel, n: int) -> Seq<
    Seq<char>,
>
    decreases n,
{
    if n <= 0 {
        Seq::empty()
    } else if picks(all, action, n - 1) {
        picked(all, action, n - 1).push(all[n - 1].1)
    } else {
        picked(all, action, n - 1)
    }
}

/// The texts that one action contributes to the extras.
pub open spec fn listed(all: Seq<(TypeTag, Seq<char>)>, action: ActionModel) -> Seq<Seq<char>> {
    match action {
        ActionModel::Custom(text) => seq![text],
        _ => picked(all, action, all.len() as int),
    }
}

/// The extras of an event: what each action contributes, in the order of
/// the actions, with nothing removed across actions.
pub open spec fn extras(all: Seq<(TypeTag, Seq<char>)>, actions: Seq<ActionModel>) -> Seq<
    Seq<char>,
>
    decreases actions.len(),
{
    if actions.len() == 0 {
        Seq::empty()
    } else {
        extras(all, actions.drop_last()) + listed(all, actions.last())
    }
}

/// The texts of all entries, in their order.
pub open spec fn entry_texts(all: Seq<(TypeTag, Seq<char>)>) -> Seq<Seq<char>> {
    all.map_values(|e: (TypeTag, Seq<char>)| e.1)
}

/// Picking everything gives the text of every entry, in the order of the
/// entries, the entries of reserved types included.
pub proof fn law_all_lists_everything(all: Seq<(TypeTag, Seq<char>)>)
    ensures
        listed(all, ActionModel::All) == entry_texts(all),
{
    lemma_all_prefix(all, all.len() as int);
    assert(all.take(all.len() as int) =~= all);
}

/// Picking everything among the first `n` entries gives their texts.
pub proof fn lemma_all_prefix(all: Seq<(TypeTag, Seq<char>)>, n: int)
    requires
        0 <= n <= all.len(),
    ensures
        picked(all, ActionModel::All, n) == entry_texts(all.take(n)),
    decreases n,
{
    if n > 0 {
        lemma_all_prefix(all, n - 1);
        assert(entry_texts(all.take(n)) =~= entry_texts(all.take(n - 1)).push(all[n - 1].1));
    } else {
        assert(entry_texts(all.take(0)) =~= Seq::<Seq<char>>::empty());
    }
}

/// What the smart rule leaves out is what the digest holds in its dedicated
/// fields: an attachment is left out exactly if it is the first of a
/// reserved type.
pub proof fn law_smart_skips_what_digest_holds(atts: Seq<AttachmentModel>, i: int)
    requires
        0 <= i < atts.len(),
    ensures
        !picks(digest_of(atts).all, ActionModel::Smart, i) <==> (atts[i].value.tag().reserved()
            && is_first_with_tag(atts, atts[i].value.tag(), i)),
{
    let all = digest_of(atts).all;
    let tag = atts[i].value.tag();
    assert(all[i].0 == tag);
    if seen_before(all, i) {
        let j = choose|j: int| 0 <= j < i && (#[trigger] all[j]).0 == all[i].0;
        assert(atts[j].value.tag() == tag);
    }
    if !is_first_with_tag(atts, tag, i) {
        let j = choose|j: int| 0 <= j < i && (#[trigger] atts[j]).value.tag() == tag;
        assert(all[j].0 == all[i].0);
    }
}

/// The extras of two lists of actions, one behind the other, are the extras
/// of the first followed by the extras of the second: nothing is removed
/// because an earlier action picked it already.
pub proof fn law_extras_concat(
    all: Seq<(TypeTag, Seq<char>)>,
    first: Seq<ActionModel>,
    second: Seq<ActionModel>,
)
    ensures
        extras(all, first + second) == extras(all, first) + extras(all, second),
    decreases second.len(),
{
    if second.len() == 0 {
        assert(first + second =~= first);
        assert(extras(all, first) + extras(all, second) =~= extras(all, first));
    } else {
        law_extras_concat(all, first, second.drop_last());
        assert((first + second).drop_last() =~= first + second.drop_last());
        assert((first + second).last() == second.last());
        assert(extras(all, first) + extras(all, second.drop_last()) + listed(all, second.last())
            =~= extras(all, first) + (extras(all, second.drop_last()) + listed(
            all,
            second.last(),
        )));
    }
}

impl AttachmentDigest {
    /// Appends to `res` what each of `actions` picks, action by action.
    pub fn list_into_vec(&self, actions: &Vec<AttachmentAction>, res: &mut Vec<String>)
        ensures
            texts(final(res)@) == texts(old(res)@) + extras(self@.all, action_models(actions@)),
    {
        let ghost models = action_models(actions@);
        let mut k: usize = 0;
        proof {
            assert(texts(res@) =~= texts(old(res)@) + extras(self@.all, models.take(0)));
        }
        while k < actions.len()
            invariant
                k <= actions.len(),
                models == action_models(actions@),
                texts(res@) == texts(old(res)@) + extras(self@.all, models.take(k as int)),
            decreases actions.len() - k,
        {
            let ghost before = texts(res@);
            proof {
                assert(models.take(k + 1).drop_last() =~= models.take(k as int));
                assert(models.take(k + 1).last() == actions@[k as int]@);
            }
            match &actions[k] {
                AttachmentAction::Smart => self.list_smartly(res),
                AttachmentAction::All => self.list_all(res),
                AttachmentAction::Custom(text) => {
                    res.push(text.clone());
                    proof {
                        assert(texts(res@) =~= before + seq![text@]);
                    }
                },
                AttachmentAction::ByType(tag) => self.list_by_type_id(*tag, res),
            }
            proof {
                let add = listed(self@.all, actions@[k as int]@);
                assert(texts(res@) == before + add);
                assert(texts(old(res)@) + extras(self@.all, models.take(k as int)) + add
                    =~= texts(old(res)@) + (extras(self@.all, models.take(k as int)) + add));
            }
            k = k + 1;
        }
        proof {
            assert(models.take(k as int) =~= models);
        }
    }

    /// Appends to `res` the text of every attachment.
    pub fn list_all(&self, res: &mut Vec<String>)
        ensures
            texts(final(res)@) == texts(old(res)@) + listed(self@.all, ActionModel::All),
    {
        let ghost all = self@.all;
        let mut i: usize = 0;
        proof {
            assert(texts(res@) =~= texts(old(res)@) + picked(all, ActionModel::All, 0));
        }
        while i < self.all.len()
            invariant
                i <= self.all.len(),
                all == self@.all,
                texts(res@) == texts(old(res)@) + picked(all, ActionModel::All, i as int),
            decreases self.all.len() - i,
        {
            let ghost before = texts(res@);
            res.push(self.all[i].1.clone());
            proof {
                assert(all[i as int].1 == self.all@[i as int].1@);
                assert(texts(res@) =~= before.push(all[i as int].1));
                assert(texts(res@) =~= texts(old(res)@) + picked(
                    all,
                    ActionModel::All,
                    i + 1,
                ));
            }
            i = i + 1;
        }
    }

    /// Appends to `res` the text of every attachment but the first of each
    /// reserved type.
    pub fn list_smartly(&self, res: &mut Vec<String>)
        ensures
            texts(final(res)@) == texts(old(res)@) + listed(self@.all, ActionModel::Smart),
    {
        let ghost all = self@.all;
        let mut ts_seen = false;
        let mut bt_seen = false;
        let mut lt_seen = false;
        let mut i: usize = 0;
        proof {
            assert(texts(res@) =~= texts(old(res)@) + picked(all, ActionModel::Smart, 0));
        }
        while i < self.all.len()
            invariant
                i <= self.all.len(),
                all == self@.all,
                ts_seen <==> exists|j: int| 0 <= j < i && (#[trigger] all[j]).0 == TypeTag::Timestamp,
                bt_seen <==> exists|j: int| 0 <= j < i && (#[trigger] all[j]).0 == TypeTag::Backtrace,
                lt_seen <==> exists|j: int| 0 <= j < i && (#[trigger] all[j]).0 == TypeTag::Location,
                texts(res@) == texts(old(res)@) + picked(all, ActionModel::Smart, i as int),
            decreases self.all.len() - i,
        {
            let ghost before = texts(res@);
            let entry = &self.all[i];
            proof {
                assert(all[i as int] == (entry.0, entry.1@));
            }
            let keep = match entry.0 {
                TypeTag::Timestamp => {
                    let seen = ts_seen;
                    ts_seen = true;
                    seen
                },
                TypeTag::Backtrace => {
                    let seen = bt_seen;
                    bt_seen = true;
                    seen
                },
                TypeTag::Location => {
                    let seen = lt_seen;
                    lt_seen = true;
                    seen
                },
                _ => true,
            };
            proof {
                assert(keep == picks(all, ActionModel::Smart, i as int));
            }
            if keep {
                res.push(entry.1.clone());
                proof {
                    assert(texts(res@) =~= before.push(all[i as int].1));
                }
            }
            proof {
                assert(texts(res@) =~= texts(old(res)@) + picked(
                    all,
                    ActionModel::Smart,
                    i + 1,
                ));
                assert(all[i as int].0 == entry.0);
            }
            i = i + 1;
        }
    }

    /// Appends to `res` the text of every attachment of type `type_id`.
    pub fn list_by_type_id(&self, type_id: TypeTag, res: &mut Vec<String>)
        ensures
            texts(final(res)@) == texts(old(res)@) + listed(
                self@.all,
                ActionModel::ByType(type_id),
            ),
    {
        let ghost all = self@.all;
        let ghost action = ActionModel::ByType(type_id);
        let mut i: usize = 0;
        proof {
            assert(texts(res@) =~= texts(old(res)@) + picked(all, action, 0));
        }
        while i < self.all.len()
            invariant
                i <= self.all.len(),
                all == self@.all,
                action == ActionModel::ByType(type_id),
                texts(res@) == texts(old(res)@) + picked(all, action, i as int),
            decreases self.all.len() - i,
        {
            let ghost before = texts(res@);
            let entry = &self.all[i];
            proof {
                assert(all[i as int] == (entry.0, entry.1@));
            }
            if entry.0 == type_id {
                res.push(entry.1.clone());
                proof {
                    assert(texts(res@) =~= before.push(all[i as int].1));
                }
            }
            proof {
                assert(texts(res@) =~= texts(old(res)@) + picked(all, action, i + 1));
            }
            i = i + 1;
        }
    }
}

} // verus!
