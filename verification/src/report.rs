use crate::attachments::{attachment_models, Attachment, AttachmentModel};
use vstd::prelude::*;

verus! {

/// One entry of a tree of reports: what went wrong at this level, the
/// values attached to it, and the reports of what caused it.
#[derive(Debug, PartialEq)]
pub struct ReportNode {
    /// The name of the type of the report's context.
    pub context_type_name: String,
    /// The report's context as it is shown.
    pub formatted_context: String,
    /// The attachments, in the order in which they were added.
    pub attachments: Vec<Attachment>,
    /// The child reports, in their order.
    pub children: Vec<ReportNode>,
}

/// The mathematical value of a [`ReportNode`].
pub struct ReportModel {
    pub context_type_name: Seq<char>,
    pub formatted_context: Seq<char>,
    pub attachments: Seq<AttachmentModel>,
    pub children: Seq<ReportModel>,
}

/// The value of a report: its two texts, the values of its attachments and
/// the values of its child reports, each in the report's order.
pub open spec fn report_model(node: ReportNode) -> ReportModel
    decreases node, 1int,
{
    ReportModel {
        context_type_name: node.context_type_name@,
        formatted_context: node.formatted_context@,
        attachments: attachment_models(node.attachments@),
        children: child_models(node, node.children@.len() as int),
    }
}

/// The values of the first `k` child reports of `node`.
pub open spec fn child_models(node: ReportNode, k: int) -> Seq<ReportModel>
    decreases node, 0int, k,
{
    if k <= 0 || k > node.children@.len() {
        Seq::empty()
    } else {
        child_models(node, k - 1).push(report_model(node.children@[k - 1]))
    }
}

impl View for ReportNode {
    type V = ReportModel;

    open spec fn view(&self) -> ReportModel {
        report_model(*self)
    }
}

/// The values of the first `k` child reports are `k` values, the value of
/// each child at the child's place.
pub proof fn lemma_child_models(node: ReportNode, k: int)
    requires
        0 <= k <= node.children@.len(),
    ensures
        child_models(node, k).len() == k,
        forall|j: int| 0 <= j < k ==> #[trigger] child_models(node, k)[j] == node.children@[j]@,
    decreases k,
{
    if k > 0 {
        lemma_child_models(node, k - 1);
    }
}

/// The value of a report holds the value of each child at the child's place.
pub proof fn lemma_children(node: ReportNode)
    ensures
        node@.children.len() == node.children@.len(),
        forall|j: int|
            0 <= j < node.children@.len() ==> #[trigger] node@.children[j] == node.children@[j]@,
{
    lemma_child_models(node, node.children@.len() as int);
}

impl Clone for ReportNode {
    fn clone(&self) -> (r: Self)
        ensures
            r@ == self@,
        decreases self,
    {
        let mut attachments: Vec<Attachment> = Vec::new();
        let mut i: usize = 0;
        while i < self.attachments.len()
            invariant
                i <= self.attachments.len(),
                attachment_models(attachments@) == attachment_models(self.attachments@).take(
                    i as int,
                ),
            decreases self.attachments.len() - i,
        {
            let ghost before = attachment_models(attachments@);
            let attachment = self.attachments[i].clone();
            attachments.push(attachment);
            proof {
                assert(attachment_models(attachments@) =~= before.push(attachment@));
                assert(attachment_models(self.attachments@).take(i + 1) =~= before.push(
                    attachment@,
                ));
            }
            i = i + 1;
        }
        let mut children: Vec<ReportNode> = Vec::new();
        let mut k: usize = 0;
        while k < self.children.len()
            invariant
                k <= self.children.len(),
                children@.len() == k,
                forall|j: int| 0 <= j < k ==> (#[trigger] children@[j])@ == self.children@[j]@,
            decreases self.children.len() - k,
        {
            let child = self.children[k].clone();
            children.push(child);
            k = k + 1;
        }
        let r = ReportNode {
            context_type_name: self.context_type_name.clone(),
            formatted_context: self.formatted_context.clone(),
            attachments,
            children,
        };
        proof {
            assert(attachment_models(self.attachments@).take(i as int) =~= attachment_models(
                self.attachments@,
            ));
            lemma_children(r);
            lemma_children(*self);
            assert(r@.children =~= self@.children);
        }
        r
    }
}

impl ReportNode {
    /// A report without attachments and without children.
    pub fn new(context_type_name: String, formatted_context: String) -> (r: Self)
        ensures
            r@.context_type_name == context_type_name@,
            r@.formatted_context == formatted_context@,
            r@.attachments.len() == 0,
            r@.children.len() == 0,
    {
        let r = ReportNode {
            context_type_name,
            formatted_context,
            attachments: Vec::new(),
            children: Vec::new(),
        };
        proof {
            lemma_children(r);
        }
        r
    }

    /// The same report with `attachment` added behind its attachments.
    pub fn attach(self, attachment: Attachment) -> (r: Self)
        ensures
            r@ == (ReportModel { attachments: self@.attachments.push(attachment@), ..self@ }),
    {
        let mut s = self;
        s.attachments.push(attachment);
        proof {
            assert(s@.attachments =~= self@.attachments.push(attachment@));
            lemma_children(s);
            lemma_children(self);
            assert(s@.children =~= self@.children);
        }
        s
    }

    /// The same report with `child` added behind its children.
    pub fn with_child(self, child: ReportNode) -> (r: Self)
        ensures
            r@ == (ReportModel { children: self@.children.push(child@), ..self@ }),
    {
        let mut s = self;
        s.children.push(child);
        proof {
            lemma_children(s);
            lemma_children(self);
            assert(s@.children =~= self@.children.push(child@));
        }
        s
    }
}

} // verus!
