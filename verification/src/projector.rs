use crate::attachments::{digest_of, AttachmentDigest};
use crate::event::{compile, compile_model, EventModel, FinishedEvent};
use crate::event_spec::{Children, ChildrenModel, EventSpecModel, ExceptionEventSpec};
use crate::report::{lemma_children, ReportModel, ReportNode};
use crate::time::current_time;
use std::time::SystemTime;
use vstd::prelude::*;

verus! {

/// The views of a list of events, in the list's order.
pub open spec fn event_models(events: Seq<FinishedEvent>) -> Seq<EventModel> {
    events.map_values(|e: FinishedEvent| e@)
}

/// The event for `node` alone.
pub open spec fn own_event(node: ReportModel, spec: EventSpecModel, now: SystemTime) -> EventModel {
    compile_model(
        spec,
        node.context_type_name,
        node.formatted_context,
        digest_of(node.attachments),
        now,
    )
}

/// The configuration that the children of a report are projected with, if
/// they are projected at all.
pub open spec fn child_spec(spec: EventSpecModel) -> Option<EventSpecModel> {
    match spec.children {
        ChildrenModel::Unset => None,
        ChildrenModel::Inferred => Some(spec),
        ChildrenModel::Explicit(child) => Some(*child),
    }
}

/// The events for a tree of reports: the event of the root, then the events
/// of each child's tree in the order of the children, each tree in full
/// before the next.
pub open spec fn project_model(node: ReportModel, spec: EventSpecModel, now: SystemTime) -> Seq<
    EventModel,
>
    decreases node, 1int,
{
    seq![own_event(node, spec, now)] + match child_spec(spec) {
        None => Seq::empty(),
        Some(below) => project_children(node, node.children.len() as int, below, now),
    }
}

/// The events for the trees of the first `k` children of `node`.
pub open spec fn project_children(
    node: ReportModel,
    k: int,
    spec: EventSpecModel,
    now: SystemTime,
) -> Seq<EventModel>
    decreases node, 0int, k,
{
    if k <= 0 || k > node.children.len() {
        Seq::empty()
    } else {
        project_children(node, k - 1, spec, now) + project_model(node.children[k - 1], spec, now)
    }
}

/// The number of events for the trees of the first `k` children of `node`.
pub open spec fn child_event_count(
    node: ReportModel,
    k: int,
    spec: EventSpecModel,
    now: SystemTime,
) -> nat
    decreases k,
{
    if k <= 0 || k > node.children.len() {
        0
    } else {
        child_event_count(node, k - 1, spec, now) + project_model(
            node.children[k - 1],
            spec,
            now,
        ).len()
    }
}

/// Where children get no events, a tree gives exactly one event: that of
/// its root.
pub proof fn law_unset_children_single_event(
    node: ReportModel,
    spec: EventSpecModel,
    now: SystemTime,
)
    requires
        spec.children is Unset,
    ensures
        project_model(node, spec, now) == seq![own_event(node, spec, now)],
        project_model(node, spec, now).len() == 1,
{
    assert(project_model(node, spec, now) =~= seq![own_event(node, spec, now)]);
}

/// A report without children gives exactly one event, whatever the
/// configuration says of children.
pub proof fn law_leaf_single_event(node: ReportModel, spec: EventSpecModel, now: SystemTime)
    requires
        node.children.len() == 0,
    ensures
        project_model(node, spec, now) == seq![own_event(node, spec, now)],
        project_model(node, spec, now).len() == 1,
{
    assert(project_model(node, spec, now) =~= seq![own_event(node, spec, now)]);
}

/// The events of the first `k` children are as many as the events of each
/// of their trees together.
pub proof fn lemma_children_count(
    node: ReportModel,
    k: int,
    spec: EventSpecModel,
    now: SystemTime,
)
    requires
        0 <= k <= node.children.len(),
    ensures
        project_children(node, k, spec, now).len() == child_event_count(node, k, spec, now),
    decreases k,
{
    if k > 0 {
        lemma_children_count(node, k - 1, spec, now);
    }
}

/// The event of the root comes first, and a tree has one event more than
/// the trees of its children together, each projected with the
/// configuration that holds for children.
pub proof fn law_root_first_then_children(
    node: ReportModel,
    spec: EventSpecModel,
    now: SystemTime,
)
    ensures
        project_model(node, spec, now)[0] == own_event(node, spec, now),
        match child_spec(spec) {
            None => project_model(node, spec, now).len() == 1,
            Some(below) => project_model(node, spec, now).len() == 1 + child_event_count(
                node,
                node.children.len() as int,
                below,
                now,
            ),
        },
{
    match child_spec(spec) {
        None => {},
        Some(below) => {
            lemma_children_count(node, node.children.len() as int, below, now);
        },
    }
}

/// With children treated like their parent, a tree has one event more than
/// the trees of its children together, each projected with the same
/// configuration, and the events of the children follow the root's in the
/// order of the children.
pub proof fn law_inferred_children(node: ReportModel, spec: EventSpecModel, now: SystemTime)
    requires
        spec.children is Inferred,
    ensures
        project_model(node, spec, now).len() == 1 + child_event_count(
            node,
            node.children.len() as int,
            spec,
            now,
        ),
        project_model(node, spec, now) == seq![own_event(node, spec, now)] + project_children(
            node,
            node.children.len() as int,
            spec,
            now,
        ),
{
    lemma_children_count(node, node.children.len() as int, spec, now);
}

/// The events of the tree of child `i` stand together, behind the root's
/// event and the events of the children before it.
pub proof fn law_child_block(node: ReportModel, spec: EventSpecModel, now: SystemTime, i: int)
    requires
        0 <= i < node.children.len(),
        child_spec(spec) is Some,
    ensures
        ({
            let below = child_spec(spec)->0;
            let start = (1 + child_event_count(node, i, below, now)) as int;
            let block = project_model(node.children[i], below, now);
            &&& start + block.len() <= project_model(node, spec, now).len()
            &&& project_model(node, spec, now).subrange(start, start + block.len()) == block
        }),
{
    let below = child_spec(spec)->0;
    let n = node.children.len() as int;
    lemma_children_prefix(node, i + 1, n, below, now);
    lemma_children_count(node, i, below, now);
    let start = (1 + child_event_count(node, i, below, now)) as int;
    let block = project_model(node.children[i], below, now);
    let all = project_children(node, n, below, now);
    assert(project_children(node, i + 1, below, now) == project_children(node, i, below, now)
        + block);
    let earlier = project_children(node, i, below, now);
    let upto = earlier + block;
    assert(all.take(upto.len() as int) == upto);
    let whole = project_model(node, spec, now);
    assert(whole == seq![own_event(node, spec, now)] + all);
    assert forall|j: int| 0 <= j < block.len() implies whole[start + j] == block[j] by {
        assert(whole[start + j] == all[earlier.len() + j]);
        assert(all.take(upto.len() as int)[earlier.len() + j] == all[earlier.len() + j]);
        assert(upto[earlier.len() + j] == block[j]);
    }
    assert(whole.subrange(start, start + block.len()) =~= block);
}

/// The events of the first `k` children open the events of the first `n`.
pub proof fn lemma_children_prefix(
    node: ReportModel,
    k: int,
    n: int,
    spec: EventSpecModel,
    now: SystemTime,
)
    requires
        0 <= k <= n <= node.children.len(),
    ensures
        project_children(node, k, spec, now).len() <= project_children(node, n, spec, now).len(),
        project_children(node, n, spec, now).take(
            project_children(node, k, spec, now).len() as int,
        ) == project_children(node, k, spec, now),
    decreases n - k,
{
    if k < n {
        lemma_children_prefix(node, k, n - 1, spec, now);
        assert(project_children(node, n, spec, now).take(
            project_children(node, k, spec, now).len() as int,
        ) =~= project_children(node, k, spec, now));
    } else {
        assert(project_children(node, n, spec, now).take(
            project_children(node, k, spec, now).len() as int,
        ) =~= project_children(node, k, spec, now));
    }
}

/// Appends to `out` the events for the tree of `node`.
fn project_into(
    node: &ReportNode,
    spec: &ExceptionEventSpec,
    now: SystemTime,
    out: &mut Vec<FinishedEvent>,
)
    ensures
        event_models(final(out)@) == event_models(old(out)@) + project_model(node@, spec@, now),
    decreases node,
{
    let digest = AttachmentDigest::from(&node.attachments);
    let this_event = compile(spec, node, &digest, now);
    let ghost start = event_models(out@);
    out.push(this_event);
    proof {
        assert(event_models(out@) =~= start + seq![own_event(node@, spec@, now)]);
        lemma_children(*node);
    }
    let below: &ExceptionEventSpec = match &spec.children {
        Children::Unset => {
            proof {
                assert(event_models(out@) =~= start + project_model(node@, spec@, now));
            }
            return ;
        },
        Children::Inferred => spec,
        Children::Explicit(child) => &**child,
    };
    assert(child_spec(spec@) == Some(below@));
    let mut i: usize = 0;
    proof {
        assert(event_models(out@) =~= start + seq![own_event(node@, spec@, now)]
            + project_children(node@, 0, below@, now));
    }
    while i < node.children.len()
        invariant
            i <= node.children.len(),
            node@.children.len() == node.children@.len(),
            forall|j: int|
                0 <= j < node.children@.len() ==> #[trigger] node@.children[j]
                    == node.children@[j]@,
            event_models(out@) == start + seq![own_event(node@, spec@, now)] + project_children(
                node@,
                i as int,
                below@,
                now,
            ),
        decreases node.children.len() - i,
    {
        let ghost before = event_models(out@);
        project_into(&node.children[i], below, now, out);
        proof {
            let block = project_model(node@.children[i as int], below@, now);
            assert(event_models(out@) == before + block);
            assert(project_children(node@, i + 1, below@, now) == project_children(
                node@,
                i as int,
                below@,
                now,
            ) + block);
            assert(event_models(out@) =~= start + seq![own_event(node@, spec@, now)]
                + project_children(node@, i + 1, below@, now));
        }
        i = i + 1;
    }
    proof {
        assert(event_models(out@) =~= start + project_model(node@, spec@, now));
    }
}

/// Makes the events for the tree of `node`, with `now` as the current time:
/// the event of the root, then the events of each child's tree in the order
/// of the children.
pub fn project_at(node: &ReportNode, spec: &ExceptionEventSpec, now: SystemTime) -> (r: Vec<
    FinishedEvent,
>)
    ensures
        event_models(r@) == project_model(node@, spec@, now),
{
    let mut out: Vec<FinishedEvent> = Vec::new();
    project_into(node, spec, now, &mut out);
    proof {
        assert(event_models(out@) =~= project_model(node@, spec@, now));
    }
    out
}

/// Makes the events for the tree of `node`. The clock is read once, and
/// every event whose time is not given by the configuration or by an
/// attachment has that time.
pub fn project(node: &ReportNode, spec: &ExceptionEventSpec) -> (r: Vec<FinishedEvent>)
    ensures
        exists|now: SystemTime| event_models(r@) == project_model(node@, spec@, now),
{
    let now = current_time();
    project_at(node, spec, now)
}

} // verus!
