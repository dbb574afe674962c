//! What holds of the operations over any inputs and over several requests.

use vstd::prelude::*;
use crate::domain::{InstanceStatus, StepDefinition, WorkflowDefinition, WorkflowInstanceView};
use crate::engine::{
    Engine, advance_outcome, advanced_instance, completed_entry, has_pending_request,
    is_approval_step,
};
use crate::keyed::first_with_key;
use crate::store::{
    StoreView, WorkflowError, all_approved, all_decided, case_note_outcome, case_update_outcome,
    decision_outcome, first_transition, has_decided, lemma_first_transition, task_update_outcome,
    transition_outcome,
};
use crate::store::{DecisionReply, NoteReply, TransitionReply, UpdateReply};
use crate::store::started_instance;
use crate::types::{ApprovalDecisionView, WorkflowDefView};

verus! {

/// Every instance whose history is not empty stands in the state that its
/// last recorded change led to.
pub open spec fn history_matches_state(s: StoreView) -> bool {
    forall|k: Seq<char>|
        #[trigger] s.instances.contains_key(k) && s.instances[k].history.len() > 0
            ==> s.instances[k].history.last().to == s.instances[k].current_state
}

/// Advancing an instance past a step records that step, and only that, at
/// the end of its history; the instance is then completed exactly when the
/// step has no successor, waits for approval exactly when the successor is
/// an approval step, and runs otherwise. Nothing else about it changes.
pub proof fn advance_law(
    inst: WorkflowInstanceView,
    def: WorkflowDefinition,
    current: StepDefinition,
    completed_at: Seq<char>,
)
    ensures
        ({
            let n = advanced_instance(inst, def, current, completed_at);
            &&& n.history.len() == inst.history.len() + 1
            &&& n.history.drop_last() == inst.history
            &&& n.history.last() == completed_entry(current, completed_at)
            &&& (n.status == InstanceStatus::Completed <==> current.next is None)
            &&& (n.status == InstanceStatus::WaitingApproval <==> (current.next matches Some(x)
                && is_approval_step(def, x@)))
            &&& (n.status == InstanceStatus::Running <==> (current.next matches Some(x)
                && !is_approval_step(def, x@)))
            &&& (current.next matches Some(x) ==> n.current_step == x@)
            &&& (current.next is None ==> n.current_step == inst.current_step)
            &&& n.id == inst.id && n.workflow_id == inst.workflow_id && n.workflow_name
                == inst.workflow_name && n.context == inst.context && n.started_at == inst.started_at
        }),
{
    let n = advanced_instance(inst, def, current, completed_at);
    assert(n.history.drop_last() =~= inst.history);
}

/// An instance whose current step has a pending approval request does not
/// move: advancing it leaves the engine as it was, neither moving the
/// instance on nor recording the step as completed.
pub proof fn pending_approval_holds_instance(
    e: Engine,
    e2: Engine,
    instance_id: Seq<char>,
    completed_at: Seq<char>,
    msg: Seq<char>,
)
    requires
        advance_outcome(e, e2, instance_id, completed_at, msg),
        first_with_key(e.instances@, instance_id) matches Some(i) && has_pending_request(
            e.approvals@,
            e.instances@[i].id@,
            e.instances@[i].current_step@,
        ),
    ensures
        e2 == e,
{
}

/// Instance `k`, if `s` holds it, is still there in `s2` and unchanged.
pub open spec fn keeps_instance(s: StoreView, s2: StoreView, k: Seq<char>) -> bool {
    s.instances.contains_key(k) ==> s2.instances.contains_key(k) && s2.instances[k]
        == s.instances[k]
}

/// Over any run of requests each of which keeps instance `k`, the instance
/// reads back at the end as it was at the start.
pub proof fn instance_kept_across_requests(states: Seq<StoreView>, k: Seq<char>)
    requires
        states.len() > 0,
        forall|i: int|
            0 <= i < states.len() - 1 ==> keeps_instance(#[trigger] states[i], states[i + 1], k),
    ensures
        keeps_instance(states[0], states.last(), k),
    decreases states.len(),
{
    if states.len() > 1 {
        let front = states.drop_last();
        assert forall|i: int| 0 <= i < front.len() - 1 implies keeps_instance(
            #[trigger] front[i],
            front[i + 1],
            k,
        ) by {
            assert(front[i] == states[i] && front[i + 1] == states[i + 1]);
        }
        instance_kept_across_requests(front, k);
        assert(keeps_instance(states[states.len() - 2], states[states.len() - 1], k));
    }
}

/// A request that leaves the instances as they were keeps every instance:
/// so do defining a workflow, creating or updating a task, creating or
/// deciding an approval, and creating, noting or updating a case.
pub proof fn unchanged_instances_keep_instance(s: StoreView, s2: StoreView, k: Seq<char>)
    requires
        s2.instances == s.instances,
    ensures
        keeps_instance(s, s2, k),
{
}

/// A transition request on another instance keeps instance `k`.
pub proof fn transition_keeps_other_instances(
    s: StoreView,
    s2: StoreView,
    instance_id: Seq<char>,
    action: Seq<char>,
    actor: Seq<char>,
    comment: Option<Seq<char>>,
    updated_at: Seq<char>,
    timestamp: Seq<char>,
    r: Result<TransitionReply, WorkflowError>,
    k: Seq<char>,
)
    requires
        transition_outcome(s, s2, instance_id, action, actor, comment, updated_at, timestamp, r),
        k != instance_id,
    ensures
        keeps_instance(s, s2, k),
{
}

/// Starting an instance under another id keeps instance `k`.
pub proof fn start_keeps_other_instances(
    s: StoreView,
    k: Seq<char>,
    id: Seq<char>,
    started: crate::types::WorkflowInstanceView,
)
    requires
        k != id,
    ensures
        keeps_instance(s, StoreView { instances: s.instances.insert(id, started), ..s }, k),
{
}

/// A started instance stands in its workflow's initial state with an empty
/// history, so adding it keeps every instance standing where its history
/// last led.
pub proof fn start_law(
    s: StoreView,
    w: WorkflowDefView,
    id: Seq<char>,
    workflow_id: Seq<char>,
    entity_type: Seq<char>,
    entity_id: Seq<char>,
    metadata: Seq<char>,
    created_at: Seq<char>,
    updated_at: Seq<char>,
)
    ensures
        ({
            let i = started_instance(
                w,
                id,
                workflow_id,
                entity_type,
                entity_id,
                metadata,
                created_at,
                updated_at,
            );
            &&& i.current_state == w.initial_state
            &&& i.history.len() == 0
            &&& history_matches_state(s) ==> history_matches_state(
                StoreView { instances: s.instances.insert(id, i), ..s },
            )
        }),
{
}

/// A refused transition request changes nothing. An accepted one changes
/// only the requested instance: it appends exactly one change to its
/// history, leaving from the old state by the requested action along a
/// transition of its workflow, and the instance now stands where that
/// transition leads. An instance in a terminal state of its workflow never
/// moves. Either way, instances keep standing in the state their history last
/// led to.
pub proof fn transition_law(
    s: StoreView,
    s2: StoreView,
    instance_id: Seq<char>,
    action: Seq<char>,
    actor: Seq<char>,
    comment: Option<Seq<char>>,
    updated_at: Seq<char>,
    timestamp: Seq<char>,
    r: Result<TransitionReply, WorkflowError>,
)
    requires
        transition_outcome(s, s2, instance_id, action, actor, comment, updated_at, timestamp, r),
    ensures
        r is Err ==> s2 == s,
        s.instances.contains_key(instance_id) && s.workflows.contains_key(
            s.instances[instance_id].workflow_id,
        ) && s.workflows[s.instances[instance_id].workflow_id].terminal_states.contains(
            s.instances[instance_id].current_state,
        ) ==> r is Err && s2 == s,
        r is Ok ==> {
            let before = s.instances[instance_id];
            let after = s2.instances[instance_id];
            let ts = s.workflows[before.workflow_id].transitions;
            &&& s.instances.contains_key(instance_id)
            &&& s2.instances == s.instances.insert(instance_id, after)
            &&& s2.workflows == s.workflows && s2.tasks == s.tasks && s2.approvals == s.approvals
                && s2.cases == s.cases
            &&& after.history.len() == before.history.len() + 1
            &&& after.history.drop_last() == before.history
            &&& after.history.last().from == before.current_state
            &&& after.history.last().action == action
            &&& after.history.last().to == after.current_state
            &&& !s.workflows[before.workflow_id].terminal_states.contains(before.current_state)
            &&& exists|j: int|
                0 <= j < ts.len() && #[trigger] ts[j].from == before.current_state && ts[j].action
                    == action && ts[j].to == after.current_state
        },
        history_matches_state(s) ==> history_matches_state(s2),
{
    if s.instances.contains_key(instance_id) && s.workflows.contains_key(
        s.instances[instance_id].workflow_id,
    ) && !s.workflows[s.instances[instance_id].workflow_id].terminal_states.contains(
        s.instances[instance_id].current_state,
    ) {
        let before = s.instances[instance_id];
        let ts = s.workflows[before.workflow_id].transitions;
        lemma_first_transition(ts, before.current_state, action);
        if let Some(j) = first_transition(ts, before.current_state, action) {
            let after = s2.instances[instance_id];
            assert(after.history.drop_last() =~= before.history);
            assert(ts[j].from == before.current_state);
        }
    }
    if history_matches_state(s) {
        assert forall|k: Seq<char>|
            #[trigger] s2.instances.contains_key(k) && s2.instances[k].history.len() > 0 implies s2.instances[k].history.last().to
            == s2.instances[k].current_state by {
            if k != instance_id {
                assert(s.instances.contains_key(k));
            }
        }
    }
}

/// A refused decision changes nothing, and an approval that is no longer
/// pending refuses every decision. A recorded decision comes from one of the
/// approval's approvers while it was pending, and appends exactly one
/// decision. Afterwards the approval is approved exactly when every approver
/// has decided and all decisions approve, rejected exactly when every
/// approver has decided and some decision does not approve, and still pending
/// while some approver has not decided.
pub proof fn decision_law(
    s: StoreView,
    s2: StoreView,
    approval_id: Seq<char>,
    approver: Seq<char>,
    decision: Seq<char>,
    comment: Option<Seq<char>>,
    timestamp: Seq<char>,
    r: Result<DecisionReply, WorkflowError>,
)
    requires
        decision_outcome(s, s2, approval_id, approver, decision, comment, timestamp, r),
    ensures
        r is Err ==> s2 == s,
        s.approvals.contains_key(approval_id) && s.approvals[approval_id].status != "pending"@
            ==> r is Err && s2 == s,
        r is Ok ==> {
            let a = s.approvals[approval_id];
            let a2 = s2.approvals[approval_id];
            &&& s.approvals.contains_key(approval_id)
            &&& a.status == "pending"@
            &&& a.approvers.contains(approver)
            &&& s2.approvals == s.approvals.insert(approval_id, a2)
            &&& s2.workflows == s.workflows && s2.instances == s.instances && s2.tasks == s.tasks
                && s2.cases == s.cases
            &&& a2.approvers == a.approvers
            &&& a2.decisions == a.decisions.push(
                ApprovalDecisionView {
                    approver: approver,
                    decision: decision,
                    comment: comment,
                    timestamp: timestamp,
                },
            )
            &&& (a2.status == "approved"@ <==> all_decided(a2.approvers, a2.decisions)
                && all_approved(a2.decisions))
            &&& (a2.status == "rejected"@ <==> all_decided(a2.approvers, a2.decisions)
                && !all_approved(a2.decisions))
            &&& (a2.status == "pending"@ <==> !all_decided(a2.approvers, a2.decisions))
            &&& (a2.status != "pending"@ ==> forall|i: int|
                0 <= i < a2.approvers.len() ==> has_decided(a2.decisions, #[trigger] a2.approvers[i]))
        },
{
    reveal_strlit("approved");
    reveal_strlit("rejected");
    reveal_strlit("pending");
    assert("approved"@ != "rejected"@) by {
        assert("approved"@[0] != "rejected"@[0]);
    }
    assert("approved"@ != "pending"@) by {
        assert("approved"@[0] != "pending"@[0]);
    }
    assert("rejected"@ != "pending"@) by {
        assert("rejected"@[0] != "pending"@[0]);
    }
}

/// Once a decision settles an approval, every later decision on it is
/// refused with its settled status, and changes nothing.
pub proof fn settled_approval_is_final(
    s0: StoreView,
    s1: StoreView,
    s2: StoreView,
    approval_id: Seq<char>,
    approver1: Seq<char>,
    decision1: Seq<char>,
    comment1: Option<Seq<char>>,
    timestamp1: Seq<char>,
    r1: Result<DecisionReply, WorkflowError>,
    approver2: Seq<char>,
    decision2: Seq<char>,
    comment2: Option<Seq<char>>,
    timestamp2: Seq<char>,
    r2: Result<DecisionReply, WorkflowError>,
)
    requires
        decision_outcome(s0, s1, approval_id, approver1, decision1, comment1, timestamp1, r1),
        r1 matches Ok(rep) && rep.status@ != "pending"@,
        decision_outcome(s1, s2, approval_id, approver2, decision2, comment2, timestamp2, r2),
    ensures
        r2 matches Err(WorkflowError::ApprovalNotPending { status }) && status@ == s1.approvals[approval_id].status,
        s2 == s1,
{
}

/// Updating a task touches only that task.
pub proof fn task_update_law(
    s: StoreView,
    s2: StoreView,
    task_id: Seq<char>,
    status: Option<Seq<char>>,
    assignee: Option<Seq<char>>,
    priority: Option<Seq<char>>,
    updated_at: Seq<char>,
    r: Result<UpdateReply, WorkflowError>,
)
    requires
        task_update_outcome(s, s2, task_id, status, assignee, priority, updated_at, r),
    ensures
        r is Err ==> s2 == s,
        s2.tasks.dom() == s.tasks.dom(),
        forall|k: Seq<char>| #[trigger] s.tasks.contains_key(k) && k != task_id ==> s2.tasks[k] == s.tasks[k],
        s2.workflows == s.workflows && s2.instances == s.instances && s2.approvals == s.approvals
            && s2.cases == s.cases,
{
    if s.tasks.contains_key(task_id) {
        assert(s2.tasks.dom() =~= s.tasks.dom());
    }
}

/// Adding a note to a case touches only that case, and appends exactly the
/// note to its notes.
pub proof fn case_note_law(
    s: StoreView,
    s2: StoreView,
    case_id: Seq<char>,
    author: Seq<char>,
    text: Seq<char>,
    timestamp: Seq<char>,
    updated_at: Seq<char>,
    r: Result<NoteReply, WorkflowError>,
)
    requires
        case_note_outcome(s, s2, case_id, author, text, timestamp, updated_at, r),
    ensures
        r is Err ==> s2 == s,
        r is Ok ==> s2.cases[case_id].notes.drop_last() == s.cases[case_id].notes
            && s2.cases[case_id].notes.last().text == text,
        s2.cases.dom() == s.cases.dom(),
        forall|k: Seq<char>| #[trigger] s.cases.contains_key(k) && k != case_id ==> s2.cases[k] == s.cases[k],
        s2.workflows == s.workflows && s2.instances == s.instances && s2.tasks == s.tasks
            && s2.approvals == s.approvals,
{
    if s.cases.contains_key(case_id) {
        assert(s2.cases.dom() =~= s.cases.dom());
        assert(s2.cases[case_id].notes.drop_last() =~= s.cases[case_id].notes);
    }
}

/// Updating a case touches only that case.
pub proof fn case_update_law(
    s: StoreView,
    s2: StoreView,
    case_id: Seq<char>,
    status: Option<Seq<char>>,
    assignee: Option<Seq<char>>,
    priority: Option<Seq<char>>,
    updated_at: Seq<char>,
    r: Result<UpdateReply, WorkflowError>,
)
    requires
        case_update_outcome(s, s2, case_id, status, assignee, priority, updated_at, r),
    ensures
        r is Err ==> s2 == s,
        s2.cases.dom() == s.cases.dom(),
        forall|k: Seq<char>| #[trigger] s.cases.contains_key(k) && k != case_id ==> s2.cases[k] == s.cases[k],
        s2.workflows == s.workflows && s2.instances == s.instances && s2.tasks == s.tasks
            && s2.approvals == s.approvals,
{
    if s.cases.contains_key(case_id) {
        assert(s2.cases.dom() =~= s.cases.dom());
    }
}

} // verus!
