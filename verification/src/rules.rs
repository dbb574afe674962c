//! What each operation must achieve, stated directly over its inputs and
//! results: every law here speaks of the records and replies themselves,
//! not of the spec functions that describe how the operations work.

use vstd::prelude::*;
use crate::store::{
    StoreView, WorkflowError, case_note_outcome, case_update_outcome, decision_outcome,
    first_transition, lemma_first_transition, pending_only, started_instance, task_update_outcome,
    transition_outcome,
};
use crate::store::{DecisionReply, NoteReply, TransitionReply, UpdateReply};
use crate::server::{text_or, texts_or_empty};
use crate::types::{
    ApprovalDecisionView, ApprovalView, CaseNoteView, StateChangeView, TransitionView,
    WorkflowDefView,
};
use crate::domain::{InstanceStatus, StepExecutionView, StepType};
use crate::engine::{Engine, advance_outcome};
use crate::keyed::first_with_key;
use crate::server::{TransitionFieldsView, parse_transition, parse_transitions, present_texts};

verus! {

/// `xs` lists `x`.
pub open spec fn lists(xs: Seq<Seq<char>>, x: Seq<char>) -> bool {
    exists|i: int| 0 <= i < xs.len() && #[trigger] xs[i] == x
}

/// An accepted transition request moves the instance along the first
/// transition of its workflow that leaves its old state by the requested
/// action, from a state that is not terminal; the reply names the old state,
/// the new state and the action, and says the new state is terminal exactly
/// when the workflow lists it among its terminal states. One change, made by
/// the requested actor at the given time, is appended to the history, and
/// nothing else in the store changes.
pub proof fn accepted_transition_law(
    s: StoreView,
    s2: StoreView,
    instance_id: Seq<char>,
    action: Seq<char>,
    actor: Seq<char>,
    comment: Option<Seq<char>>,
    updated_at: Seq<char>,
    timestamp: Seq<char>,
    r: Result<TransitionReply, WorkflowError>,
)
    requires
        transition_outcome(s, s2, instance_id, action, actor, comment, updated_at, timestamp, r),
        r is Ok,
    ensures
        s.instances.contains_key(instance_id),
        s.workflows.contains_key(s.instances[instance_id].workflow_id),
        ({
            let before = s.instances[instance_id];
            let after = s2.instances[instance_id];
            let w = s.workflows[before.workflow_id];
            let rep = r->Ok_0;
            &&& exists|j: int|
                #![trigger w.transitions[j]]
                0 <= j < w.transitions.len() && w.transitions[j].from == before.current_state
                    && w.transitions[j].action == action && w.transitions[j].to
                    == after.current_state && forall|m: int|
                    #![trigger w.transitions[m]]
                    0 <= m < j ==> !(w.transitions[m].from == before.current_state
                        && w.transitions[m].action == action)
            &&& !lists(w.terminal_states, before.current_state)
            &&& rep.from@ == before.current_state
            &&& rep.to@ == after.current_state
            &&& rep.action@ == action
            &&& rep.is_terminal <==> lists(w.terminal_states, after.current_state)
            &&& after.history == before.history.push(
                StateChangeView {
                    from: before.current_state,
                    to: after.current_state,
                    action: action,
                    actor: actor,
                    timestamp: timestamp,
                    comment: comment,
                },
            )
            &&& after.updated_at == updated_at
            &&& after.id == before.id && after.workflow_id == before.workflow_id
                && after.entity_type == before.entity_type && after.entity_id == before.entity_id
                && after.metadata == before.metadata && after.created_at == before.created_at
            &&& s2 == (StoreView { instances: s.instances.insert(instance_id, after), ..s })
        }),
{
    let before = s.instances[instance_id];
    let w = s.workflows[before.workflow_id];
    lemma_first_transition(w.transitions, before.current_state, action);
    let j = first_transition(w.transitions, before.current_state, action)->0;
    assert(w.transitions[j].from == before.current_state);
    if lists(w.terminal_states, before.current_state) {
        let i = choose|i: int| 0 <= i < w.terminal_states.len() && #[trigger] w.terminal_states[i]
            == before.current_state;
        assert(w.terminal_states.contains(before.current_state));
    }
    let to = w.transitions[j].to;
    if lists(w.terminal_states, to) {
        let i = choose|i: int| 0 <= i < w.terminal_states.len() && #[trigger] w.terminal_states[i] == to;
        assert(w.terminal_states.contains(to));
    }
    if w.terminal_states.contains(to) {
        let i = choose|i: int| 0 <= i < w.terminal_states.len() && w.terminal_states[i] == to;
        assert(w.terminal_states[i] == to);
    }
}

/// A refused transition request changes nothing. It is refused as invalid
/// exactly when no transition of the workflow leaves the instance's state by
/// the requested action; the refusal then names that state and action and
/// lists, in order, the actions of the transitions that do leave it. It is
/// refused as ended when such a transition exists but the state is one of
/// the workflow's terminal states.
pub proof fn refused_transition_law(
    s: StoreView,
    s2: StoreView,
    instance_id: Seq<char>,
    action: Seq<char>,
    actor: Seq<char>,
    comment: Option<Seq<char>>,
    updated_at: Seq<char>,
    timestamp: Seq<char>,
    r: Result<TransitionReply, WorkflowError>,
)
    requires
        transition_outcome(s, s2, instance_id, action, actor, comment, updated_at, timestamp, r),
        r is Err,
    ensures
        s2 == s,
        (r matches Err(WorkflowError::InstanceNotFound)) <==> !s.instances.contains_key(instance_id),
        s.instances.contains_key(instance_id) && s.workflows.contains_key(
            s.instances[instance_id].workflow_id,
        ) ==> {
            let cur = s.instances[instance_id].current_state;
            let ts = s.workflows[s.instances[instance_id].workflow_id].transitions;
            let moves = exists|j: int|
                #![trigger ts[j]]
                0 <= j < ts.len() && ts[j].from == cur && ts[j].action == action;
            &&& (r matches Err(WorkflowError::InvalidTransition { .. })) <==> !moves
            &&& r matches Err(
                WorkflowError::InvalidTransition { current_state, attempted_action, valid_actions },
            ) ==> current_state@ == cur && attempted_action@ == action && valid_actions.deep_view()
                == ts.filter_map(
                |t: TransitionView|
                    if t.from == cur {
                        Some(t.action)
                    } else {
                        None
                    },
            )
            &&& (r matches Err(WorkflowError::WorkflowEnded { current_state })) ==> moves && lists(
                s.workflows[s.instances[instance_id].workflow_id].terminal_states,
                cur,
            )
        },
{
    if s.instances.contains_key(instance_id) && s.workflows.contains_key(
        s.instances[instance_id].workflow_id,
    ) {
        let cur = s.instances[instance_id].current_state;
        let w = s.workflows[s.instances[instance_id].workflow_id];
        let ts = w.transitions;
        lemma_first_transition(ts, cur, action);
        lemma_actions_are_filtered(ts, cur);
        if let Some(j) = first_transition(ts, cur, action) {
            assert(ts[j].from == cur);
            if w.terminal_states.contains(cur) {
                let i = choose|i: int| 0 <= i < w.terminal_states.len() && w.terminal_states[i] == cur;
                assert(w.terminal_states[i] == cur);
            }
        }
    }
}

/// The actions of the transitions that leave `from`, in order, are those of
/// the transitions whose source is `from`.
pub proof fn lemma_actions_are_filtered(ts: Seq<TransitionView>, from: Seq<char>)
    ensures
        crate::store::actions_from(ts, from) == ts.filter_map(
            |t: TransitionView|
                if t.from == from {
                    Some(t.action)
                } else {
                    None
                },
        ),
    decreases ts.len(),
{
    if ts.len() > 0 {
        lemma_actions_are_filtered(ts.drop_last(), from);
    }
}

/// Every approver of `approvers` has a decision in `ds`.
pub open spec fn everyone_decided(approvers: Seq<Seq<char>>, ds: Seq<ApprovalDecisionView>) -> bool {
    forall|i: int|
        #![trigger approvers[i]]
        0 <= i < approvers.len() ==> exists|j: int|
            #![trigger ds[j]]
            0 <= j < ds.len() && ds[j].approver == approvers[i]
}

/// A recorded decision is appended as given to a pending approval by one of
/// its approvers, and nothing else in the store changes. The approval is
/// then approved exactly when every approver has a decision and every
/// decision approves; rejected exactly when every approver has a decision
/// and some decision does not approve; and pending while some approver has
/// none. The reply gives the new status and the counts.
pub proof fn accepted_decision_law(
    s: StoreView,
    s2: StoreView,
    approval_id: Seq<char>,
    approver: Seq<char>,
    decision: Seq<char>,
    comment: Option<Seq<char>>,
    timestamp: Seq<char>,
    r: Result<DecisionReply, WorkflowError>,
)
    requires
        decision_outcome(s, s2, approval_id, approver, decision, comment, timestamp, r),
        r is Ok,
    ensures
        s.approvals.contains_key(approval_id),
        ({
            let a = s.approvals[approval_id];
            let a2 = s2.approvals[approval_id];
            let rep = r->Ok_0;
            let everyone = everyone_decided(a2.approvers, a2.decisions);
            &&& a.status == "pending"@
            &&& lists(a.approvers, approver)
            &&& a2.decisions == a.decisions.push(
                ApprovalDecisionView {
                    approver: approver,
                    decision: decision,
                    comment: comment,
                    timestamp: timestamp,
                },
            )
            &&& a2.approvers == a.approvers && a2.id == a.id && a2.title == a.title
                && a2.description == a.description && a2.requester == a.requester && a2.entity_type
                == a.entity_type && a2.entity_id == a.entity_id && a2.due_date == a.due_date
                && a2.metadata == a.metadata && a2.created_at == a.created_at
            &&& (a2.status == "approved"@ <==> everyone && forall|j: int|
                #![trigger a2.decisions[j]]
                0 <= j < a2.decisions.len() ==> a2.decisions[j].decision == "approved"@)
            &&& (a2.status == "rejected"@ <==> everyone && exists|j: int|
                #![trigger a2.decisions[j]]
                0 <= j < a2.decisions.len() && a2.decisions[j].decision != "approved"@)
            &&& (a2.status == "pending"@ <==> !everyone)
            &&& rep.status@ == a2.status
            &&& rep.approval_id@ == approval_id
            &&& rep.decisions == a2.decisions.len()
            &&& rep.total_approvers == a2.approvers.len()
            &&& s2 == (StoreView { approvals: s.approvals.insert(approval_id, a2), ..s })
        }),
{
    reveal_strlit("approved");
    reveal_strlit("rejected");
    reveal_strlit("pending");
    assert("approved"@ != "rejected"@) by {
        assert("approved"@[0] != "rejected"@[0]);
    }
    assert("approved"@ != "pending"@) by {
        assert("approved"@[0] != "pending"@[0]);
    }
    assert("rejected"@ != "pending"@) by {
        assert("rejected"@[0] != "pending"@[0]);
    }
    let a = s.approvals[approval_id];
    let a2 = s2.approvals[approval_id];
    assert(a.approvers.contains(approver));
    let i = choose|i: int| 0 <= i < a.approvers.len() && a.approvers[i] == approver;
    assert(a.approvers[i] == approver);
    assert(crate::store::all_decided(a2.approvers, a2.decisions) == everyone_decided(
        a2.approvers,
        a2.decisions,
    )) by {
        if crate::store::all_decided(a2.approvers, a2.decisions) {
            assert forall|i: int| 0 <= i < a2.approvers.len() implies exists|j: int|
                #![trigger a2.decisions[j]]
                0 <= j < a2.decisions.len() && a2.decisions[j].approver == #[trigger] a2.approvers[i] by {
                assert(crate::store::has_decided(a2.decisions, a2.approvers[i]));
            }
        }
        if everyone_decided(a2.approvers, a2.decisions) {
            assert forall|i: int| 0 <= i < a2.approvers.len() implies crate::store::has_decided(
                a2.decisions,
                #[trigger] a2.approvers[i],
            ) by {
                let j = choose|j: int| 0 <= j < a2.decisions.len() && a2.decisions[j].approver == a2.approvers[i];
                assert(a2.decisions[j].approver == a2.approvers[i]);
            }
        }
    }
    if !crate::store::all_approved(a2.decisions) {
        let j = choose|j: int| 0 <= j < a2.decisions.len() && !(a2.decisions[j].decision == "approved"@);
        assert(a2.decisions[j].decision != "approved"@);
    }
}

/// An accepted task update gives each field named in the request the value
/// it names, whatever the other fields, keeps each field it does not name,
/// and stamps the task; the reply names the task and its status. Nothing
/// else in the store changes.
pub proof fn accepted_task_update_law(
    s: StoreView,
    s2: StoreView,
    task_id: Seq<char>,
    status: Option<Seq<char>>,
    assignee: Option<Seq<char>>,
    priority: Option<Seq<char>>,
    updated_at: Seq<char>,
    r: Result<UpdateReply, WorkflowError>,
)
    requires
        task_update_outcome(s, s2, task_id, status, assignee, priority, updated_at, r),
        r is Ok,
    ensures
        s.tasks.contains_key(task_id),
        ({
            let t = s.tasks[task_id];
            let t2 = s2.tasks[task_id];
            &&& status matches Some(v) ==> t2.status == v
            &&& status is None ==> t2.status == t.status
            &&& assignee matches Some(v) ==> t2.assignee == Some(v)
            &&& assignee is None ==> t2.assignee == t.assignee
            &&& priority matches Some(v) ==> t2.priority == v
            &&& priority is None ==> t2.priority == t.priority
            &&& t2.updated_at == updated_at
            &&& t2.id == t.id && t2.title == t.title && t2.description == t.description
                && t2.reporter == t.reporter && t2.due_date == t.due_date && t2.tags == t.tags
                && t2.workflow_instance_id == t.workflow_instance_id && t2.parent_task_id
                == t.parent_task_id && t2.metadata == t.metadata && t2.created_at == t.created_at
            &&& r->Ok_0.id@ == task_id && r->Ok_0.current_status@ == t2.status
            &&& s2 == (StoreView { tasks: s.tasks.insert(task_id, t2), ..s })
        }),
{
}

/// An accepted case update gives each field named in the request the value
/// it names, whatever the other fields, keeps each field it does not name,
/// and stamps the case; the reply names the case and its status. Nothing
/// else in the store changes.
pub proof fn accepted_case_update_law(
    s: StoreView,
    s2: StoreView,
    case_id: Seq<char>,
    status: Option<Seq<char>>,
    assignee: Option<Seq<char>>,
    priority: Option<Seq<char>>,
    updated_at: Seq<char>,
    r: Result<UpdateReply, WorkflowError>,
)
    requires
        case_update_outcome(s, s2, case_id, status, assignee, priority, updated_at, r),
        r is Ok,
    ensures
        s.cases.contains_key(case_id),
        ({
            let c = s.cases[case_id];
            let c2 = s2.cases[case_id];
            &&& status matches Some(v) ==> c2.status == v
            &&& status is None ==> c2.status == c.status
            &&& assignee matches Some(v) ==> c2.assignee == Some(v)
            &&& assignee is None ==> c2.assignee == c.assignee
            &&& priority matches Some(v) ==> c2.priority == v
            &&& priority is None ==> c2.priority == c.priority
            &&& c2.updated_at == updated_at
            &&& c2.id == c.id && c2.title == c.title && c2.description == c.description
                && c2.case_type == c.case_type && c2.reporter == c.reporter && c2.tags == c.tags
                && c2.notes == c.notes && c2.metadata == c.metadata && c2.created_at == c.created_at
            &&& r->Ok_0.id@ == case_id && r->Ok_0.current_status@ == c2.status
            &&& s2 == (StoreView { cases: s.cases.insert(case_id, c2), ..s })
        }),
{
}

/// Advancing an instance whose current step has an approval request with
/// status exactly "pending" changes nothing.
pub proof fn held_advance_law(
    e: Engine,
    e2: Engine,
    instance_id: Seq<char>,
    completed_at: Seq<char>,
    msg: Seq<char>,
)
    requires
        advance_outcome(e, e2, instance_id, completed_at, msg),
        first_with_key(e.instances@, instance_id) matches Some(i) && exists|j: int|
            #![trigger e.approvals@[j]]
            0 <= j < e.approvals@.len() && e.approvals@[j].instance_id@ == e.instances@[i].id@
                && e.approvals@[j].step_id@ == e.instances@[i].current_step@
                && e.approvals@[j].status@ == "pending"@,
    ensures
        e2 == e,
{
}

/// Advancing an instance whose definition and current step exist, and for
/// whose current step no approval request has status exactly "pending",
/// records that step as completed at the given time and moves the instance
/// on: to the step's successor, waiting for approval when the successor is
/// an approval step and running otherwise, or, with no successor, completes
/// it where it stands. The message says which; no other record changes.
pub proof fn moving_advance_law(
    e: Engine,
    e2: Engine,
    instance_id: Seq<char>,
    completed_at: Seq<char>,
    msg: Seq<char>,
)
    requires
        advance_outcome(e, e2, instance_id, completed_at, msg),
        first_with_key(e.instances@, instance_id) matches Some(i) && first_with_key(
            e.definitions@,
            e.instances@[i].workflow_id@,
        ) matches Some(d) && first_with_key(e.definitions@[d].steps@, e.instances@[i].current_step@)
            is Some && forall|j: int|
            #![trigger e.approvals@[j]]
            0 <= j < e.approvals@.len() && e.approvals@[j].instance_id@ == e.instances@[i].id@
                && e.approvals@[j].step_id@ == e.instances@[i].current_step@
                ==> e.approvals@[j].status@ != "pending"@,
    ensures
        ({
            let i = first_with_key(e.instances@, instance_id)->0;
            let def = e.definitions@[first_with_key(e.definitions@, e.instances@[i].workflow_id@)->0];
            let cur = def.steps@[first_with_key(def.steps@, e.instances@[i].current_step@)->0];
            let before = e.instances@[i]@;
            let after = e2.instances@[i]@;
            &&& after.history == before.history.push(
                StepExecutionView {
                    step_id: cur.id@,
                    step_name: cur.name@,
                    status: "completed"@,
                    completed_at: completed_at,
                    result: None,
                },
            )
            &&& match cur.next {
                None => after.status == InstanceStatus::Completed && after.current_step
                    == before.current_step && msg == "Workflow completed"@,
                Some(n) => {
                    let found = first_with_key(def.steps@, n@);
                    &&& after.current_step == n@
                    &&& if found matches Some(x) && def.steps@[x].step_type == StepType::Approval {
                        after.status == InstanceStatus::WaitingApproval && msg == "Advanced to '"@
                            + def.steps@[found->0].name@ + "' \u{2014} waiting for approval"@
                    } else {
                        after.status == InstanceStatus::Running && msg == "Advanced to step '"@ + n@
                            + "'"@
                    }
                },
            }
            &&& after.id == before.id && after.workflow_id == before.workflow_id
                && after.workflow_name == before.workflow_name && after.context == before.context
                && after.started_at == before.started_at
            &&& e2.instances@.len() == e.instances@.len()
            &&& forall|k: int|
                0 <= k < e.instances@.len() && k != i ==> #[trigger] e2.instances@[k]
                    == e.instances@[k]
            &&& e2.definitions == e.definitions
            &&& e2.approvals == e.approvals
        }),
{
    let i = first_with_key(e.instances@, instance_id)->0;
    if crate::engine::has_pending_request(e.approvals@, e.instances@[i].id@, e.instances@[i].current_step@) {
        let j = choose|j: int|
            #![trigger e.approvals@[j]]
            0 <= j < e.approvals@.len() && e.approvals@[j].instance_id@ == e.instances@[i].id@
                && e.approvals@[j].step_id@ == e.instances@[i].current_step@
                && e.approvals@[j].status@ == "pending"@;
        assert(e.approvals@[j].status@ != "pending"@);
    }
}

/// The transition that a description gives when it names a source, a target
/// and an action: approval is required exactly when the description says
/// `true`, and the roles are the entries of the list given that are strings.
pub open spec fn described_transition(f: TransitionFieldsView) -> Option<TransitionView> {
    if f.from is Some && f.to is Some && f.action is Some {
        Some(
            TransitionView {
                from: f.from->0,
                to: f.to->0,
                action: f.action->0,
                requires_approval: f.requires_approval == Some(true),
                allowed_roles: if f.allowed_roles is Some {
                    f.allowed_roles->0.filter_map(|o: Option<Seq<char>>| o)
                } else {
                    Seq::empty()
                },
            },
        )
    } else {
        None
    }
}

/// The string entries of a role list are kept, in order.
pub proof fn lemma_roles_are_filtered(rs: Seq<Option<Seq<char>>>)
    ensures
        present_texts(rs) == rs.filter_map(|o: Option<Seq<char>>| o),
    decreases rs.len(),
{
    if rs.len() > 0 {
        lemma_roles_are_filtered(rs.drop_last());
    }
}

/// A description is read as the transition it describes: it is kept exactly
/// when it names a source, a target and an action; approval is required
/// exactly when it says `true` (and not when it says `false` or nothing);
/// its roles are its string entries, in order.
pub proof fn transition_description_law(f: TransitionFieldsView)
    ensures
        parse_transition(f) == described_transition(f),
        parse_transition(f) is Some <==> (f.from is Some && f.to is Some && f.action is Some),
        parse_transition(f) matches Some(t) ==> (t.requires_approval <==> f.requires_approval
            == Some(true)),
{
    if let Some(rs) = f.allowed_roles {
        lemma_roles_are_filtered(rs);
    }
}

/// A workflow keeps, in order, exactly the transitions that its complete
/// descriptions describe.
pub proof fn transition_list_law(fs: Seq<TransitionFieldsView>)
    ensures
        parse_transitions(fs) == fs.filter_map(|f: TransitionFieldsView| described_transition(f)),
    decreases fs.len(),
{
    if fs.len() > 0 {
        transition_list_law(fs.drop_last());
        transition_description_law(fs.last());
    }
}

/// An accepted note is appended, as written, to the notes of the case, which
/// is stamped; the reply names the case and counts its notes. Nothing else in
/// the store changes.
pub proof fn accepted_note_law(
    s: StoreView,
    s2: StoreView,
    case_id: Seq<char>,
    author: Seq<char>,
    text: Seq<char>,
    timestamp: Seq<char>,
    updated_at: Seq<char>,
    r: Result<NoteReply, WorkflowError>,
)
    requires
        case_note_outcome(s, s2, case_id, author, text, timestamp, updated_at, r),
        r is Ok,
    ensures
        s.cases.contains_key(case_id),
        ({
            let c = s.cases[case_id];
            let c2 = s2.cases[case_id];
            &&& c2.notes == c.notes.push(CaseNoteView { author: author, text: text, timestamp: timestamp })
            &&& c2.updated_at == updated_at
            &&& c2.id == c.id && c2.title == c.title && c2.description == c.description
                && c2.case_type == c.case_type && c2.status == c.status && c2.priority == c.priority
                && c2.assignee == c.assignee && c2.reporter == c.reporter && c2.tags == c.tags
                && c2.metadata == c.metadata && c2.created_at == c.created_at
            &&& r->Ok_0.case_id@ == case_id && r->Ok_0.notes_count == c2.notes.len()
            &&& s2 == (StoreView { cases: s.cases.insert(case_id, c2), ..s })
        }),
{
}

/// Updates and notes are refused exactly when the record they name does not
/// exist.
pub proof fn refusal_is_missing_record_law(
    s: StoreView,
    s2: StoreView,
    id: Seq<char>,
    status: Option<Seq<char>>,
    assignee: Option<Seq<char>>,
    priority: Option<Seq<char>>,
    author: Seq<char>,
    text: Seq<char>,
    timestamp: Seq<char>,
    updated_at: Seq<char>,
    task_reply: Result<UpdateReply, WorkflowError>,
    case_reply: Result<UpdateReply, WorkflowError>,
    note_reply: Result<NoteReply, WorkflowError>,
)
    ensures
        task_update_outcome(s, s2, id, status, assignee, priority, updated_at, task_reply) ==> (
        task_reply is Err <==> !s.tasks.contains_key(id)),
        case_update_outcome(s, s2, id, status, assignee, priority, updated_at, case_reply) ==> (
        case_reply is Err <==> !s.cases.contains_key(id)),
        case_note_outcome(s, s2, id, author, text, timestamp, updated_at, note_reply) ==> (
        note_reply is Err <==> !s.cases.contains_key(id)),
{
}

/// A started instance belongs to the entity and workflow it was started for,
/// carries the given metadata and times, stands in the workflow's initial
/// state, and has no history yet.
pub proof fn started_instance_law(
    w: WorkflowDefView,
    id: Seq<char>,
    workflow_id: Seq<char>,
    entity_type: Seq<char>,
    entity_id: Seq<char>,
    metadata: Seq<char>,
    created_at: Seq<char>,
    updated_at: Seq<char>,
)
    ensures
        ({
            let i = started_instance(
                w,
                id,
                workflow_id,
                entity_type,
                entity_id,
                metadata,
                created_at,
                updated_at,
            );
            &&& i.id == id && i.workflow_id == workflow_id && i.entity_type == entity_type
                && i.entity_id == entity_id && i.metadata == metadata
            &&& i.created_at == created_at && i.updated_at == updated_at
            &&& i.current_state == w.initial_state
            &&& i.history.len() == 0
        }),
{
}

/// A field left out of a request takes its default; a field given keeps the
/// given value.
pub proof fn default_law(given: Seq<char>, default: Seq<char>)
    ensures
        text_or(Some(given), default) == given,
        text_or(None, default) == default,
        texts_or_empty(Some(seq![given])) == seq![given],
        texts_or_empty(None) == Seq::<Seq<char>>::empty(),
{
}

/// The pending approvals are exactly the approvals whose status is
/// "pending", each as stored.
pub proof fn pending_list_law(m: Map<Seq<char>, ApprovalView>, k: Seq<char>)
    ensures
        pending_only(m).contains_key(k) <==> m.contains_key(k) && m[k].status == "pending"@,
        pending_only(m).contains_key(k) ==> pending_only(m)[k] == m[k],
{
}

/// Advancing is refused, with nothing changed, when the instance, its
/// definition or its current step is missing; and when the current step has
/// a pending approval request the message says that the step waits.
pub proof fn refused_advance_law(
    e: Engine,
    e2: Engine,
    instance_id: Seq<char>,
    completed_at: Seq<char>,
    msg: Seq<char>,
)
    requires
        advance_outcome(e, e2, instance_id, completed_at, msg),
    ensures
        first_with_key(e.instances@, instance_id) is None ==> e2 == e && msg == "Instance "@
            + instance_id + " not found"@,
        first_with_key(e.instances@, instance_id) matches Some(i) ==> {
            let inst = e.instances@[i];
            match first_with_key(e.definitions@, inst.workflow_id@) {
                None => e2 == e && msg == "Workflow definition not found"@,
                Some(d) => match first_with_key(e.definitions@[d].steps@, inst.current_step@) {
                    None => e2 == e && msg == "Current step not found"@,
                    Some(st) => (exists|j: int|
                        #![trigger e.approvals@[j]]
                        0 <= j < e.approvals@.len() && e.approvals@[j].instance_id@ == inst.id@
                            && e.approvals@[j].step_id@ == inst.current_step@
                            && e.approvals@[j].status@ == "pending"@) ==> e2 == e && msg == "Step '"@
                        + e.definitions@[d].steps@[st].name@ + "' is waiting for approval"@,
                },
            }
        },
{
}

/// A decision is refused, with nothing changed, exactly when the approval
/// does not exist, is no longer pending (the refusal gives its status), or
/// the decider is not among its approvers, checked in that order.
pub proof fn refused_decision_law(
    s: StoreView,
    s2: StoreView,
    approval_id: Seq<char>,
    approver: Seq<char>,
    decision: Seq<char>,
    comment: Option<Seq<char>>,
    timestamp: Seq<char>,
    r: Result<DecisionReply, WorkflowError>,
)
    requires
        decision_outcome(s, s2, approval_id, approver, decision, comment, timestamp, r),
    ensures
        r is Err ==> s2 == s,
        !s.approvals.contains_key(approval_id) ==> r matches Err(WorkflowError::ApprovalNotFound),
        s.approvals.contains_key(approval_id) && s.approvals[approval_id].status != "pending"@
            ==> (r matches Err(WorkflowError::ApprovalNotPending { status }) && status@
            == s.approvals[approval_id].status),
        s.approvals.contains_key(approval_id) && s.approvals[approval_id].status == "pending"@
            && !lists(s.approvals[approval_id].approvers, approver) ==> r matches Err(
            WorkflowError::NotAnApprover,
        ),
        s.approvals.contains_key(approval_id) && s.approvals[approval_id].status == "pending"@
            && lists(s.approvals[approval_id].approvers, approver) ==> r is Ok,
{
    if s.approvals.contains_key(approval_id) {
        let a = s.approvals[approval_id];
        if lists(a.approvers, approver) {
            let i = choose|i: int| 0 <= i < a.approvers.len() && #[trigger] a.approvers[i] == approver;
            assert(a.approvers.contains(approver));
        }
        if a.approvers.contains(approver) {
            let i = choose|i: int| 0 <= i < a.approvers.len() && a.approvers[i] == approver;
            assert(a.approvers[i] == approver);
        }
    }
}

} // verus!
