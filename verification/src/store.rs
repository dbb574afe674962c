//! The store of the state-machine model: workflow definitions, instances,
//! tasks, approvals and cases, each found by its identifier.

use vstd::prelude::*;
use crate::ids::{is_short_id, now, uid};
use crate::keyed::{
    Keyed, contains_string, has_key, keys_unique, lemma_to_map_len,
    lemma_to_map_lookup, lemma_to_map_push, lemma_to_map_update, position_of, to_map,
};
use crate::types::{
    Approval, ApprovalDecision, ApprovalDecisionView, ApprovalView, Case, CaseNote, CaseNoteView,
    CaseView, StateChange, StateChangeView, Task, TaskView, Transition, TransitionView,
    WorkflowDef, WorkflowDefView, WorkflowInstance, WorkflowInstanceView,
};

verus! {

/// All records of the state-machine model, each kind keyed by its id.
pub struct Store {
    workflows: Vec<WorkflowDef>,
    instances: Vec<WorkflowInstance>,
    tasks: Vec<Task>,
    approvals: Vec<Approval>,
    cases: Vec<Case>,
}

/// The store as maps from identifier to record.
pub struct StoreView {
    pub workflows: Map<Seq<char>, WorkflowDefView>,
    pub instances: Map<Seq<char>, WorkflowInstanceView>,
    pub tasks: Map<Seq<char>, TaskView>,
    pub approvals: Map<Seq<char>, ApprovalView>,
    pub cases: Map<Seq<char>, CaseView>,
}

impl View for Store {
    type V = StoreView;

    closed spec fn view(&self) -> StoreView {
        StoreView {
            workflows: to_map(self.workflows@),
            instances: to_map(self.instances@),
            tasks: to_map(self.tasks@),
            approvals: to_map(self.approvals@),
            cases: to_map(self.cases@),
        }
    }
}

/// Adds `x`, replacing the record with the same key if there is one.
fn upsert<T: Keyed>(v: &mut Vec<T>, x: T)
    requires
        keys_unique(old(v)@),
    ensures
        keys_unique(final(v)@),
        to_map(final(v)@) == to_map(old(v)@).insert(x.key_of(), x@),
{
    match position_of(v, x.key()) {
        Some(i) => {
            proof {
                lemma_to_map_update(v@, i as int, x);
            }
            v.set(i, x);
        },
        None => {
            proof {
                lemma_to_map_push(v@, x);
            }
            v.push(x);
        },
    }
}

/// The record with key `k`, if any.
fn lookup<'a, T: Keyed>(v: &'a Vec<T>, k: &String) -> (r: Option<&'a T>)
    requires
        keys_unique(v@),
    ensures
        r is Some <==> to_map(v@).contains_key(k@),
        r matches Some(x) ==> x@ == to_map(v@)[k@] && x.key_of() == k@,
{
    proof {
        lemma_to_map_lookup(v@, k@);
    }
    match position_of(v, k) {
        Some(i) => Some(&v[i]),
        None => None,
    }
}

/// The position of the record with key `k`, if any.
fn locate<T: Keyed>(v: &Vec<T>, k: &String) -> (r: Option<usize>)
    requires
        keys_unique(v@),
    ensures
        r is Some <==> to_map(v@).contains_key(k@),
        r matches Some(i) ==> i < v@.len() && v@[i as int]@ == to_map(v@)[k@] && v@[i as int].key_of()
            == k@,
{
    proof {
        lemma_to_map_lookup(v@, k@);
    }
    position_of(v, k)
}

/// `prefix` followed by a short identifier.
pub open spec fn is_prefixed_id(id: Seq<char>, prefix: Seq<char>) -> bool {
    &&& id.len() == prefix.len() + 8
    &&& id.subrange(0, prefix.len() as int) == prefix
    &&& is_short_id(id.subrange(prefix.len() as int, id.len() as int))
}

/// A fresh identifier: `prefix` followed by a short random identifier.
fn fresh_id(prefix: &str) -> (id: String)
    ensures
        is_prefixed_id(id@, prefix@),
{
    let suffix = uid();
    let id = String::from_str(prefix).concat(suffix.as_str());
    assert(id@.subrange(0, prefix@.len() as int) =~= prefix@);
    assert(id@.subrange(prefix@.len() as int, id@.len() as int) =~= suffix@);
    id
}

/// Why a request on the store was refused.
#[derive(Debug, Clone)]
pub enum WorkflowError {
    WorkflowNotFound,
    InstanceNotFound,
    /// No transition leaves `current_state` by `attempted_action`;
    /// `valid_actions` are the actions of those that do, in order.
    InvalidTransition { current_state: String, attempted_action: String, valid_actions: Vec<String> },
    /// A transition leaves `current_state` by the requested action, but it is
    /// a terminal state of the workflow: the workflow has ended there.
    WorkflowEnded { current_state: String },
    TaskNotFound,
    ApprovalNotFound,
    /// The approval has already been decided; `status` is its status.
    ApprovalNotPending { status: String },
    NotAnApprover,
    CaseNotFound,
}

/// The report of a transition that was taken.
#[derive(Debug, Clone)]
pub struct TransitionReply {
    pub from: String,
    pub to: String,
    pub action: String,
    /// The new state is one of the workflow's terminal states.
    pub is_terminal: bool,
}

/// The report of an update of a task or a case.
#[derive(Debug, Clone)]
pub struct UpdateReply {
    pub id: String,
    pub current_status: String,
}

/// The report of a recorded approval decision.
#[derive(Debug, Clone)]
pub struct DecisionReply {
    /// The approval's status after the decision.
    pub status: String,
    pub approval_id: String,
    /// How many decisions the approval now holds.
    pub decisions: usize,
    pub total_approvers: usize,
}

/// The report of a note added to a case.
#[derive(Debug, Clone)]
pub struct NoteReply {
    pub case_id: String,
    pub notes_count: usize,
}

/// The position of the first transition that leaves `from` by `action`.
pub open spec fn first_transition(ts: Seq<TransitionView>, from: Seq<char>, action: Seq<char>) -> Option<int>
    decreases ts.len(),
{
    if ts.len() == 0 {
        None
    } else if ts[0].from == from && ts[0].action == action {
        Some(0)
    } else {
        match first_transition(ts.drop_first(), from, action) {
            Some(i) => Some(i + 1),
            None => None,
        }
    }
}

/// `first_transition` finds the least matching position, or nothing when no
/// transition matches.
pub proof fn lemma_first_transition(ts: Seq<TransitionView>, from: Seq<char>, action: Seq<char>)
    ensures
        match first_transition(ts, from, action) {
            Some(i) => 0 <= i < ts.len() && ts[i].from == from && ts[i].action == action && forall|j: int|
                0 <= j < i ==> !(#[trigger] ts[j].from == from && ts[j].action == action),
            None => forall|j: int| 0 <= j < ts.len() ==> !(#[trigger] ts[j].from == from && ts[j].action == action),
        },
    decreases ts.len(),
{
    if ts.len() > 0 && !(ts[0].from == from && ts[0].action == action) {
        let t = ts.drop_first();
        lemma_first_transition(t, from, action);
        assert forall|j: int| 0 < j < ts.len() implies #[trigger] ts[j] == t[j - 1] by {}
    }
}

/// The actions of the transitions that leave `from`, in order.
pub open spec fn actions_from(ts: Seq<TransitionView>, from: Seq<char>) -> Seq<Seq<char>>
    decreases ts.len(),
{
    if ts.len() == 0 {
        Seq::empty()
    } else {
        actions_from(ts.drop_last(), from) + if ts.last().from == from {
            seq![ts.last().action]
        } else {
            Seq::empty()
        }
    }
}

/// Every decision in `ds` is "approved".
pub open spec fn all_approved(ds: Seq<ApprovalDecisionView>) -> bool {
    forall|i: int| 0 <= i < ds.len() ==> #[trigger] ds[i].decision == "approved"@
}

/// Some decision in `ds` is by `approver`.
pub open spec fn has_decided(ds: Seq<ApprovalDecisionView>, approver: Seq<char>) -> bool {
    exists|j: int| 0 <= j < ds.len() && #[trigger] ds[j].approver == approver
}

/// Every approver has at least one decision in `ds`.
pub open spec fn all_decided(approvers: Seq<Seq<char>>, ds: Seq<ApprovalDecisionView>) -> bool {
    forall|i: int| 0 <= i < approvers.len() ==> has_decided(ds, #[trigger] approvers[i])
}

/// An approval after `d` is recorded: once every approver has decided, it is
/// approved if every decision approves and rejected otherwise; until then it
/// stays as it was.
pub open spec fn decided_approval(a: ApprovalView, d: ApprovalDecisionView) -> ApprovalView {
    let decisions = a.decisions.push(d);
    ApprovalView {
        decisions: decisions,
        status: if all_decided(a.approvers, decisions) {
            if all_approved(decisions) {
                "approved"@
            } else {
                "rejected"@
            }
        } else {
            a.status
        },
        ..a
    }
}

/// An instance after it takes transition `t` by `action`.
pub open spec fn transitioned_instance(
    inst: WorkflowInstanceView,
    t: TransitionView,
    action: Seq<char>,
    actor: Seq<char>,
    comment: Option<Seq<char>>,
    updated_at: Seq<char>,
    timestamp: Seq<char>,
) -> WorkflowInstanceView {
    WorkflowInstanceView {
        current_state: t.to,
        updated_at: updated_at,
        history: inst.history.push(
            StateChangeView {
                from: inst.current_state,
                to: t.to,
                action: action,
                actor: actor,
                timestamp: timestamp,
                comment: comment,
            },
        ),
        ..inst
    }
}

/// The position of the first transition that leaves `from` by `action`.
fn find_transition(ts: &Vec<Transition>, from: &String, action: &String) -> (r: Option<usize>)
    ensures
        r matches Some(i) ==> first_transition(ts.deep_view(), from@, action@) == Some(i as int) && i
            < ts@.len(),
        r is None ==> first_transition(ts.deep_view(), from@, action@) is None,
{
    proof {
        lemma_first_transition(ts.deep_view(), from@, action@);
    }
    let mut i: usize = 0;
    while i < ts.len()
        invariant
            i <= ts@.len(),
            forall|j: int|
                0 <= j < i ==> !(#[trigger] ts.deep_view()[j].from == from@ && ts.deep_view()[j].action
                    == action@),
        decreases ts@.len() - i,
    {
        if ts[i].from.eq(from) && ts[i].action.eq(action) {
            proof {
                lemma_first_transition(ts.deep_view(), from@, action@);
                assert(ts.deep_view()[i as int].from == from@);
                assert(ts.deep_view()[i as int].action == action@);
            }
            return Some(i);
        }
        i += 1;
    }
    None
}

/// The actions of the transitions that leave `from`, in order.
fn valid_actions(ts: &Vec<Transition>, from: &String) -> (r: Vec<String>)
    ensures
        r.deep_view() == actions_from(ts.deep_view(), from@),
{
    let mut r: Vec<String> = Vec::new();
    let mut i: usize = 0;
    while i < ts.len()
        invariant
            i <= ts@.len(),
            r.deep_view() == actions_from(ts.deep_view().take(i as int), from@),
        decreases ts@.len() - i,
    {
        let ghost before = r.deep_view();
        assert(ts.deep_view().take(i + 1).drop_last() =~= ts.deep_view().take(i as int));
        if ts[i].from.eq(from) {
            r.push(ts[i].action.clone());
            assert(r.deep_view() =~= before + seq![ts.deep_view()[i as int].action]);
        } else {
            assert(r.deep_view() =~= before + Seq::<Seq<char>>::empty());
        }
        i += 1;
    }
    assert(ts.deep_view().take(ts@.len() as int) =~= ts.deep_view());
    r
}

/// A task after an update: each given field replaces the old one.
pub open spec fn updated_task(
    t: TaskView,
    status: Option<Seq<char>>,
    assignee: Option<Seq<char>>,
    priority: Option<Seq<char>>,
    updated_at: Seq<char>,
) -> TaskView {
    TaskView {
        status: match status {
            Some(v) => v,
            None => t.status,
        },
        assignee: match assignee {
            Some(v) => Some(v),
            None => t.assignee,
        },
        priority: match priority {
            Some(v) => v,
            None => t.priority,
        },
        updated_at: updated_at,
        ..t
    }
}

/// A case after an update: each given field replaces the old one.
pub open spec fn updated_case(
    c: CaseView,
    status: Option<Seq<char>>,
    assignee: Option<Seq<char>>,
    priority: Option<Seq<char>>,
    updated_at: Seq<char>,
) -> CaseView {
    CaseView {
        status: match status {
            Some(v) => v,
            None => c.status,
        },
        assignee: match assignee {
            Some(v) => Some(v),
            None => c.assignee,
        },
        priority: match priority {
            Some(v) => v,
            None => c.priority,
        },
        updated_at: updated_at,
        ..c
    }
}

/// A case after a note is added.
pub open spec fn noted_case(c: CaseView, note: CaseNoteView, updated_at: Seq<char>) -> CaseView {
    CaseView { notes: c.notes.push(note), updated_at: updated_at, ..c }
}

/// The instance that starting workflow `w` creates.
pub open spec fn started_instance(
    w: WorkflowDefView,
    id: Seq<char>,
    workflow_id: Seq<char>,
    entity_type: Seq<char>,
    entity_id: Seq<char>,
    metadata: Seq<char>,
    created_at: Seq<char>,
    updated_at: Seq<char>,
) -> WorkflowInstanceView {
    WorkflowInstanceView {
        id: id,
        workflow_id: workflow_id,
        entity_type: entity_type,
        entity_id: entity_id,
        current_state: w.initial_state,
        history: Seq::empty(),
        metadata: metadata,
        created_at: created_at,
        updated_at: updated_at,
    }
}

/// The approvals of `m` that are still pending.
pub open spec fn pending_only(m: Map<Seq<char>, ApprovalView>) -> Map<Seq<char>, ApprovalView> {
    Map::new(|k: Seq<char>| m.contains_key(k) && m[k].status == "pending"@, |k: Seq<char>| m[k])
}

/// Whether some decision in `ds` is by `approver`.
fn decided_by(ds: &Vec<ApprovalDecision>, approver: &String) -> (r: bool)
    ensures
        r == has_decided(ds.deep_view(), approver@),
{
    let mut j: usize = 0;
    while j < ds.len()
        invariant
            j <= ds@.len(),
            forall|k: int| 0 <= k < j ==> #[trigger] ds.deep_view()[k].approver != approver@,
        decreases ds@.len() - j,
    {
        if ds[j].approver.eq(approver) {
            assert(ds.deep_view()[j as int].approver == approver@);
            return true;
        }
        j += 1;
    }
    false
}

/// Whether every approver has a decision in `ds`.
fn every_approver_decided(approvers: &Vec<String>, ds: &Vec<ApprovalDecision>) -> (r: bool)
    ensures
        r == all_decided(approvers.deep_view(), ds.deep_view()),
{
    let mut i: usize = 0;
    while i < approvers.len()
        invariant
            i <= approvers@.len(),
            forall|k: int| 0 <= k < i ==> has_decided(ds.deep_view(), #[trigger] approvers.deep_view()[k]),
        decreases approvers@.len() - i,
    {
        if !decided_by(ds, &approvers[i]) {
            assert(!has_decided(ds.deep_view(), approvers.deep_view()[i as int]));
            return false;
        }
        i += 1;
    }
    true
}

/// Whether every decision in `ds` is "approved".
fn all_decisions_approved(ds: &Vec<ApprovalDecision>) -> (r: bool)
    ensures
        r == all_approved(ds.deep_view()),
{
    let approved = String::from_str("approved");
    let mut i: usize = 0;
    while i < ds.len()
        invariant
            i <= ds@.len(),
            approved@ == "approved"@,
            forall|j: int| 0 <= j < i ==> #[trigger] ds.deep_view()[j].decision == "approved"@,
        decreases ds@.len() - i,
    {
        if !ds[i].decision.eq(&approved) {
            assert(ds.deep_view()[i as int].decision != "approved"@);
            return false;
        }
        i += 1;
    }
    true
}

/// The outcome of a transition request on `s`: the reply `r` and the store `s2` after it.
pub open spec fn transition_outcome(
    s: StoreView,
    s2: StoreView,
    instance_id: Seq<char>,
    action: Seq<char>,
    actor: Seq<char>,
    comment: Option<Seq<char>>,
    updated_at: Seq<char>,
    timestamp: Seq<char>,
    r: Result<TransitionReply, WorkflowError>,
) -> bool {
    let k = instance_id;
    if !s.instances.contains_key(k) {
        r matches Err(WorkflowError::InstanceNotFound) && s2 == s
    } else if !s.workflows.contains_key(s.instances[k].workflow_id) {
        r matches Err(WorkflowError::WorkflowNotFound) && s2 == s
    } else {
        let inst = s.instances[k];
        let w = s.workflows[inst.workflow_id];
        match first_transition(w.transitions, inst.current_state, action) {
            Some(j) => if w.terminal_states.contains(inst.current_state) {
                r matches Err(WorkflowError::WorkflowEnded { current_state }) && current_state@
                    == inst.current_state && s2 == s
            } else {
                &&& r matches Ok(rep) && rep.from@ == inst.current_state && rep.to@
                    == w.transitions[j].to && rep.action@ == action && rep.is_terminal
                    == w.terminal_states.contains(w.transitions[j].to)
                &&& s2 == (StoreView {
                    instances: s.instances.insert(
                        k,
                        transitioned_instance(
                            inst,
                            w.transitions[j],
                            action,
                            actor,
                            comment,
                            updated_at,
                            timestamp,
                        ),
                    ),
                    ..s
                })
            },
            None => {
                &&& r matches Err(
                    WorkflowError::InvalidTransition {
                        current_state,
                        attempted_action,
                        valid_actions,
                    },
                ) && current_state@ == inst.current_state && attempted_action@ == action
                    && valid_actions.deep_view() == actions_from(
                    w.transitions,
                    inst.current_state,
                )
                &&& s2 == s
            },
        }
    }
}

/// The outcome of a task update on `s`: the reply `r` and the store `s2` after it.
pub open spec fn task_update_outcome(
    s: StoreView,
    s2: StoreView,
    task_id: Seq<char>,
    status: Option<Seq<char>>,
    assignee: Option<Seq<char>>,
    priority: Option<Seq<char>>,
    updated_at: Seq<char>,
    r: Result<UpdateReply, WorkflowError>,
) -> bool {
    &&& (
        !s.tasks.contains_key(task_id) ==> (r matches Err(WorkflowError::TaskNotFound)
            && s2 == s)
    )
    &&& (
        s.tasks.contains_key(task_id) ==> {
            let t = updated_task(
                s.tasks[task_id],
                status,
                assignee,
                priority,
                updated_at,
            );
            &&& r matches Ok(rep) && rep.id@ == task_id && rep.current_status@ == t.status
            &&& s2 == (StoreView { tasks: s.tasks.insert(task_id, t), ..s })
        }
    )
}

/// The outcome of an approval decision on `s`: the reply `r` and the store `s2` after it.
pub open spec fn decision_outcome(
    s: StoreView,
    s2: StoreView,
    approval_id: Seq<char>,
    approver: Seq<char>,
    decision: Seq<char>,
    comment: Option<Seq<char>>,
    timestamp: Seq<char>,
    r: Result<DecisionReply, WorkflowError>,
) -> bool {
    let k = approval_id;
    if !s.approvals.contains_key(k) {
        r matches Err(WorkflowError::ApprovalNotFound) && s2 == s
    } else if s.approvals[k].status != "pending"@ {
        r matches Err(WorkflowError::ApprovalNotPending { status }) && status@
            == s.approvals[k].status && s2 == s
    } else if !s.approvals[k].approvers.contains(approver) {
        r matches Err(WorkflowError::NotAnApprover) && s2 == s
    } else {
        let a = decided_approval(
            s.approvals[k],
            ApprovalDecisionView {
                approver: approver,
                decision: decision,
                comment: comment,
                timestamp: timestamp,
            },
        );
        &&& r matches Ok(rep) && rep.status@ == a.status && rep.approval_id@ == k
            && rep.decisions == a.decisions.len() && rep.total_approvers
            == a.approvers.len()
        &&& s2 == (StoreView { approvals: s.approvals.insert(k, a), ..s })
    }
}

/// The outcome of adding a note to a case on `s`: the reply `r` and the store `s2` after it.
pub open spec fn case_note_outcome(
    s: StoreView,
    s2: StoreView,
    case_id: Seq<char>,
    author: Seq<char>,
    text: Seq<char>,
    timestamp: Seq<char>,
    updated_at: Seq<char>,
    r: Result<NoteReply, WorkflowError>,
) -> bool {
    &&& (
        !s.cases.contains_key(case_id) ==> (r matches Err(WorkflowError::CaseNotFound)
            && s2 == s)
    )
    &&& (
        s.cases.contains_key(case_id) ==> {
            let c = noted_case(
                s.cases[case_id],
                CaseNoteView { author: author, text: text, timestamp: timestamp },
                updated_at,
            );
            &&& r matches Ok(rep) && rep.case_id@ == case_id && rep.notes_count == c.notes.len()
            &&& s2 == (StoreView { cases: s.cases.insert(case_id, c), ..s })
        }
    )
}

/// The outcome of a case update on `s`: the reply `r` and the store `s2` after it.
pub open spec fn case_update_outcome(
    s: StoreView,
    s2: StoreView,
    case_id: Seq<char>,
    status: Option<Seq<char>>,
    assignee: Option<Seq<char>>,
    priority: Option<Seq<char>>,
    updated_at: Seq<char>,
    r: Result<UpdateReply, WorkflowError>,
) -> bool {
    &&& (
        !s.cases.contains_key(case_id) ==> (r matches Err(WorkflowError::CaseNotFound)
            && s2 == s)
    )
    &&& (
        s.cases.contains_key(case_id) ==> {
            let c = updated_case(
                s.cases[case_id],
                status,
                assignee,
                priority,
                updated_at,
            );
            &&& r matches Ok(rep) && rep.id@ == case_id && rep.current_status@ == c.status
            &&& s2 == (StoreView { cases: s.cases.insert(case_id, c), ..s })
        }
    )
}

impl Store {
    /// Distinct ids within each kind of record.
    pub closed spec fn wf(&self) -> bool {
        &&& keys_unique(self.workflows@)
        &&& keys_unique(self.instances@)
        &&& keys_unique(self.tasks@)
        &&& keys_unique(self.approvals@)
        &&& keys_unique(self.cases@)
    }

    /// The empty store.
    pub fn new() -> (s: Store)
        ensures
            s.wf(),
            s@ == (StoreView {
                workflows: Map::empty(),
                instances: Map::empty(),
                tasks: Map::empty(),
                approvals: Map::empty(),
                cases: Map::empty(),
            }),
    {
        let s = Store {
            workflows: Vec::new(),
            instances: Vec::new(),
            tasks: Vec::new(),
            approvals: Vec::new(),
            cases: Vec::new(),
        };
        assert(s@.workflows =~= Map::empty());
        assert(s@.instances =~= Map::empty());
        assert(s@.tasks =~= Map::empty());
        assert(s@.approvals =~= Map::empty());
        assert(s@.cases =~= Map::empty());
        s
    }

    /// The workflow definitions, each once, in no particular order.
    pub fn workflows(&self) -> (r: &Vec<WorkflowDef>)
        requires
            self.wf(),
        ensures
            keys_unique(r@),
            to_map(r@) == self@.workflows,
            r@.len() == self@.workflows.len(),
    {
        proof {
            lemma_to_map_len(self.workflows@);
        }
        &self.workflows
    }

    /// The workflow instances, each once, in no particular order.
    pub fn instances(&self) -> (r: &Vec<WorkflowInstance>)
        requires
            self.wf(),
        ensures
            keys_unique(r@),
            to_map(r@) == self@.instances,
            r@.len() == self@.instances.len(),
    {
        proof {
            lemma_to_map_len(self.instances@);
        }
        &self.instances
    }

    /// The tasks, each once, in no particular order.
    pub fn tasks(&self) -> (r: &Vec<Task>)
        requires
            self.wf(),
        ensures
            keys_unique(r@),
            to_map(r@) == self@.tasks,
            r@.len() == self@.tasks.len(),
    {
        proof {
            lemma_to_map_len(self.tasks@);
        }
        &self.tasks
    }

    /// The approvals, each once, in no particular order.
    pub fn approvals(&self) -> (r: &Vec<Approval>)
        requires
            self.wf(),
        ensures
            keys_unique(r@),
            to_map(r@) == self@.approvals,
            r@.len() == self@.approvals.len(),
    {
        proof {
            lemma_to_map_len(self.approvals@);
        }
        &self.approvals
    }

    /// The approvals still pending, each once, in no particular order.
    pub fn pending_approvals(&self) -> (r: Vec<&Approval>)
        requires
            self.wf(),
        ensures
            keys_unique(r@),
            to_map(r@) == pending_only(self@.approvals),
            r@.len() == pending_only(self@.approvals).len(),
    {
        let pending = String::from_str("pending");
        let mut r: Vec<&Approval> = Vec::new();
        let mut i: usize = 0;
        proof {
            assert(to_map(r@) =~= pending_only(to_map(self.approvals@.take(0))));
        }
        while i < self.approvals.len()
            invariant
                i <= self.approvals@.len(),
                keys_unique(self.approvals@),
                pending@ == "pending"@,
                keys_unique(r@),
                to_map(r@) == pending_only(to_map(self.approvals@.take(i as int))),
            decreases self.approvals@.len() - i,
        {
            let ghost v = self.approvals@;
            let ghost t = v.take(i as int);
            let ghost key = v[i as int].key_of();
            proof {
                assert(v.take(i + 1) =~= t.push(v[i as int]));
                lemma_to_map_push(t, v[i as int]);
                lemma_to_map_lookup(t, key);
                lemma_to_map_lookup(r@, key);
                if has_key(t, key) {
                    let j = choose|j: int| 0 <= j < t.len() && #[trigger] t[j].key_of() == key;
                    assert(v[j].key_of() == v[i as int].key_of());
                }
            }
            let a = &self.approvals[i];
            if a.status.eq(&pending) {
                proof {
                    lemma_to_map_push(r@, a);
                }
                r.push(a);
                proof {
                    assert(to_map(r@) =~= pending_only(to_map(v.take(i + 1))));
                }
            } else {
                proof {
                    assert(to_map(r@) =~= pending_only(to_map(v.take(i + 1))));
                }
            }
            i += 1;
        }
        proof {
            assert(self.approvals@.take(self.approvals@.len() as int) =~= self.approvals@);
            lemma_to_map_len(r@);
        }
        r
    }

    /// The cases, each once, in no particular order.
    pub fn cases(&self) -> (r: &Vec<Case>)
        requires
            self.wf(),
        ensures
            keys_unique(r@),
            to_map(r@) == self@.cases,
            r@.len() == self@.cases.len(),
    {
        proof {
            lemma_to_map_len(self.cases@);
        }
        &self.cases
    }

    /// The instance with id `id`, if any.
    pub fn get_instance(&self, id: &str) -> (r: Option<&WorkflowInstance>)
        requires
            self.wf(),
        ensures
            r is Some <==> self@.instances.contains_key(id@),
            r matches Some(x) ==> x@ == self@.instances[id@],
    {
        let k = String::from_str(id);
        lookup(&self.instances, &k)
    }

    /// Starts an instance `id` of workflow `workflow_id` for the given
    /// entity, in the workflow's initial state with an empty history; returns
    /// `id`, or nothing (and changes nothing) when there is no such workflow.
    pub fn start_instance_with(
        &mut self,
        workflow_id: &str,
        entity_type: &str,
        entity_id: &str,
        metadata: String,
        id: String,
        created_at: String,
        updated_at: String,
    ) -> (r: Option<String>)
        requires
            old(self).wf(),
        ensures
            final(self).wf(),
            !old(self)@.workflows.contains_key(workflow_id@) ==> r is None && final(self)@ == old(
                self,
            )@,
            old(self)@.workflows.contains_key(workflow_id@) ==> {
                &&& r matches Some(rid) && rid@ == id@
                &&& final(self)@ == (StoreView {
                    instances: old(self)@.instances.insert(
                        id@,
                        started_instance(
                            old(self)@.workflows[workflow_id@],
                            id@,
                            workflow_id@,
                            entity_type@,
                            entity_id@,
                            metadata@,
                            created_at@,
                            updated_at@,
                        ),
                    ),
                    ..old(self)@
                })
            },
    {
        let k = String::from_str(workflow_id);
        let initial_state = match lookup(&self.workflows, &k) {
            Some(w) => w.initial_state.clone(),
            None => {
                return None;
            },
        };
        let inst = WorkflowInstance {
            id: id,
            workflow_id: k,
            entity_type: String::from_str(entity_type),
            entity_id: String::from_str(entity_id),
            current_state: initial_state,
            history: Vec::new(),
            metadata: metadata,
            created_at: created_at,
            updated_at: updated_at,
        };
        let r = inst.id.clone();
        assert(inst.history.deep_view() =~= Seq::<StateChangeView>::empty());
        upsert(&mut self.instances, inst);
        Some(r)
    }

    /// Starts an instance of workflow `workflow_id` under a fresh id `inst_`
    /// followed by eight hexadecimal digits, created and updated now; see
    /// `start_instance_with`.
    pub fn start_instance(&mut self, workflow_id: &str, entity_type: &str, entity_id: &str, metadata: String) -> (r: Option<String>)
        requires
            old(self).wf(),
        ensures
            final(self).wf(),
            !old(self)@.workflows.contains_key(workflow_id@) ==> r is None && final(self)@ == old(
                self,
            )@,
            old(self)@.workflows.contains_key(workflow_id@) ==> {
                &&& r matches Some(rid) && is_prefixed_id(rid@, "inst_"@) && {
                    let made = final(self)@.instances[rid@];
                    &&& final(self)@ == (StoreView {
                        instances: old(self)@.instances.insert(rid@, made),
                        ..old(self)@
                    })
                    &&& made == started_instance(
                        old(self)@.workflows[workflow_id@],
                        rid@,
                        workflow_id@,
                        entity_type@,
                        entity_id@,
                        metadata@,
                        made.created_at,
                        made.updated_at,
                    )
                }
            },
    {
        let id = fresh_id("inst_");
        let created_at = now();
        let updated_at = now();
        self.start_instance_with(workflow_id, entity_type, entity_id, metadata, id, created_at, updated_at)
    }

    /// Moves instance `instance_id` along the first transition of its
    /// workflow that leaves its current state by `action`, recording the
    /// change in its history. Refused, with nothing changed, when the
    /// instance or its workflow does not exist, when no such transition
    /// exists, or when the instance stands in a terminal state (the workflow
    /// has ended there) and so may not take it.
    pub fn transition_at(
        &mut self,
        instance_id: &str,
        action: String,
        actor: String,
        comment: Option<String>,
        updated_at: String,
        timestamp: String,
    ) -> (r: Result<TransitionReply, WorkflowError>)
        requires
            old(self).wf(),
        ensures
            final(self).wf(),
            transition_outcome(
                old(self)@,
                final(self)@,
                instance_id@,
                action@,
                actor@,
                comment.deep_view(),
                updated_at@,
                timestamp@,
                r,
            ),

    {
        let k = String::from_str(instance_id);
        let i = match locate(&self.instances, &k) {
            Some(i) => i,
            None => {
                return Err(WorkflowError::InstanceNotFound);
            },
        };
        let w = match lookup(&self.workflows, &self.instances[i].workflow_id) {
            Some(w) => w,
            None => {
                return Err(WorkflowError::WorkflowNotFound);
            },
        };
        match find_transition(&w.transitions, &self.instances[i].current_state, &action) {
            Some(j) => {
                if contains_string(&w.terminal_states, &self.instances[i].current_state) {
                    return Err(
                        WorkflowError::WorkflowEnded {
                            current_state: self.instances[i].current_state.clone(),
                        },
                    );
                }
                let to = w.transitions[j].to.clone();
                let is_terminal = contains_string(&w.terminal_states, &to);
                let ghost old_instances = self.instances@;
                let inst = &mut self.instances[i];
                let ghost old_history = inst.history.deep_view();
                let from = inst.current_state.clone();
                inst.current_state = to.clone();
                inst.updated_at = updated_at;
                inst.history.push(
                    StateChange {
                        from: from.clone(),
                        to: to.clone(),
                        action: action.clone(),
                        actor: actor,
                        timestamp: timestamp,
                        comment: comment,
                    },
                );
                proof {
                    assert(self.instances@[i as int].history.deep_view() =~= old_history.push(
                        self.instances@[i as int].history@.last()@,
                    ));
                    lemma_to_map_update(old_instances, i as int, self.instances@[i as int]);
                    assert(old_instances.update(i as int, self.instances@[i as int]) =~= self.instances@);
                }
                Ok(TransitionReply { from, to, action, is_terminal })
            },
            None => {
                let valid = valid_actions(&w.transitions, &self.instances[i].current_state);
                Err(
                    WorkflowError::InvalidTransition {
                        current_state: self.instances[i].current_state.clone(),
                        attempted_action: action,
                        valid_actions: valid,
                    },
                )
            },
        }
    }

    /// Updates task `task_id`: each given field replaces the old one, and the
    /// task is marked updated at `updated_at`. Refused, with nothing changed,
    /// when there is no such task.
    pub fn update_task_at(
        &mut self,
        task_id: &str,
        status: Option<String>,
        assignee: Option<String>,
        priority: Option<String>,
        updated_at: String,
    ) -> (r: Result<UpdateReply, WorkflowError>)
        requires
            old(self).wf(),
        ensures
            final(self).wf(),
            task_update_outcome(
                old(self)@,
                final(self)@,
                task_id@,
                status.deep_view(),
                assignee.deep_view(),
                priority.deep_view(),
                updated_at@,
                r,
            ),

    {
        let k = String::from_str(task_id);
        let i = match locate(&self.tasks, &k) {
            Some(i) => i,
            None => {
                return Err(WorkflowError::TaskNotFound);
            },
        };
        let ghost old_tasks = self.tasks@;
        let t = &mut self.tasks[i];
        match status {
            Some(v) => {
                t.status = v;
            },
            None => {},
        }
        match assignee {
            Some(v) => {
                t.assignee = Some(v);
            },
            None => {},
        }
        match priority {
            Some(v) => {
                t.priority = v;
            },
            None => {},
        }
        t.updated_at = updated_at;
        let current_status = t.status.clone();
        proof {
            lemma_to_map_update(old_tasks, i as int, self.tasks@[i as int]);
            assert(old_tasks.update(i as int, self.tasks@[i as int]) =~= self.tasks@);
        }
        Ok(UpdateReply { id: k, current_status })
    }

    /// Records `approver`'s `decision` on approval `approval_id`. Once every
    /// approver has decided, the approval becomes approved if every decision
    /// is "approved" and rejected otherwise.
    /// Refused, with nothing changed, when the approval does not exist, is
    /// no longer pending, or `approver` is not one of its approvers.
    pub fn decide_approval_at(
        &mut self,
        approval_id: &str,
        approver: String,
        decision: String,
        comment: Option<String>,
        timestamp: String,
    ) -> (r: Result<DecisionReply, WorkflowError>)
        requires
            old(self).wf(),
        ensures
            final(self).wf(),
            decision_outcome(
                old(self)@,
                final(self)@,
                approval_id@,
                approver@,
                decision@,
                comment.deep_view(),
                timestamp@,
                r,
            ),

    {
        let k = String::from_str(approval_id);
        let i = match locate(&self.approvals, &k) {
            Some(i) => i,
            None => {
                return Err(WorkflowError::ApprovalNotFound);
            },
        };
        let pending = String::from_str("pending");
        if !self.approvals[i].status.eq(&pending) {
            return Err(WorkflowError::ApprovalNotPending { status: self.approvals[i].status.clone() });
        }
        if !contains_string(&self.approvals[i].approvers, &approver) {
            return Err(WorkflowError::NotAnApprover);
        }
        let ghost old_approvals = self.approvals@;
        let a = &mut self.approvals[i];
        let ghost old_decisions = a.decisions.deep_view();
        a.decisions.push(ApprovalDecision { approver, decision, comment, timestamp });
        proof {
            assert(a.decisions.deep_view() =~= old_decisions.push(a.decisions@.last()@));
        }
        if every_approver_decided(&a.approvers, &a.decisions) {
            if all_decisions_approved(&a.decisions) {
                a.status = String::from_str("approved");
            } else {
                a.status = String::from_str("rejected");
            }
        }
        let reply = DecisionReply {
            status: a.status.clone(),
            approval_id: k,
            decisions: a.decisions.len(),
            total_approvers: a.approvers.len(),
        };
        proof {
            lemma_to_map_update(old_approvals, i as int, self.approvals@[i as int]);
            assert(old_approvals.update(i as int, self.approvals@[i as int]) =~= self.approvals@);
        }
        Ok(reply)
    }

    /// Adds a note by `author` to case `case_id`, written at `timestamp`,
    /// and marks the case updated at `updated_at`. Refused, with nothing
    /// changed, when there is no such case.
    pub fn add_case_note_at(
        &mut self,
        case_id: &str,
        author: String,
        text: String,
        timestamp: String,
        updated_at: String,
    ) -> (r: Result<NoteReply, WorkflowError>)
        requires
            old(self).wf(),
        ensures
            final(self).wf(),
            case_note_outcome(
                old(self)@,
                final(self)@,
                case_id@,
                author@,
                text@,
                timestamp@,
                updated_at@,
                r,
            ),

    {
        let k = String::from_str(case_id);
        let i = match locate(&self.cases, &k) {
            Some(i) => i,
            None => {
                return Err(WorkflowError::CaseNotFound);
            },
        };
        let ghost old_cases = self.cases@;
        let c = &mut self.cases[i];
        let ghost old_notes = c.notes.deep_view();
        c.notes.push(CaseNote { author, text, timestamp });
        c.updated_at = updated_at;
        let notes_count = c.notes.len();
        proof {
            assert(c.notes.deep_view() =~= old_notes.push(c.notes@.last()@));
            lemma_to_map_update(old_cases, i as int, self.cases@[i as int]);
            assert(old_cases.update(i as int, self.cases@[i as int]) =~= self.cases@);
        }
        Ok(NoteReply { case_id: k, notes_count })
    }

    /// Updates case `case_id`: each given field replaces the old one, and the
    /// case is marked updated at `updated_at`. Refused, with nothing changed,
    /// when there is no such case.
    pub fn update_case_at(
        &mut self,
        case_id: &str,
        status: Option<String>,
        assignee: Option<String>,
        priority: Option<String>,
        updated_at: String,
    ) -> (r: Result<UpdateReply, WorkflowError>)
        requires
            old(self).wf(),
        ensures
            final(self).wf(),
            case_update_outcome(
                old(self)@,
                final(self)@,
                case_id@,
                status.deep_view(),
                assignee.deep_view(),
                priority.deep_view(),
                updated_at@,
                r,
            ),

    {
        let k = String::from_str(case_id);
        let i = match locate(&self.cases, &k) {
            Some(i) => i,
            None => {
                return Err(WorkflowError::CaseNotFound);
            },
        };
        let ghost old_cases = self.cases@;
        let c = &mut self.cases[i];
        match status {
            Some(v) => {
                c.status = v;
            },
            None => {},
        }
        match assignee {
            Some(v) => {
                c.assignee = Some(v);
            },
            None => {},
        }
        match priority {
            Some(v) => {
                c.priority = v;
            },
            None => {},
        }
        c.updated_at = updated_at;
        let current_status = c.status.clone();
        proof {
            lemma_to_map_update(old_cases, i as int, self.cases@[i as int]);
            assert(old_cases.update(i as int, self.cases@[i as int]) =~= self.cases@);
        }
        Ok(UpdateReply { id: k, current_status })
    }

    /// Stores `w` under `id`, created at `created_at`; returns `id`.
    pub fn create_workflow_with(&mut self, w: WorkflowDef, id: String, created_at: String) -> (r: String)
        requires
            old(self).wf(),
        ensures
            final(self).wf(),
            r@ == id@,
            final(self)@ == (StoreView {
                workflows: old(self)@.workflows.insert(
                    id@,
                    WorkflowDefView { id: id@, created_at: created_at@, ..w@ },
                ),
                ..old(self)@
            }),
    {
        let mut w = w;
        w.id = id;
        w.created_at = created_at;
        let r = w.id.clone();
        upsert(&mut self.workflows, w);
        r
    }

    /// Stores `w` under a fresh id `wf_` followed by eight hexadecimal
    /// digits, created now; returns the id.
    pub fn create_workflow(&mut self, w: WorkflowDef) -> (r: String)
        requires
            old(self).wf(),
        ensures
            final(self).wf(),
            is_prefixed_id(r@, "wf_"@),
            final(self)@ == (StoreView {
                workflows: old(self)@.workflows.insert(r@, final(self)@.workflows[r@]),
                ..old(self)@
            }),
            final(self)@.workflows[r@] == (WorkflowDefView {
                id: r@,
                created_at: final(self)@.workflows[r@].created_at,
                ..w@
            }),
    {
        let id = fresh_id("wf_");
        let at = now();
        self.create_workflow_with(w, id, at)
    }

    /// Stores `t` under `id`, created at `created_at` and updated at
    /// `updated_at`; returns `id`.
    pub fn create_task_with(&mut self, t: Task, id: String, created_at: String, updated_at: String) -> (r: String)
        requires
            old(self).wf(),
        ensures
            final(self).wf(),
            r@ == id@,
            final(self)@ == (StoreView {
                tasks: old(self)@.tasks.insert(
                    id@,
                    TaskView { id: id@, created_at: created_at@, updated_at: updated_at@, ..t@ },
                ),
                ..old(self)@
            }),
    {
        let mut t = t;
        t.id = id;
        t.created_at = created_at;
        t.updated_at = updated_at;
        let r = t.id.clone();
        upsert(&mut self.tasks, t);
        r
    }

    /// Stores `t` under a fresh id `task_` followed by eight hexadecimal
    /// digits, created and updated now; returns the id.
    pub fn create_task(&mut self, t: Task) -> (r: String)
        requires
            old(self).wf(),
        ensures
            final(self).wf(),
            is_prefixed_id(r@, "task_"@),
            final(self)@ == (StoreView {
                tasks: old(self)@.tasks.insert(r@, final(self)@.tasks[r@]),
                ..old(self)@
            }),
            final(self)@.tasks[r@] == (TaskView {
                id: r@,
                created_at: final(self)@.tasks[r@].created_at,
                updated_at: final(self)@.tasks[r@].updated_at,
                ..t@
            }),
    {
        let id = fresh_id("task_");
        let c = now();
        let u = now();
        self.create_task_with(t, id, c, u)
    }

    /// Stores `a` under `id`, created at `created_at`; returns `id`.
    pub fn create_approval_with(&mut self, a: Approval, id: String, created_at: String) -> (r: String)
        requires
            old(self).wf(),
        ensures
            final(self).wf(),
            r@ == id@,
            final(self)@ == (StoreView {
                approvals: old(self)@.approvals.insert(
                    id@,
                    ApprovalView { id: id@, created_at: created_at@, ..a@ },
                ),
                ..old(self)@
            }),
    {
        let mut a = a;
        a.id = id;
        a.created_at = created_at;
        let r = a.id.clone();
        upsert(&mut self.approvals, a);
        r
    }

    /// Stores `a` under a fresh id `appr_` followed by eight hexadecimal
    /// digits, created now; returns the id.
    pub fn create_approval(&mut self, a: Approval) -> (r: String)
        requires
            old(self).wf(),
        ensures
            final(self).wf(),
            is_prefixed_id(r@, "appr_"@),
            final(self)@ == (StoreView {
                approvals: old(self)@.approvals.insert(r@, final(self)@.approvals[r@]),
                ..old(self)@
            }),
            final(self)@.approvals[r@] == (ApprovalView {
                id: r@,
                created_at: final(self)@.approvals[r@].created_at,
                ..a@
            }),
    {
        let id = fresh_id("appr_");
        let at = now();
        self.create_approval_with(a, id, at)
    }

    /// Stores `c` under `id`, created at `created_at` and updated at
    /// `updated_at`; returns `id`.
    pub fn create_case_with(&mut self, c: Case, id: String, created_at: String, updated_at: String) -> (r: String)
        requires
            old(self).wf(),
        ensures
            final(self).wf(),
            r@ == id@,
            final(self)@ == (StoreView {
                cases: old(self)@.cases.insert(
                    id@,
                    CaseView { id: id@, created_at: created_at@, updated_at: updated_at@, ..c@ },
                ),
                ..old(self)@
            }),
    {
        let mut c = c;
        c.id = id;
        c.created_at = created_at;
        c.updated_at = updated_at;
        let r = c.id.clone();
        upsert(&mut self.cases, c);
        r
    }

    /// Stores `c` under a fresh id `case_` followed by eight hexadecimal
    /// digits, created and updated now; returns the id.
    pub fn create_case(&mut self, c: Case) -> (r: String)
        requires
            old(self).wf(),
        ensures
            final(self).wf(),
            is_prefixed_id(r@, "case_"@),
            final(self)@ == (StoreView {
                cases: old(self)@.cases.insert(r@, final(self)@.cases[r@]),
                ..old(self)@
            }),
            final(self)@.cases[r@] == (CaseView {
                id: r@,
                created_at: final(self)@.cases[r@].created_at,
                updated_at: final(self)@.cases[r@].updated_at,
                ..c@
            }),
    {
        let id = fresh_id("case_");
        let cr = now();
        let up = now();
        self.create_case_with(c, id, cr, up)
    }
}

} // verus!
