//! The operations offered on the state-machine model: what each request
//! carries, and how it is carried out on the store.

use vstd::prelude::*;
use crate::ids::now;
use crate::keyed::{keys_unique, to_map};
use crate::store::{
    DecisionReply, NoteReply, Store, StoreView, TransitionReply, UpdateReply, WorkflowError,
    case_note_outcome, case_update_outcome, decision_outcome, is_prefixed_id, pending_only,
    started_instance,
    task_update_outcome, transition_outcome,
};
use crate::types::{
    Approval, ApprovalView, Case, CaseView, Task, TaskView, Transition, TransitionView, WorkflowDef,
    WorkflowDefView, WorkflowInstance,
};

verus! {

/// What a request gives of one transition of a new workflow: each field as
/// read from the request, where it has the expected type.
#[derive(Debug, Clone)]
pub struct TransitionFields {
    pub from: Option<String>,
    pub to: Option<String>,
    pub action: Option<String>,
    pub requires_approval: Option<bool>,
    /// The roles, when a list was given: each entry where it is a string.
    pub allowed_roles: Option<Vec<Option<String>>>,
}

pub struct TransitionFieldsView {
    pub from: Option<Seq<char>>,
    pub to: Option<Seq<char>>,
    pub action: Option<Seq<char>>,
    pub requires_approval: Option<bool>,
    pub allowed_roles: Option<Seq<Option<Seq<char>>>>,
}

impl View for TransitionFields {
    type V = TransitionFieldsView;

    open spec fn view(&self) -> TransitionFieldsView {
        TransitionFieldsView {
            from: self.from.deep_view(),
            to: self.to.deep_view(),
            action: self.action.deep_view(),
            requires_approval: self.requires_approval,
            allowed_roles: self.allowed_roles.deep_view(),
        }
    }
}

impl DeepView for TransitionFields {
    type V = TransitionFieldsView;

    open spec fn deep_view(&self) -> TransitionFieldsView {
        self@
    }
}

/// A request to define a workflow.
#[derive(Debug, Clone)]
pub struct WorkflowDefInput {
    pub name: String,
    pub description: Option<String>,
    pub states: Vec<String>,
    pub initial_state: String,
    pub terminal_states: Vec<String>,
    pub transitions: Vec<TransitionFields>,
}

/// A request to start an instance of a workflow.
#[derive(Debug, Clone)]
pub struct StartInstanceInput {
    pub workflow_id: String,
    pub entity_type: String,
    pub entity_id: String,
    /// JSON text.
    pub metadata: Option<String>,
}

/// A request to move an instance by an action.
#[derive(Debug, Clone)]
pub struct TransitionInput {
    pub instance_id: String,
    pub action: String,
    pub actor: String,
    pub comment: Option<String>,
}

/// A request naming an instance.
#[derive(Debug, Clone)]
pub struct InstanceIdInput {
    pub instance_id: String,
}

/// A request to create a task.
#[derive(Debug, Clone)]
pub struct TaskInput {
    pub title: String,
    pub description: Option<String>,
    pub priority: Option<String>,
    pub assignee: Option<String>,
    pub reporter: String,
    pub due_date: Option<String>,
    pub tags: Option<Vec<String>>,
    pub workflow_instance_id: Option<String>,
    pub parent_task_id: Option<String>,
}

/// A request to update a task.
#[derive(Debug, Clone)]
pub struct TaskUpdateInput {
    pub task_id: String,
    pub status: Option<String>,
    pub assignee: Option<String>,
    pub priority: Option<String>,
}

/// A request naming a task.
#[derive(Debug, Clone)]
pub struct TaskIdInput {
    pub task_id: String,
}

/// A request to create an approval.
#[derive(Debug, Clone)]
pub struct ApprovalInput {
    pub title: String,
    pub description: Option<String>,
    pub requester: String,
    pub approvers: Vec<String>,
    pub entity_type: String,
    pub entity_id: String,
    pub due_date: Option<String>,
}

/// A request to decide an approval.
#[derive(Debug, Clone)]
pub struct ApprovalDecisionInput {
    pub approval_id: String,
    pub approver: String,
    /// "approved" or "rejected".
    pub decision: String,
    pub comment: Option<String>,
}

/// A request to create a case.
#[derive(Debug, Clone)]
pub struct CaseInput {
    pub title: String,
    pub description: Option<String>,
    pub case_type: String,
    pub priority: Option<String>,
    pub assignee: Option<String>,
    pub reporter: String,
    pub tags: Option<Vec<String>>,
}

/// A request to add a note to a case.
#[derive(Debug, Clone)]
pub struct CaseNoteInput {
    pub case_id: String,
    pub author: String,
    pub text: String,
}

/// A request to update a case.
#[derive(Debug, Clone)]
pub struct CaseUpdateInput {
    pub case_id: String,
    pub status: Option<String>,
    pub assignee: Option<String>,
    pub priority: Option<String>,
}

/// `o`, or `d` when it is absent.
pub open spec fn text_or(o: Option<Seq<char>>, d: Seq<char>) -> Seq<char> {
    match o {
        Some(v) => v,
        None => d,
    }
}

/// The given list of strings, or the empty list when it is absent.
pub open spec fn texts_or_empty(o: Option<Seq<Seq<char>>>) -> Seq<Seq<char>> {
    match o {
        Some(v) => v,
        None => Seq::empty(),
    }
}

/// The entries that are strings, in order.
pub open spec fn present_texts(rs: Seq<Option<Seq<char>>>) -> Seq<Seq<char>>
    decreases rs.len(),
{
    if rs.len() == 0 {
        Seq::empty()
    } else {
        present_texts(rs.drop_last()) + match rs.last() {
            Some(r) => seq![r],
            None => Seq::empty(),
        }
    }
}

/// The transition that `f` describes: it needs `from`, `to` and `action`;
/// approval is not required unless said, and the roles are the string
/// entries of the list, if one was given.
pub open spec fn parse_transition(f: TransitionFieldsView) -> Option<TransitionView> {
    match (f.from, f.to, f.action) {
        (Some(from), Some(to), Some(action)) => Some(
            TransitionView {
                from: from,
                to: to,
                action: action,
                requires_approval: match f.requires_approval {
                    Some(b) => b,
                    None => false,
                },
                allowed_roles: match f.allowed_roles {
                    Some(rs) => present_texts(rs),
                    None => Seq::empty(),
                },
            },
        ),
        _ => None,
    }
}

/// The transitions that the descriptions give, in order; the incomplete
/// ones are left out.
pub open spec fn parse_transitions(fs: Seq<TransitionFieldsView>) -> Seq<TransitionView>
    decreases fs.len(),
{
    if fs.len() == 0 {
        Seq::empty()
    } else {
        parse_transitions(fs.drop_last()) + match parse_transition(fs.last()) {
            Some(t) => seq![t],
            None => Seq::empty(),
        }
    }
}

/// The strings among `rs`, in order.
pub fn present_strings(rs: Vec<Option<String>>) -> (r: Vec<String>)
    ensures
        r.deep_view() == present_texts(rs.deep_view()),
{
    let mut r: Vec<String> = Vec::new();
    let mut i: usize = 0;
    while i < rs.len()
        invariant
            i <= rs@.len(),
            r.deep_view() == present_texts(rs.deep_view().take(i as int)),
        decreases rs@.len() - i,
    {
        let ghost before = r.deep_view();
        assert(rs.deep_view().take(i + 1).drop_last() =~= rs.deep_view().take(i as int));
        match &rs[i] {
            Some(s) => {
                r.push(s.clone());
                assert(r.deep_view() =~= before + seq![rs.deep_view()[i as int]->0]);
            },
            None => {
                assert(r.deep_view() =~= before + Seq::<Seq<char>>::empty());
            },
        }
        i += 1;
    }
    assert(rs.deep_view().take(rs@.len() as int) =~= rs.deep_view());
    r
}

/// The transition that `f` describes, if it is complete.
pub fn parse_transition_fields(f: TransitionFields) -> (r: Option<Transition>)
    ensures
        r.deep_view() == parse_transition(f@),
{
    match (f.from, f.to, f.action) {
        (Some(from), Some(to), Some(action)) => {
            let requires_approval = match f.requires_approval {
                Some(b) => b,
                None => false,
            };
            let allowed_roles = match f.allowed_roles {
                Some(rs) => present_strings(rs),
                None => Vec::new(),
            };
            let t = Transition { from, to, action, requires_approval, allowed_roles };
            assert(t@.allowed_roles =~= parse_transition(f@)->0.allowed_roles);
            Some(t)
        },
        _ => None,
    }
}

/// The complete transitions that `fs` describe, in order.
pub fn parse_transition_list(fs: Vec<TransitionFields>) -> (r: Vec<Transition>)
    ensures
        r.deep_view() == parse_transitions(fs.deep_view()),
{
    let ghost all = fs.deep_view();
    let mut fs = fs;
    let mut r: Vec<Transition> = Vec::new();
    while fs.len() > 0
        invariant
            fs@.len() <= all.len(),
            fs.deep_view() == all.skip(all.len() - fs@.len()),
            r.deep_view() == parse_transitions(all.take(all.len() - fs@.len())),
        decreases fs@.len(),
    {
        let ghost done = all.len() - fs@.len();
        let ghost before = r.deep_view();
        let ghost old_fs = fs.deep_view();
        let f = fs.remove(0);
        let ghost fv = f@;
        assert(fv == all[done]) by {
            assert(old_fs[0] == all.skip(done)[0]);
        }
        assert forall|i: int| 0 <= i < fs@.len() implies fs.deep_view()[i] == all.skip(done + 1)[i] by {
            assert(fs.deep_view()[i] == old_fs[i + 1]);
            assert(old_fs[i + 1] == all.skip(done)[i + 1]);
        }
        assert(fs.deep_view() =~= all.skip(done + 1));
        assert(all.take(done + 1).drop_last() =~= all.take(done));
        match parse_transition_fields(f) {
            Some(t) => {
                r.push(t);
                assert(r.deep_view() =~= before + seq![parse_transition(fv)->0]);
            },
            None => {
                assert(r.deep_view() =~= before + Seq::<TransitionView>::empty());
            },
        }
    }
    assert(all.take(all.len() as int) =~= all);
    r
}


/// The workflow service: a store and the operations offered on it.
pub struct WorkflowServer {
    store: Store,
}

impl View for WorkflowServer {
    type V = StoreView;

    closed spec fn view(&self) -> StoreView {
        self.store@
    }
}

impl WorkflowServer {
    /// The store is well formed.
    pub closed spec fn wf(&self) -> bool {
        self.store.wf()
    }

    /// A service with an empty store.
    pub fn new() -> (s: WorkflowServer)
        ensures
            s.wf(),
            s@ == (StoreView {
                workflows: Map::empty(),
                instances: Map::empty(),
                tasks: Map::empty(),
                approvals: Map::empty(),
                cases: Map::empty(),
            }),
    {
        WorkflowServer { store: Store::new() }
    }

    /// The store.
    pub fn store(&self) -> (r: &Store)
        requires
            self.wf(),
        ensures
            r.wf(),
            r@ == self@,
    {
        &self.store
    }

    /// Defines a workflow from `input`: the description defaults to empty,
    /// and of the transitions only the complete ones are kept. Returns the
    /// new workflow's id.
    pub fn workflow_create(&mut self, input: WorkflowDefInput) -> (id: String)
        requires
            old(self).wf(),
        ensures
            final(self).wf(),
            is_prefixed_id(id@, "wf_"@),
            final(self)@ == (StoreView {
                workflows: old(self)@.workflows.insert(id@, final(self)@.workflows[id@]),
                ..old(self)@
            }),
            final(self)@.workflows[id@] == (WorkflowDefView {
                id: id@,
                name: input.name@,
                description: text_or(input.description.deep_view(), Seq::empty()),
                states: input.states.deep_view(),
                initial_state: input.initial_state@,
                terminal_states: input.terminal_states.deep_view(),
                transitions: parse_transitions(input.transitions.deep_view()),
                created_at: final(self)@.workflows[id@].created_at,
            }),
    {
        let transitions = parse_transition_list(input.transitions);
        let description = match input.description {
            Some(d) => d,
            None => String::new(),
        };
        let w = WorkflowDef {
            id: String::new(),
            name: input.name,
            description,
            states: input.states,
            initial_state: input.initial_state,
            terminal_states: input.terminal_states,
            transitions,
            created_at: String::new(),
        };
        self.store.create_workflow(w)
    }

    /// The workflow definitions; see `Store::workflows`.
    pub fn workflow_list(&self) -> (r: &Vec<WorkflowDef>)
        requires
            self.wf(),
        ensures
            keys_unique(r@),
            to_map(r@) == self@.workflows,
            r@.len() == self@.workflows.len(),
    {
        self.store.workflows()
    }

    /// Starts an instance of the requested workflow for the requested
    /// entity; the metadata defaults to the empty JSON object. Returns the
    /// new instance's id, or nothing when there is no such workflow.
    pub fn instance_start(&mut self, input: StartInstanceInput) -> (r: Option<String>)
        requires
            old(self).wf(),
        ensures
            final(self).wf(),
            !old(self)@.workflows.contains_key(input.workflow_id@) ==> r is None && final(self)@
                == old(self)@,
            old(self)@.workflows.contains_key(input.workflow_id@) ==> {
                &&& r matches Some(rid) && is_prefixed_id(rid@, "inst_"@) && {
                    let made = final(self)@.instances[rid@];
                    &&& final(self)@ == (StoreView {
                        instances: old(self)@.instances.insert(rid@, made),
                        ..old(self)@
                    })
                    &&& made == started_instance(
                        old(self)@.workflows[input.workflow_id@],
                        rid@,
                        input.workflow_id@,
                        input.entity_type@,
                        input.entity_id@,
                        text_or(input.metadata.deep_view(), "{}"@),
                        made.created_at,
                        made.updated_at,
                    )
                }
            },
    {
        let metadata = match input.metadata {
            Some(m) => m,
            None => String::from_str("{}"),
        };
        self.store.start_instance(
            input.workflow_id.as_str(),
            input.entity_type.as_str(),
            input.entity_id.as_str(),
            metadata,
        )
    }

    /// Moves the requested instance by the requested action, stamped now;
    /// see `transition_outcome`.
    pub fn instance_transition(&mut self, input: TransitionInput) -> (r: Result<
        TransitionReply,
        WorkflowError,
    >)
        requires
            old(self).wf(),
        ensures
            final(self).wf(),
            exists|updated_at: Seq<char>, timestamp: Seq<char>|
                #[trigger] transition_outcome(
                    old(self)@,
                    final(self)@,
                    input.instance_id@,
                    input.action@,
                    input.actor@,
                    input.comment.deep_view(),
                    updated_at,
                    timestamp,
                    r,
                ),
    {
        let updated_at = now();
        let timestamp = now();
        let ghost (u, t) = (updated_at@, timestamp@);
        let r = self.store.transition_at(
            input.instance_id.as_str(),
            input.action,
            input.actor,
            input.comment,
            updated_at,
            timestamp,
        );
        assert(transition_outcome(
            old(self)@,
            self@,
            input.instance_id@,
            input.action@,
            input.actor@,
            input.comment.deep_view(),
            u,
            t,
            r,
        ));
        r
    }

    /// The requested instance, if it exists.
    pub fn instance_get(&self, input: &InstanceIdInput) -> (r: Option<&WorkflowInstance>)
        requires
            self.wf(),
        ensures
            r is Some <==> self@.instances.contains_key(input.instance_id@),
            r matches Some(x) ==> x@ == self@.instances[input.instance_id@],
    {
        self.store.get_instance(input.instance_id.as_str())
    }

    /// Creates an open task from `input`: the description defaults to
    /// empty, the priority to "medium", the tags to none, the metadata to the
    /// empty JSON object. Returns the new task's id.
    pub fn task_create(&mut self, input: TaskInput) -> (id: String)
        requires
            old(self).wf(),
        ensures
            final(self).wf(),
            is_prefixed_id(id@, "task_"@),
            final(self)@ == (StoreView {
                tasks: old(self)@.tasks.insert(id@, final(self)@.tasks[id@]),
                ..old(self)@
            }),
            final(self)@.tasks[id@] == (TaskView {
                id: id@,
                title: input.title@,
                description: text_or(input.description.deep_view(), Seq::empty()),
                status: "open"@,
                priority: text_or(input.priority.deep_view(), "medium"@),
                assignee: input.assignee.deep_view(),
                reporter: input.reporter@,
                due_date: input.due_date.deep_view(),
                tags: texts_or_empty(input.tags.deep_view()),
                workflow_instance_id: input.workflow_instance_id.deep_view(),
                parent_task_id: input.parent_task_id.deep_view(),
                metadata: "{}"@,
                created_at: final(self)@.tasks[id@].created_at,
                updated_at: final(self)@.tasks[id@].updated_at,
            }),
    {
        let t = Task {
            id: String::new(),
            title: input.title,
            description: match input.description {
                Some(d) => d,
                None => String::new(),
            },
            status: String::from_str("open"),
            priority: match input.priority {
                Some(p) => p,
                None => String::from_str("medium"),
            },
            assignee: input.assignee,
            reporter: input.reporter,
            due_date: input.due_date,
            tags: match input.tags {
                Some(tags) => tags,
                None => Vec::new(),
            },
            workflow_instance_id: input.workflow_instance_id,
            parent_task_id: input.parent_task_id,
            metadata: String::from_str("{}"),
            created_at: String::new(),
            updated_at: String::new(),
        };
        assert(t@.tags =~= texts_or_empty(input.tags.deep_view()));
        self.store.create_task(t)
    }

    /// Updates the requested task, stamped now; see `task_update_outcome`.
    pub fn task_update(&mut self, input: TaskUpdateInput) -> (r: Result<UpdateReply, WorkflowError>)
        requires
            old(self).wf(),
        ensures
            final(self).wf(),
            exists|updated_at: Seq<char>|
                #[trigger] task_update_outcome(
                    old(self)@,
                    final(self)@,
                    input.task_id@,
                    input.status.deep_view(),
                    input.assignee.deep_view(),
                    input.priority.deep_view(),
                    updated_at,
                    r,
                ),
    {
        let updated_at = now();
        let ghost u = updated_at@;
        let r = self.store.update_task_at(
            input.task_id.as_str(),
            input.status,
            input.assignee,
            input.priority,
            updated_at,
        );
        assert(task_update_outcome(
            old(self)@,
            self@,
            input.task_id@,
            input.status.deep_view(),
            input.assignee.deep_view(),
            input.priority.deep_view(),
            u,
            r,
        ));
        r
    }

    /// The tasks; see `Store::tasks`.
    pub fn task_list(&self) -> (r: &Vec<Task>)
        requires
            self.wf(),
        ensures
            keys_unique(r@),
            to_map(r@) == self@.tasks,
            r@.len() == self@.tasks.len(),
    {
        self.store.tasks()
    }

    /// Creates a pending approval from `input`, with no decisions yet: the
    /// description defaults to empty, the metadata to the empty JSON object.
    /// Returns the new approval's id.
    pub fn approval_create(&mut self, input: ApprovalInput) -> (id: String)
        requires
            old(self).wf(),
        ensures
            final(self).wf(),
            is_prefixed_id(id@, "appr_"@),
            final(self)@ == (StoreView {
                approvals: old(self)@.approvals.insert(id@, final(self)@.approvals[id@]),
                ..old(self)@
            }),
            final(self)@.approvals[id@] == (ApprovalView {
                id: id@,
                title: input.title@,
                description: text_or(input.description.deep_view(), Seq::empty()),
                status: "pending"@,
                requester: input.requester@,
                approvers: input.approvers.deep_view(),
                decisions: Seq::empty(),
                entity_type: input.entity_type@,
                entity_id: input.entity_id@,
                due_date: input.due_date.deep_view(),
                metadata: "{}"@,
                created_at: final(self)@.approvals[id@].created_at,
            }),
    {
        let a = Approval {
            id: String::new(),
            title: input.title,
            description: match input.description {
                Some(d) => d,
                None => String::new(),
            },
            status: String::from_str("pending"),
            requester: input.requester,
            approvers: input.approvers,
            decisions: Vec::new(),
            entity_type: input.entity_type,
            entity_id: input.entity_id,
            due_date: input.due_date,
            metadata: String::from_str("{}"),
            created_at: String::new(),
        };
        assert(a@.decisions =~= Seq::empty());
        self.store.create_approval(a)
    }

    /// Records the requested decision, stamped now; see `decision_outcome`.
    pub fn approval_decide(&mut self, input: ApprovalDecisionInput) -> (r: Result<
        DecisionReply,
        WorkflowError,
    >)
        requires
            old(self).wf(),
        ensures
            final(self).wf(),
            exists|timestamp: Seq<char>|
                #[trigger] decision_outcome(
                    old(self)@,
                    final(self)@,
                    input.approval_id@,
                    input.approver@,
                    input.decision@,
                    input.comment.deep_view(),
                    timestamp,
                    r,
                ),
    {
        let timestamp = now();
        let ghost t = timestamp@;
        let r = self.store.decide_approval_at(
            input.approval_id.as_str(),
            input.approver,
            input.decision,
            input.comment,
            timestamp,
        );
        assert(decision_outcome(
            old(self)@,
            self@,
            input.approval_id@,
            input.approver@,
            input.decision@,
            input.comment.deep_view(),
            t,
            r,
        ));
        r
    }

    /// The approvals still pending, each once, in no particular order.
    pub fn approval_list(&self) -> (r: Vec<&Approval>)
        requires
            self.wf(),
        ensures
            keys_unique(r@),
            to_map(r@) == pending_only(self@.approvals),
            r@.len() == pending_only(self@.approvals).len(),
    {
        self.store.pending_approvals()
    }

    /// Opens a case from `input`, with no notes yet: the description
    /// defaults to empty, the priority to "medium", the tags to none, the
    /// metadata to the empty JSON object. Returns the new case's id.
    pub fn case_create(&mut self, input: CaseInput) -> (id: String)
        requires
            old(self).wf(),
        ensures
            final(self).wf(),
            is_prefixed_id(id@, "case_"@),
            final(self)@ == (StoreView {
                cases: old(self)@.cases.insert(id@, final(self)@.cases[id@]),
                ..old(self)@
            }),
            final(self)@.cases[id@] == (CaseView {
                id: id@,
                title: input.title@,
                description: text_or(input.description.deep_view(), Seq::empty()),
                case_type: input.case_type@,
                status: "open"@,
                priority: text_or(input.priority.deep_view(), "medium"@),
                assignee: input.assignee.deep_view(),
                reporter: input.reporter@,
                tags: texts_or_empty(input.tags.deep_view()),
                notes: Seq::empty(),
                metadata: "{}"@,
                created_at: final(self)@.cases[id@].created_at,
                updated_at: final(self)@.cases[id@].updated_at,
            }),
    {
        let c = Case {
            id: String::new(),
            title: input.title,
            description: match input.description {
                Some(d) => d,
                None => String::new(),
            },
            case_type: input.case_type,
            status: String::from_str("open"),
            priority: match input.priority {
                Some(p) => p,
                None => String::from_str("medium"),
            },
            assignee: input.assignee,
            reporter: input.reporter,
            tags: match input.tags {
                Some(tags) => tags,
                None => Vec::new(),
            },
            notes: Vec::new(),
            metadata: String::from_str("{}"),
            created_at: String::new(),
            updated_at: String::new(),
        };
        assert(c@.tags =~= texts_or_empty(input.tags.deep_view()));
        assert(c@.notes =~= Seq::empty());
        self.store.create_case(c)
    }

    /// Adds the requested note, stamped now; see `case_note_outcome`.
    pub fn case_add_note(&mut self, input: CaseNoteInput) -> (r: Result<NoteReply, WorkflowError>)
        requires
            old(self).wf(),
        ensures
            final(self).wf(),
            exists|timestamp: Seq<char>, updated_at: Seq<char>|
                #[trigger] case_note_outcome(
                    old(self)@,
                    final(self)@,
                    input.case_id@,
                    input.author@,
                    input.text@,
                    timestamp,
                    updated_at,
                    r,
                ),
    {
        let timestamp = now();
        let updated_at = now();
        let ghost (t, u) = (timestamp@, updated_at@);
        let r = self.store.add_case_note_at(
            input.case_id.as_str(),
            input.author,
            input.text,
            timestamp,
            updated_at,
        );
        assert(case_note_outcome(
            old(self)@,
            self@,
            input.case_id@,
            input.author@,
            input.text@,
            t,
            u,
            r,
        ));
        r
    }

    /// Updates the requested case, stamped now; see `case_update_outcome`.
    pub fn case_update(&mut self, input: CaseUpdateInput) -> (r: Result<UpdateReply, WorkflowError>)
        requires
            old(self).wf(),
        ensures
            final(self).wf(),
            exists|updated_at: Seq<char>|
                #[trigger] case_update_outcome(
                    old(self)@,
                    final(self)@,
                    input.case_id@,
                    input.status.deep_view(),
                    input.assignee.deep_view(),
                    input.priority.deep_view(),
                    updated_at,
                    r,
                ),
    {
        let updated_at = now();
        let ghost u = updated_at@;
        let r = self.store.update_case_at(
            input.case_id.as_str(),
            input.status,
            input.assignee,
            input.priority,
            updated_at,
        );
        assert(case_update_outcome(
            old(self)@,
            self@,
            input.case_id@,
            input.status.deep_view(),
            input.assignee.deep_view(),
            input.priority.deep_view(),
            u,
            r,
        ));
        r
    }

    /// The cases; see `Store::cases`.
    pub fn case_list(&self) -> (r: &Vec<Case>)
        requires
            self.wf(),
        ensures
            keys_unique(r@),
            to_map(r@) == self@.cases,
            r@.len() == self@.cases.len(),
    {
        self.store.cases()
    }
}

} // verus!
