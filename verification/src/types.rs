//! The state-machine model: workflow definitions with states and transitions,
//! the instances that move through them, and tasks, approvals and cases.

use vstd::prelude::*;
use crate::keyed::Keyed;

verus! {

/// A workflow definition: a state machine template.
#[derive(Debug, Clone)]
pub struct WorkflowDef {
    pub id: String,
    pub name: String,
    pub description: String,
    pub states: Vec<String>,
    pub initial_state: String,
    pub terminal_states: Vec<String>,
    pub transitions: Vec<Transition>,
    pub created_at: String,
}

/// A transition between two states, taken by an action.
#[derive(Debug, Clone)]
pub struct Transition {
    pub from: String,
    pub to: String,
    pub action: String,
    pub requires_approval: bool,
    pub allowed_roles: Vec<String>,
}

/// A running workflow instance, attached to an entity.
#[derive(Debug, Clone)]
pub struct WorkflowInstance {
    pub id: String,
    pub workflow_id: String,
    pub entity_type: String,
    pub entity_id: String,
    pub current_state: String,
    pub history: Vec<StateChange>,
    /// JSON text.
    pub metadata: String,
    pub created_at: String,
    pub updated_at: String,
}

/// The record of one transition of an instance.
#[derive(Debug, Clone)]
pub struct StateChange {
    pub from: String,
    pub to: String,
    pub action: String,
    pub actor: String,
    pub timestamp: String,
    pub comment: Option<String>,
}

/// A task: an assignable unit of work.
#[derive(Debug, Clone)]
pub struct Task {
    pub id: String,
    pub title: String,
    pub description: String,
    /// One of: open, in_progress, blocked, completed, cancelled.
    pub status: String,
    /// One of: low, medium, high, critical.
    pub priority: String,
    pub assignee: Option<String>,
    pub reporter: String,
    pub due_date: Option<String>,
    pub tags: Vec<String>,
    pub workflow_instance_id: Option<String>,
    pub parent_task_id: Option<String>,
    /// JSON text.
    pub metadata: String,
    pub created_at: String,
    pub updated_at: String,
}

/// An approval request, routed to one or more approvers.
#[derive(Debug, Clone)]
pub struct Approval {
    pub id: String,
    pub title: String,
    pub description: String,
    /// One of: pending, approved, rejected, expired.
    pub status: String,
    pub requester: String,
    pub approvers: Vec<String>,
    pub decisions: Vec<ApprovalDecision>,
    pub entity_type: String,
    pub entity_id: String,
    pub due_date: Option<String>,
    /// JSON text.
    pub metadata: String,
    pub created_at: String,
}

/// One approver's decision.
#[derive(Debug, Clone)]
pub struct ApprovalDecision {
    pub approver: String,
    /// One of: approved, rejected.
    pub decision: String,
    pub comment: Option<String>,
    pub timestamp: String,
}

/// A case: a support ticket, legal matter, claim, incident or change request.
#[derive(Debug, Clone)]
pub struct Case {
    pub id: String,
    pub title: String,
    pub description: String,
    pub case_type: String,
    /// One of: open, investigating, pending, resolved, closed.
    pub status: String,
    pub priority: String,
    pub assignee: Option<String>,
    pub reporter: String,
    pub tags: Vec<String>,
    pub notes: Vec<CaseNote>,
    /// JSON text.
    pub metadata: String,
    pub created_at: String,
    pub updated_at: String,
}

/// A note on a case.
#[derive(Debug, Clone)]
pub struct CaseNote {
    pub author: String,
    pub text: String,
    pub timestamp: String,
}

pub struct WorkflowDefView {
    pub id: Seq<char>,
    pub name: Seq<char>,
    pub description: Seq<char>,
    pub states: Seq<Seq<char>>,
    pub initial_state: Seq<char>,
    pub terminal_states: Seq<Seq<char>>,
    pub transitions: Seq<TransitionView>,
    pub created_at: Seq<char>,
}

impl View for WorkflowDef {
    type V = WorkflowDefView;

    open spec fn view(&self) -> WorkflowDefView {
        WorkflowDefView {
            id: self.id@,
            name: self.name@,
            description: self.description@,
            states: self.states.deep_view(),
            initial_state: self.initial_state@,
            terminal_states: self.terminal_states.deep_view(),
            transitions: self.transitions.deep_view(),
            created_at: self.created_at@,
        }
    }
}

impl DeepView for WorkflowDef {
    type V = WorkflowDefView;

    open spec fn deep_view(&self) -> WorkflowDefView {
        self@
    }
}

pub struct TransitionView {
    pub from: Seq<char>,
    pub to: Seq<char>,
    pub action: Seq<char>,
    pub requires_approval: bool,
    pub allowed_roles: Seq<Seq<char>>,
}

impl View for Transition {
    type V = TransitionView;

    open spec fn view(&self) -> TransitionView {
        TransitionView {
            from: self.from@,
            to: self.to@,
            action: self.action@,
            requires_approval: self.requires_approval,
            allowed_roles: self.allowed_roles.deep_view(),
        }
    }
}

impl DeepView for Transition {
    type V = TransitionView;

    open spec fn deep_view(&self) -> TransitionView {
        self@
    }
}

pub struct WorkflowInstanceView {
    pub id: Seq<char>,
    pub workflow_id: Seq<char>,
    pub entity_type: Seq<char>,
    pub entity_id: Seq<char>,
    pub current_state: Seq<char>,
    pub history: Seq<StateChangeView>,
    pub metadata: Seq<char>,
    pub created_at: Seq<char>,
    pub updated_at: Seq<char>,
}

impl View for WorkflowInstance {
    type V = WorkflowInstanceView;

    open spec fn view(&self) -> WorkflowInstanceView {
        WorkflowInstanceView {
            id: self.id@,
            workflow_id: self.workflow_id@,
            entity_type: self.entity_type@,
            entity_id: self.entity_id@,
            current_state: self.current_state@,
            history: self.history.deep_view(),
            metadata: self.metadata@,
            created_at: self.created_at@,
            updated_at: self.updated_at@,
        }
    }
}

impl DeepView for WorkflowInstance {
    type V = WorkflowInstanceView;

    open spec fn deep_view(&self) -> WorkflowInstanceView {
        self@
    }
}

pub struct StateChangeView {
    pub from: Seq<char>,
    pub to: Seq<char>,
    pub action: Seq<char>,
    pub actor: Seq<char>,
    pub timestamp: Seq<char>,
    pub comment: Option<Seq<char>>,
}

impl View for StateChange {
    type V = StateChangeView;

    open spec fn view(&self) -> StateChangeView {
        StateChangeView {
            from: self.from@,
            to: self.to@,
            action: self.action@,
            actor: self.actor@,
            timestamp: self.timestamp@,
            comment: self.comment.deep_view(),
        }
    }
}

impl DeepView for StateChange {
    type V = StateChangeView;

    open spec fn deep_view(&self) -> StateChangeView {
        self@
    }
}

pub struct TaskView {
    pub id: Seq<char>,
    pub title: Seq<char>,
    pub description: Seq<char>,
    pub status: Seq<char>,
    pub priority: Seq<char>,
    pub assignee: Option<Seq<char>>,
    pub reporter: Seq<char>,
    pub due_date: Option<Seq<char>>,
    pub tags: Seq<Seq<char>>,
    pub workflow_instance_id: Option<Seq<char>>,
    pub parent_task_id: Option<Seq<char>>,
    pub metadata: Seq<char>,
    pub created_at: Seq<char>,
    pub updated_at: Seq<char>,
}

impl View for Task {
    type V = TaskView;

    open spec fn view(&self) -> TaskView {
        TaskView {
            id: self.id@,
            title: self.title@,
            description: self.description@,
            status: self.status@,
            priority: self.priority@,
            assignee: self.assignee.deep_view(),
            reporter: self.reporter@,
            due_date: self.due_date.deep_view(),
            tags: self.tags.deep_view(),
            workflow_instance_id: self.workflow_instance_id.deep_view(),
            parent_task_id: self.parent_task_id.deep_view(),
            metadata: self.metadata@,
            created_at: self.created_at@,
            updated_at: self.updated_at@,
        }
    }
}

impl DeepView for Task {
    type V = TaskView;

    open spec fn deep_view(&self) -> TaskView {
        self@
    }
}

pub struct ApprovalView {
    pub id: Seq<char>,
    pub title: Seq<char>,
    pub description: Seq<char>,
    pub status: Seq<char>,
    pub requester: Seq<char>,
    pub approvers: Seq<Seq<char>>,
    pub decisions: Seq<ApprovalDecisionView>,
    pub entity_type: Seq<char>,
    pub entity_id: Seq<char>,
    pub due_date: Option<Seq<char>>,
    pub metadata: Seq<char>,
    pub created_at: Seq<char>,
}

impl View for Approval {
    type V = ApprovalView;

    open spec fn view(&self) -> ApprovalView {
        ApprovalView {
            id: self.id@,
            title: self.title@,
            description: self.description@,
            status: self.status@,
            requester: self.requester@,
            approvers: self.approvers.deep_view(),
            decisions: self.decisions.deep_view(),
            entity_type: self.entity_type@,
            entity_id: self.entity_id@,
            due_date: self.due_date.deep_view(),
            metadata: self.metadata@,
            created_at: self.created_at@,
        }
    }
}

impl DeepView for Approval {
    type V = ApprovalView;

    open spec fn deep_view(&self) -> ApprovalView {
        self@
    }
}

pub struct ApprovalDecisionView {
    pub approver: Seq<char>,
    pub decision: Seq<char>,
    pub comment: Option<Seq<char>>,
    pub timestamp: Seq<char>,
}

impl View for ApprovalDecision {
    type V = ApprovalDecisionView;

    open spec fn view(&self) -> ApprovalDecisionView {
        ApprovalDecisionView {
            approver: self.approver@,
            decision: self.decision@,
            comment: self.comment.deep_view(),
            timestamp: self.timestamp@,
        }
    }
}

impl DeepView for ApprovalDecision {
    type V = ApprovalDecisionView;

    open spec fn deep_view(&self) -> ApprovalDecisionView {
        self@
    }
}

pub struct CaseView {
    pub id: Seq<char>,
    pub title: Seq<char>,
    pub description: Seq<char>,
    pub case_type: Seq<char>,
    pub status: Seq<char>,
    pub priority: Seq<char>,
    pub assignee: Option<Seq<char>>,
    pub reporter: Seq<char>,
    pub tags: Seq<Seq<char>>,
    pub notes: Seq<CaseNoteView>,
    pub metadata: Seq<char>,
    pub created_at: Seq<char>,
    pub updated_at: Seq<char>,
}

impl View for Case {
    type V = CaseView;

    open spec fn view(&self) -> CaseView {
        CaseView {
            id: self.id@,
            title: self.title@,
            description: self.description@,
            case_type: self.case_type@,
            status: self.status@,
            priority: self.priority@,
            assignee: self.assignee.deep_view(),
            reporter: self.reporter@,
            tags: self.tags.deep_view(),
            notes: self.notes.deep_view(),
            metadata: self.metadata@,
            created_at: self.created_at@,
            updated_at: self.updated_at@,
        }
    }
}

impl DeepView for Case {
    type V = CaseView;

    open spec fn deep_view(&self) -> CaseView {
        self@
    }
}

pub struct CaseNoteView {
    pub author: Seq<char>,
    pub text: Seq<char>,
    pub timestamp: Seq<char>,
}

impl View for CaseNote {
    type V = CaseNoteView;

    open spec fn view(&self) -> CaseNoteView {
        CaseNoteView {
            author: self.author@,
            text: self.text@,
            timestamp: self.timestamp@,
        }
    }
}

impl DeepView for CaseNote {
    type V = CaseNoteView;

    open spec fn deep_view(&self) -> CaseNoteView {
        self@
    }
}

impl Keyed for WorkflowDef {
    open spec fn key_of(&self) -> Seq<char> {
        self.id@
    }

    fn key(&self) -> (k: &String) {
        &self.id
    }
}

impl Keyed for WorkflowInstance {
    open spec fn key_of(&self) -> Seq<char> {
        self.id@
    }

    fn key(&self) -> (k: &String) {
        &self.id
    }
}

impl Keyed for Task {
    open spec fn key_of(&self) -> Seq<char> {
        self.id@
    }

    fn key(&self) -> (k: &String) {
        &self.id
    }
}

impl Keyed for Approval {
    open spec fn key_of(&self) -> Seq<char> {
        self.id@
    }

    fn key(&self) -> (k: &String) {
        &self.id
    }
}

impl Keyed for Case {
    open spec fn key_of(&self) -> Seq<char> {
        self.id@
    }

    fn key(&self) -> (k: &String) {
        &self.id
    }
}

impl<'a> Keyed for &'a Approval {
    open spec fn key_of(&self) -> Seq<char> {
        self.id@
    }

    fn key(&self) -> (k: &String) {
        &self.id
    }
}

} // verus!
