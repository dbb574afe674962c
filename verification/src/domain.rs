//! The step-based workflow model: definitions made of typed steps, instances
//! that walk through them, and the approval requests they raise.

use vstd::prelude::*;
use crate::keyed::Keyed;

verus! {

/// What a step does.
#[derive(Debug, Clone, Copy, PartialEq, Eq, Structural)]
pub enum StepType {
    Action,
    Approval,
    Condition,
    Notification,
    Wait,
}

/// Where an instance stands.
#[derive(Debug, Clone, Copy, PartialEq, Eq, Structural)]
pub enum InstanceStatus {
    Running,
    WaitingApproval,
    Completed,
    Failed,
    Cancelled,
}

/// One step of a workflow definition.
#[derive(Debug, Clone)]
pub struct StepDefinition {
    pub id: String,
    pub name: String,
    pub step_type: StepType,
    /// The id of the step that follows, if any.
    pub next: Option<String>,
    /// The id of the step to go back to on rejection, if any.
    pub on_reject: Option<String>,
    pub assignee: Option<String>,
}

/// A workflow definition: a named list of steps.
#[derive(Debug, Clone)]
pub struct WorkflowDefinition {
    pub id: String,
    pub name: String,
    pub description: String,
    pub steps: Vec<StepDefinition>,
    pub created_by: String,
}

/// A running instance of a workflow definition.
#[derive(Debug, Clone)]
pub struct WorkflowInstance {
    pub id: String,
    pub workflow_id: String,
    pub workflow_name: String,
    pub current_step: String,
    pub status: InstanceStatus,
    /// The instance's context, as JSON text.
    pub context: String,
    pub history: Vec<StepExecution>,
    pub started_at: String,
}

/// The record of a step that an instance has left.
#[derive(Debug, Clone)]
pub struct StepExecution {
    pub step_id: String,
    pub step_name: String,
    pub status: String,
    pub completed_at: String,
    /// The step's result, as JSON text.
    pub result: Option<String>,
}

/// A request for a decision on an approval step.
#[derive(Debug, Clone)]
pub struct ApprovalRequest {
    pub id: String,
    pub instance_id: String,
    pub step_id: String,
    pub step_name: String,
    pub assignee: String,
    /// "pending", "approved" or "rejected".
    pub status: String,
    pub requested_at: String,
}

pub struct StepDefinitionView {
    pub id: Seq<char>,
    pub name: Seq<char>,
    pub step_type: StepType,
    pub next: Option<Seq<char>>,
    pub on_reject: Option<Seq<char>>,
    pub assignee: Option<Seq<char>>,
}

pub struct WorkflowDefinitionView {
    pub id: Seq<char>,
    pub name: Seq<char>,
    pub description: Seq<char>,
    pub steps: Seq<StepDefinitionView>,
    pub created_by: Seq<char>,
}

pub struct WorkflowInstanceView {
    pub id: Seq<char>,
    pub workflow_id: Seq<char>,
    pub workflow_name: Seq<char>,
    pub current_step: Seq<char>,
    pub status: InstanceStatus,
    pub context: Seq<char>,
    pub history: Seq<StepExecutionView>,
    pub started_at: Seq<char>,
}

pub struct StepExecutionView {
    pub step_id: Seq<char>,
    pub step_name: Seq<char>,
    pub status: Seq<char>,
    pub completed_at: Seq<char>,
    pub result: Option<Seq<char>>,
}

pub struct ApprovalRequestView {
    pub id: Seq<char>,
    pub instance_id: Seq<char>,
    pub step_id: Seq<char>,
    pub step_name: Seq<char>,
    pub assignee: Seq<char>,
    pub status: Seq<char>,
    pub requested_at: Seq<char>,
}

impl View for StepDefinition {
    type V = StepDefinitionView;

    open spec fn view(&self) -> StepDefinitionView {
        StepDefinitionView {
            id: self.id@,
            name: self.name@,
            step_type: self.step_type,
            next: self.next.deep_view(),
            on_reject: self.on_reject.deep_view(),
            assignee: self.assignee.deep_view(),
        }
    }
}

impl DeepView for StepDefinition {
    type V = StepDefinitionView;

    open spec fn deep_view(&self) -> StepDefinitionView {
        self@
    }
}

impl View for WorkflowDefinition {
    type V = WorkflowDefinitionView;

    open spec fn view(&self) -> WorkflowDefinitionView {
        WorkflowDefinitionView {
            id: self.id@,
            name: self.name@,
            description: self.description@,
            steps: self.steps.deep_view(),
            created_by: self.created_by@,
        }
    }
}

impl DeepView for WorkflowDefinition {
    type V = WorkflowDefinitionView;

    open spec fn deep_view(&self) -> WorkflowDefinitionView {
        self@
    }
}

impl View for WorkflowInstance {
    type V = WorkflowInstanceView;

    open spec fn view(&self) -> WorkflowInstanceView {
        WorkflowInstanceView {
            id: self.id@,
            workflow_id: self.workflow_id@,
            workflow_name: self.workflow_name@,
            current_step: self.current_step@,
            status: self.status,
            context: self.context@,
            history: self.history.deep_view(),
            started_at: self.started_at@,
        }
    }
}

impl DeepView for WorkflowInstance {
    type V = WorkflowInstanceView;

    open spec fn deep_view(&self) -> WorkflowInstanceView {
        self@
    }
}

impl View for StepExecution {
    type V = StepExecutionView;

    open spec fn view(&self) -> StepExecutionView {
        StepExecutionView {
            step_id: self.step_id@,
            step_name: self.step_name@,
            status: self.status@,
            completed_at: self.completed_at@,
            result: self.result.deep_view(),
        }
    }
}

impl DeepView for StepExecution {
    type V = StepExecutionView;

    open spec fn deep_view(&self) -> StepExecutionView {
        self@
    }
}

impl View for ApprovalRequest {
    type V = ApprovalRequestView;

    open spec fn view(&self) -> ApprovalRequestView {
        ApprovalRequestView {
            id: self.id@,
            instance_id: self.instance_id@,
            step_id: self.step_id@,
            step_name: self.step_name@,
            assignee: self.assignee@,
            status: self.status@,
            requested_at: self.requested_at@,
        }
    }
}

impl DeepView for ApprovalRequest {
    type V = ApprovalRequestView;

    open spec fn deep_view(&self) -> ApprovalRequestView {
        self@
    }
}

impl Keyed for StepDefinition {
    open spec fn key_of(&self) -> Seq<char> {
        self.id@
    }

    fn key(&self) -> (k: &String) {
        &self.id
    }
}

impl Keyed for WorkflowDefinition {
    open spec fn key_of(&self) -> Seq<char> {
        self.id@
    }

    fn key(&self) -> (k: &String) {
        &self.id
    }
}

impl Keyed for WorkflowInstance {
    open spec fn key_of(&self) -> Seq<char> {
        self.id@
    }

    fn key(&self) -> (k: &String) {
        &self.id
    }
}

impl Keyed for ApprovalRequest {
    open spec fn key_of(&self) -> Seq<char> {
        self.id@
    }

    fn key(&self) -> (k: &String) {
        &self.id
    }
}

} // verus!
