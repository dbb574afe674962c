//! The engine of the step-based model: its seed data and the rule that moves
//! an instance from one step to the next.

use vstd::prelude::*;
use crate::domain::{
    InstanceStatus, StepDefinition, StepDefinitionView, StepExecution, StepExecutionView, StepType, WorkflowDefinition,
    WorkflowDefinitionView, WorkflowInstance, WorkflowInstanceView, ApprovalRequest,
    ApprovalRequestView,
};
use crate::ids::now;
use crate::keyed::{first_with_key, position_of};

verus! {

/// The definitions, instances and approval requests of the step-based model.
pub struct Engine {
    pub definitions: Vec<WorkflowDefinition>,
    pub instances: Vec<WorkflowInstance>,
    pub approvals: Vec<ApprovalRequest>,
}

pub struct EngineView {
    pub definitions: Seq<WorkflowDefinitionView>,
    pub instances: Seq<WorkflowInstanceView>,
    pub approvals: Seq<ApprovalRequestView>,
}

impl View for Engine {
    type V = EngineView;

    open spec fn view(&self) -> EngineView {
        EngineView {
            definitions: self.definitions.deep_view(),
            instances: self.instances.deep_view(),
            approvals: self.approvals.deep_view(),
        }
    }
}

/// Where advancing an instance gets to: the positions of the instance, of its
/// definition and of its current step, or the first of them that is missing;
/// and whether the instance is held at that step by a pending approval.
pub enum AdvanceStep {
    NoInstance,
    NoDefinition,
    NoCurrentStep,
    AwaitingApproval { inst: int, def: int, step: int },
    Move { inst: int, def: int, step: int },
}

/// Some approval request for step `step_id` of instance `instance_id` is
/// still pending.
pub open spec fn has_pending_request(
    approvals: Seq<ApprovalRequest>,
    instance_id: Seq<char>,
    step_id: Seq<char>,
) -> bool {
    exists|j: int|
        #![trigger approvals[j]]
        0 <= j < approvals.len() && approvals[j].instance_id@ == instance_id && approvals[j].step_id@
            == step_id && approvals[j].status@ == "pending"@
}

/// The first instance with the given id, the first definition with its
/// workflow id, and the first step of that definition with its current step
/// id; the instance moves on unless an approval of that step is pending.
pub open spec fn advance_step(e: Engine, instance_id: Seq<char>) -> AdvanceStep {
    match first_with_key(e.instances@, instance_id) {
        None => AdvanceStep::NoInstance,
        Some(i) => match first_with_key(e.definitions@, e.instances@[i].workflow_id@) {
            None => AdvanceStep::NoDefinition,
            Some(d) => match first_with_key(e.definitions@[d].steps@, e.instances@[i].current_step@) {
                None => AdvanceStep::NoCurrentStep,
                Some(s) => if has_pending_request(
                    e.approvals@,
                    e.instances@[i].id@,
                    e.instances@[i].current_step@,
                ) {
                    AdvanceStep::AwaitingApproval { inst: i, def: d, step: s }
                } else {
                    AdvanceStep::Move { inst: i, def: d, step: s }
                },
            },
        },
    }
}

/// The step of `def` with id `step_id` exists and is an approval step.
pub open spec fn is_approval_step(def: WorkflowDefinition, step_id: Seq<char>) -> bool {
    match first_with_key(def.steps@, step_id) {
        Some(j) => def.steps@[j].step_type == StepType::Approval,
        None => false,
    }
}

/// The history entry written when an instance leaves `current`.
pub open spec fn completed_entry(current: StepDefinition, completed_at: Seq<char>) -> StepExecutionView {
    StepExecutionView {
        step_id: current.id@,
        step_name: current.name@,
        status: "completed"@,
        completed_at: completed_at,
        result: None,
    }
}

/// An instance after it leaves `current`: the step is recorded in its history;
/// it moves to the next step, waiting for approval if that is an approval
/// step and running otherwise; with no next step it is completed.
pub open spec fn advanced_instance(
    inst: WorkflowInstanceView,
    def: WorkflowDefinition,
    current: StepDefinition,
    completed_at: Seq<char>,
) -> WorkflowInstanceView {
    let history = inst.history.push(completed_entry(current, completed_at));
    match current.next {
        Some(n) => WorkflowInstanceView {
            current_step: n@,
            status: if is_approval_step(def, n@) {
                InstanceStatus::WaitingApproval
            } else {
                InstanceStatus::Running
            },
            history: history,
            ..inst
        },
        None => WorkflowInstanceView { status: InstanceStatus::Completed, history: history, ..inst },
    }
}

/// The message that reports a move away from `current`.
pub open spec fn advanced_message(def: WorkflowDefinition, current: StepDefinition) -> Seq<char> {
    match current.next {
        Some(n) => if is_approval_step(def, n@) {
            "Advanced to '"@ + def.steps@[first_with_key(def.steps@, n@)->0].name@
                + "' \u{2014} waiting for approval"@
        } else {
            "Advanced to step '"@ + n@ + "'"@
        },
        None => "Workflow completed"@,
    }
}

/// The message that reports an instance held by a pending approval.
pub open spec fn awaiting_message(current: StepDefinition) -> Seq<char> {
    "Step '"@ + current.name@ + "' is waiting for approval"@
}

/// What advancing instance `instance_id` of `e` at `completed_at` does: the
/// engine `e2` after it and the message `msg`. Nothing changes when the
/// instance, its definition or its current step is missing, or while an
/// approval of its current step is pending; otherwise the instance leaves its
/// current step and nothing else changes.
pub open spec fn advance_outcome(
    e: Engine,
    e2: Engine,
    instance_id: Seq<char>,
    completed_at: Seq<char>,
    msg: Seq<char>,
) -> bool {
    match advance_step(e, instance_id) {
        AdvanceStep::NoInstance => e2 == e && msg == instance_not_found_message(instance_id),
        AdvanceStep::NoDefinition => e2 == e && msg == "Workflow definition not found"@,
        AdvanceStep::NoCurrentStep => e2 == e && msg == "Current step not found"@,
        AdvanceStep::AwaitingApproval { inst, def, step } => e2 == e && msg == awaiting_message(
            e.definitions@[def].steps@[step],
        ),
        AdvanceStep::Move { inst, def, step } => {
            let d = e.definitions@[def];
            let current = d.steps@[step];
            &&& e2.definitions == e.definitions
            &&& e2.approvals == e.approvals
            &&& e2.instances@.len() == e.instances@.len()
            &&& forall|j: int|
                0 <= j < e.instances@.len() && j != inst ==> #[trigger] e2.instances@[j]
                    == e.instances@[j]
            &&& e2.instances@[inst]@ == advanced_instance(e.instances@[inst]@, d, current, completed_at)
            &&& msg == advanced_message(d, current)
        },
    }
}

/// Whether some approval request for step `step_id` of instance
/// `instance_id` is still pending.
fn pending_request_exists(approvals: &Vec<ApprovalRequest>, instance_id: &String, step_id: &String) -> (r: bool)
    ensures
        r == has_pending_request(approvals@, instance_id@, step_id@),
{
    let pending = String::from_str("pending");
    let mut j: usize = 0;
    while j < approvals.len()
        invariant
            j <= approvals@.len(),
            pending@ == "pending"@,
            forall|k: int|
                #![trigger approvals@[k]]
                0 <= k < j ==> !(approvals@[k].instance_id@ == instance_id@ && approvals@[k].step_id@
                    == step_id@ && approvals@[k].status@ == "pending"@),
        decreases approvals@.len() - j,
    {
        let a = &approvals[j];
        if a.instance_id.eq(instance_id) && a.step_id.eq(step_id) && a.status.eq(&pending) {
            return true;
        }
        j += 1;
    }
    false
}

/// The message that reports a missing instance.
pub open spec fn instance_not_found_message(instance_id: Seq<char>) -> Seq<char> {
    "Instance "@ + instance_id + " not found"@
}

/// The view of a step, written out.
pub open spec fn step_view(
    id: &str,
    name: &str,
    step_type: StepType,
    next: Option<&str>,
    on_reject: Option<&str>,
    assignee: Option<&str>,
) -> StepDefinitionView {
    StepDefinitionView {
        id: id@,
        name: name@,
        step_type: step_type,
        next: next.deep_view(),
        on_reject: on_reject.deep_view(),
        assignee: assignee.deep_view(),
    }
}

/// The demo data the engine starts with: three workflow definitions
/// (onboarding, deployment, expense approval), one onboarding instance
/// waiting for the manager's approval, and the pending request for it.
pub open spec fn seed_view() -> EngineView {
    EngineView {
        definitions: seq![
            WorkflowDefinitionView {
                id: "wf-onboard"@,
                name: "Employee Onboarding"@,
                description: "New hire onboarding: IT setup \u{2192} manager approval \u{2192} welcome email"@,
                steps: seq![
                    step_view("s1", "Create accounts", StepType::Action, Some("s2"), None, Some("IT Team")),
                    step_view("s2", "Manager approval", StepType::Approval, Some("s3"), Some("s1"), Some("manager")),
                    step_view("s3", "Send welcome email", StepType::Notification, None, None, None),
                ],
                created_by: "HR Team"@,
            },
            WorkflowDefinitionView {
                id: "wf-deploy"@,
                name: "Production Deployment"@,
                description: "Deploy: run tests \u{2192} security scan \u{2192} lead approval \u{2192} deploy \u{2192} notify"@,
                steps: seq![
                    step_view("s1", "Run tests", StepType::Action, Some("s2"), None, None),
                    step_view("s2", "Security scan", StepType::Action, Some("s3"), None, None),
                    step_view("s3", "Tech lead approval", StepType::Approval, Some("s4"), None, Some("tech-lead")),
                    step_view("s4", "Deploy to production", StepType::Action, Some("s5"), None, None),
                    step_view("s5", "Notify team", StepType::Notification, None, None, None),
                ],
                created_by: "Engineering"@,
            },
            WorkflowDefinitionView {
                id: "wf-expense"@,
                name: "Expense Approval"@,
                description: "Submit expense \u{2192} manager review \u{2192} finance approval \u{2192} reimburse"@,
                steps: seq![
                    step_view("s1", "Submit expense", StepType::Action, Some("s2"), None, None),
                    step_view("s2", "Manager review", StepType::Approval, Some("s3"), None, Some("manager")),
                    step_view("s3", "Finance approval", StepType::Approval, Some("s4"), None, Some("finance")),
                    step_view("s4", "Process reimbursement", StepType::Action, None, None, Some("finance")),
                ],
                created_by: "Finance"@,
            },
        ],
        instances: seq![
            WorkflowInstanceView {
                id: "inst-1"@,
                workflow_id: "wf-onboard"@,
                workflow_name: "Employee Onboarding"@,
                current_step: "s2"@,
                status: InstanceStatus::WaitingApproval,
                context: "{\"employee\":\"Frank Ochieng\",\"department\":\"Engineering\"}"@,
                history: seq![
                    StepExecutionView {
                        step_id: "s1"@,
                        step_name: "Create accounts"@,
                        status: "completed"@,
                        completed_at: "2026-05-24T10:00:00Z"@,
                        result: Some("{\"accounts\":[\"github\",\"slack\",\"email\"]}"@),
                    },
                ],
                started_at: "2026-05-24T09:00:00Z"@,
            },
        ],
        approvals: seq![
            ApprovalRequestView {
                id: "apr-1"@,
                instance_id: "inst-1"@,
                step_id: "s2"@,
                step_name: "Manager approval"@,
                assignee: "alice@company.com"@,
                status: "pending"@,
                requested_at: "2026-05-24T10:05:00Z"@,
            },
        ],
    }
}

fn text(s: &str) -> (r: String)
    ensures
        r@ == s@,
{
    String::from_str(s)
}

fn opt_text(s: Option<&str>) -> (r: Option<String>)
    ensures
        r.deep_view() == s.deep_view(),
{
    match s {
        Some(s) => Some(String::from_str(s)),
        None => None,
    }
}

fn step(
    id: &str,
    name: &str,
    step_type: StepType,
    next: Option<&str>,
    on_reject: Option<&str>,
    assignee: Option<&str>,
) -> (r: StepDefinition)
    ensures
        r@ == step_view(id, name, step_type, next, on_reject, assignee),
{
    StepDefinition {
        id: text(id),
        name: text(name),
        step_type,
        next: opt_text(next),
        on_reject: opt_text(on_reject),
        assignee: opt_text(assignee),
    }
}

impl Engine {
    /// The engine with its demo data; see `seed_view`.
    pub fn seeded() -> (e: Engine)
        ensures
            e@ == seed_view(),
    {
        let mut onboard_steps: Vec<StepDefinition> = Vec::new();
        onboard_steps.push(step("s1", "Create accounts", StepType::Action, Some("s2"), None, Some("IT Team")));
        onboard_steps.push(step("s2", "Manager approval", StepType::Approval, Some("s3"), Some("s1"), Some("manager")));
        onboard_steps.push(step("s3", "Send welcome email", StepType::Notification, None, None, None));
        let mut deploy_steps: Vec<StepDefinition> = Vec::new();
        deploy_steps.push(step("s1", "Run tests", StepType::Action, Some("s2"), None, None));
        deploy_steps.push(step("s2", "Security scan", StepType::Action, Some("s3"), None, None));
        deploy_steps.push(step("s3", "Tech lead approval", StepType::Approval, Some("s4"), None, Some("tech-lead")));
        deploy_steps.push(step("s4", "Deploy to production", StepType::Action, Some("s5"), None, None));
        deploy_steps.push(step("s5", "Notify team", StepType::Notification, None, None, None));
        let mut expense_steps: Vec<StepDefinition> = Vec::new();
        expense_steps.push(step("s1", "Submit expense", StepType::Action, Some("s2"), None, None));
        expense_steps.push(step("s2", "Manager review", StepType::Approval, Some("s3"), None, Some("manager")));
        expense_steps.push(step("s3", "Finance approval", StepType::Approval, Some("s4"), None, Some("finance")));
        expense_steps.push(step("s4", "Process reimbursement", StepType::Action, None, None, Some("finance")));

        let mut definitions: Vec<WorkflowDefinition> = Vec::new();
        definitions.push(WorkflowDefinition {
            id: text("wf-onboard"),
            name: text("Employee Onboarding"),
            description: text("New hire onboarding: IT setup \u{2192} manager approval \u{2192} welcome email"),
            steps: onboard_steps,
            created_by: text("HR Team"),
        });
        definitions.push(WorkflowDefinition {
            id: text("wf-deploy"),
            name: text("Production Deployment"),
            description: text("Deploy: run tests \u{2192} security scan \u{2192} lead approval \u{2192} deploy \u{2192} notify"),
            steps: deploy_steps,
            created_by: text("Engineering"),
        });
        definitions.push(WorkflowDefinition {
            id: text("wf-expense"),
            name: text("Expense Approval"),
            description: text("Submit expense \u{2192} manager review \u{2192} finance approval \u{2192} reimburse"),
            steps: expense_steps,
            created_by: text("Finance"),
        });

        let mut history: Vec<StepExecution> = Vec::new();
        history.push(StepExecution {
            step_id: text("s1"),
            step_name: text("Create accounts"),
            status: text("completed"),
            completed_at: text("2026-05-24T10:00:00Z"),
            result: Some(text("{\"accounts\":[\"github\",\"slack\",\"email\"]}")),
        });
        let mut instances: Vec<WorkflowInstance> = Vec::new();
        instances.push(WorkflowInstance {
            id: text("inst-1"),
            workflow_id: text("wf-onboard"),
            workflow_name: text("Employee Onboarding"),
            current_step: text("s2"),
            status: InstanceStatus::WaitingApproval,
            context: text("{\"employee\":\"Frank Ochieng\",\"department\":\"Engineering\"}"),
            history,
            started_at: text("2026-05-24T09:00:00Z"),
        });

        let mut approvals: Vec<ApprovalRequest> = Vec::new();
        approvals.push(ApprovalRequest {
            id: text("apr-1"),
            instance_id: text("inst-1"),
            step_id: text("s2"),
            step_name: text("Manager approval"),
            assignee: text("alice@company.com"),
            status: text("pending"),
            requested_at: text("2026-05-24T10:05:00Z"),
        });

        let e = Engine { definitions, instances, approvals };
        assert(e@.definitions[0].steps =~= seed_view().definitions[0].steps);
        assert(e@.definitions[1].steps =~= seed_view().definitions[1].steps);
        assert(e@.definitions[2].steps =~= seed_view().definitions[2].steps);
        assert(e@.definitions =~= seed_view().definitions);
        assert(e@.instances[0].history =~= seed_view().instances[0].history);
        assert(e@.instances =~= seed_view().instances);
        assert(e@.approvals =~= seed_view().approvals);
        e
    }

    /// Moves the instance `instance_id` past its current step, recording the
    /// step as completed at `completed_at`, and reports what happened; see
    /// `advance_outcome`. An instance whose current step has a pending
    /// approval request waits: nothing changes until the request is decided.
    pub fn advance_instance_at(&mut self, instance_id: &str, completed_at: String) -> (msg: String)
        ensures
            advance_outcome(*old(self), *final(self), instance_id@, completed_at@, msg@),
    {
        let id = String::from_str(instance_id);
        let i = match position_of(&self.instances, &id) {
            Some(i) => i,
            None => {
                return String::from_str("Instance ").concat(instance_id).concat(" not found");
            },
        };
        let d = match position_of(&self.definitions, &self.instances[i].workflow_id) {
            Some(d) => d,
            None => {
                return String::from_str("Workflow definition not found");
            },
        };
        let s = match position_of(&self.definitions[d].steps, &self.instances[i].current_step) {
            Some(s) => s,
            None => {
                return String::from_str("Current step not found");
            },
        };
        if pending_request_exists(&self.approvals, &self.instances[i].id, &self.instances[i].current_step) {
            return String::from_str("Step '").concat(self.definitions[d].steps[s].name.as_str()).concat(
                "' is waiting for approval",
            );
        }
        let ghost old_inst = self.instances@[i as int];
        let def = &self.definitions[d];
        let current = &def.steps[s];
        let entry = StepExecution {
            step_id: current.id.clone(),
            step_name: current.name.clone(),
            status: String::from_str("completed"),
            completed_at: completed_at,
            result: None,
        };
        let (next_step, status, msg) = match &current.next {
            Some(next_id) => {
                let (status, msg) = match position_of(&def.steps, next_id) {
                    Some(j) => {
                        match def.steps[j].step_type {
                            StepType::Approval => (
                                InstanceStatus::WaitingApproval,
                                String::from_str("Advanced to '").concat(
                                    def.steps[j].name.as_str(),
                                ).concat("' \u{2014} waiting for approval"),
                            ),
                            _ => (
                                InstanceStatus::Running,
                                String::from_str("Advanced to step '").concat(
                                    next_id.as_str(),
                                ).concat("'"),
                            ),
                        }
                    },
                    None => (
                        InstanceStatus::Running,
                        String::from_str("Advanced to step '").concat(next_id.as_str()).concat(
                            "'",
                        ),
                    ),
                };
                (Some(next_id.clone()), status, msg)
            },
            None => (None, InstanceStatus::Completed, String::from_str("Workflow completed")),
        };
        let inst = &mut self.instances[i];
        inst.history.push(entry);
        inst.status = status;
        match next_step {
            Some(n) => {
                inst.current_step = n;
            },
            None => {},
        }
        proof {
            assert(self.instances@[i as int].history.deep_view() =~= old_inst.history.deep_view().push(
                entry@,
            ));
        }
        msg
    }

    /// Moves the instance `instance_id` past its current step, recording the
    /// step as completed now; see `advance_instance_at`.
    pub fn advance_instance(&mut self, instance_id: &str) -> (msg: String)
        ensures
            exists|at: Seq<char>|
                #[trigger] advance_outcome(*old(self), *final(self), instance_id@, at, msg@),
    {
        let at = now();
        let ghost at_view = at@;
        let msg = self.advance_instance_at(instance_id, at);
        assert(advance_outcome(*old(self), *self, instance_id@, at_view, msg@));
        msg
    }
}

} // verus!
