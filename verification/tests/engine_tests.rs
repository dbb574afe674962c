use mcp_workflow::domain::{InstanceStatus, StepType, WorkflowInstance};
use mcp_workflow::engine::Engine;

fn instance(id: &str, workflow_id: &str, current_step: &str) -> WorkflowInstance {
    WorkflowInstance {
        id: id.to_string(),
        workflow_id: workflow_id.to_string(),
        workflow_name: "test".to_string(),
        current_step: current_step.to_string(),
        status: InstanceStatus::Running,
        context: "{}".to_string(),
        history: vec![],
        started_at: "2026-01-01T00:00:00Z".to_string(),
    }
}

#[test]
fn seeded_holds_three_demo_workflows() {
    let e = Engine::seeded();
    let ids: Vec<&str> = e.definitions.iter().map(|d| d.id.as_str()).collect();
    assert_eq!(ids, vec!["wf-onboard", "wf-deploy", "wf-expense"]);
    let names: Vec<&str> = e.definitions.iter().map(|d| d.name.as_str()).collect();
    assert_eq!(names, vec!["Employee Onboarding", "Production Deployment", "Expense Approval"]);
    let counts: Vec<usize> = e.definitions.iter().map(|d| d.steps.len()).collect();
    assert_eq!(counts, vec![3, 5, 4]);
    let onboard = &e.definitions[0];
    assert_eq!(onboard.steps[1].name, "Manager approval");
    assert_eq!(onboard.steps[1].step_type, StepType::Approval);
    assert_eq!(onboard.steps[1].on_reject.as_deref(), Some("s1"));
    assert_eq!(onboard.steps[1].assignee.as_deref(), Some("manager"));
    assert_eq!(onboard.steps[2].next, None);
    assert_eq!(
        onboard.description,
        "New hire onboarding: IT setup \u{2192} manager approval \u{2192} welcome email"
    );
    assert_eq!(e.definitions[1].steps[2].assignee.as_deref(), Some("tech-lead"));
    assert_eq!(e.definitions[2].steps[3].name, "Process reimbursement");
}

#[test]
fn seeded_instance_waits_for_manager_approval() {
    let e = Engine::seeded();
    assert_eq!(e.instances.len(), 1);
    let inst = &e.instances[0];
    assert_eq!(inst.id, "inst-1");
    assert_eq!(inst.current_step, "s2");
    assert_eq!(inst.status, InstanceStatus::WaitingApproval);
    assert_eq!(inst.history.len(), 1);
    assert_eq!(inst.history[0].step_id, "s1");
    assert_eq!(inst.history[0].completed_at, "2026-05-24T10:00:00Z");
    let ctx: serde_json::Value = serde_json::from_str(&inst.context).unwrap();
    assert_eq!(ctx["employee"], "Frank Ochieng");
    let result: serde_json::Value =
        serde_json::from_str(inst.history[0].result.as_deref().unwrap()).unwrap();
    assert_eq!(result["accounts"][1], "slack");
    assert_eq!(e.approvals.len(), 1);
    assert_eq!(e.approvals[0].id, "apr-1");
    assert_eq!(e.approvals[0].status, "pending");
    assert_eq!(e.approvals[0].assignee, "alice@company.com");
}

#[test]
fn pending_approval_holds_instance() {
    let mut e = Engine::seeded();
    let msg = e.advance_instance("inst-1");
    assert_eq!(msg, "Step 'Manager approval' is waiting for approval");
    let inst = &e.instances[0];
    assert_eq!(inst.current_step, "s2");
    assert_eq!(inst.status, InstanceStatus::WaitingApproval);
    assert_eq!(inst.history.len(), 1);
}

#[test]
fn advance_from_approval_step_runs_next_step() {
    let mut e = Engine::seeded();
    e.approvals[0].status = "approved".to_string();
    let msg = e.advance_instance_at("inst-1", "2026-06-01T00:00:00Z".to_string());
    assert_eq!(msg, "Advanced to step 's3'");
    let inst = &e.instances[0];
    assert_eq!(inst.current_step, "s3");
    assert_eq!(inst.status, InstanceStatus::Running);
    assert_eq!(inst.history.len(), 2);
    assert_eq!(inst.history[1].step_id, "s2");
    assert_eq!(inst.history[1].step_name, "Manager approval");
    assert_eq!(inst.history[1].status, "completed");
    assert_eq!(inst.history[1].completed_at, "2026-06-01T00:00:00Z");
    assert_eq!(inst.history[1].result, None);
}

#[test]
fn advance_past_last_step_completes() {
    let mut e = Engine::seeded();
    e.approvals[0].status = "approved".to_string();
    e.advance_instance("inst-1");
    let msg = e.advance_instance("inst-1");
    assert_eq!(msg, "Workflow completed");
    let inst = &e.instances[0];
    assert_eq!(inst.status, InstanceStatus::Completed);
    assert_eq!(inst.current_step, "s3");
    assert_eq!(inst.history.len(), 3);
    assert_eq!(inst.history[2].step_id, "s3");
    assert!(!inst.history[2].completed_at.is_empty());
}

#[test]
fn advance_into_approval_step_waits() {
    let mut e = Engine::seeded();
    e.instances.push(instance("inst-2", "wf-deploy", "s2"));
    let msg = e.advance_instance_at("inst-2", "t".to_string());
    assert_eq!(msg, "Advanced to 'Tech lead approval' \u{2014} waiting for approval");
    assert_eq!(e.instances[1].status, InstanceStatus::WaitingApproval);
    assert_eq!(e.instances[1].current_step, "s3");
}

#[test]
fn advance_reports_missing_instance() {
    let mut e = Engine::seeded();
    let msg = e.advance_instance("nope");
    assert_eq!(msg, "Instance nope not found");
    assert_eq!(e.instances[0].history.len(), 1);
}

#[test]
fn advance_reports_missing_definition() {
    let mut e = Engine::seeded();
    e.instances.push(instance("inst-2", "wf-gone", "s1"));
    let msg = e.advance_instance("inst-2");
    assert_eq!(msg, "Workflow definition not found");
    assert!(e.instances[1].history.is_empty());
    assert_eq!(e.instances[1].status, InstanceStatus::Running);
}

#[test]
fn advance_reports_missing_step() {
    let mut e = Engine::seeded();
    e.instances.push(instance("inst-2", "wf-expense", "s9"));
    let msg = e.advance_instance("inst-2");
    assert_eq!(msg, "Current step not found");
    assert!(e.instances[1].history.is_empty());
    assert_eq!(e.instances[1].current_step, "s9");
}

#[test]
fn advance_to_unknown_next_step_runs() {
    let mut e = Engine::seeded();
    e.definitions[2].steps[0].next = Some("s7".to_string());
    e.instances.push(instance("inst-2", "wf-expense", "s1"));
    let msg = e.advance_instance("inst-2");
    assert_eq!(msg, "Advanced to step 's7'");
    assert_eq!(e.instances[1].status, InstanceStatus::Running);
    assert_eq!(e.instances[1].current_step, "s7");
}
