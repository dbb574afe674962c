use mcp_workflow::server::{
    ApprovalDecisionInput, ApprovalInput, CaseInput, CaseNoteInput, CaseUpdateInput, InstanceIdInput,
    StartInstanceInput, TaskInput, TaskUpdateInput, TransitionFields, TransitionInput,
    WorkflowDefInput, WorkflowServer,
};
use mcp_workflow::store::WorkflowError;

fn s(x: &str) -> String {
    x.to_string()
}

fn fields(from: &str, to: &str, action: &str) -> TransitionFields {
    TransitionFields {
        from: Some(s(from)),
        to: Some(s(to)),
        action: Some(s(action)),
        requires_approval: None,
        allowed_roles: None,
    }
}

fn is_prefixed_id(id: &str, prefix: &str) -> bool {
    id.len() == prefix.len() + 8
        && id.starts_with(prefix)
        && id[prefix.len()..].chars().all(|c| c.is_ascii_digit() || ('a'..='f').contains(&c))
}

fn document_workflow(server: &mut WorkflowServer) -> String {
    server.workflow_create(WorkflowDefInput {
        name: s("Document review"),
        description: None,
        states: vec![s("draft"), s("review"), s("approved"), s("rejected")],
        initial_state: s("draft"),
        terminal_states: vec![s("approved"), s("rejected")],
        transitions: vec![
            fields("draft", "review", "submit"),
            fields("review", "approved", "approve"),
            fields("review", "rejected", "reject"),
            fields("review", "draft", "revise"),
        ],
    })
}

fn start(server: &mut WorkflowServer, wf: &str) -> String {
    server
        .instance_start(StartInstanceInput {
            workflow_id: s(wf),
            entity_type: s("document"),
            entity_id: s("doc-7"),
            metadata: None,
        })
        .unwrap()
}

fn move_by(server: &mut WorkflowServer, inst: &str, action: &str) -> Result<mcp_workflow::store::TransitionReply, WorkflowError> {
    server.instance_transition(TransitionInput {
        instance_id: s(inst),
        action: s(action),
        actor: s("alice"),
        comment: None,
    })
}

#[test]
fn workflow_create_keeps_complete_transitions_only() {
    let mut server = WorkflowServer::new();
    let id = server.workflow_create(WorkflowDefInput {
        name: s("Orders"),
        description: Some(s("order lifecycle")),
        states: vec![s("new"), s("paid")],
        initial_state: s("new"),
        terminal_states: vec![s("paid")],
        transitions: vec![
            TransitionFields {
                from: Some(s("new")),
                to: Some(s("paid")),
                action: Some(s("pay")),
                requires_approval: Some(true),
                allowed_roles: Some(vec![Some(s("clerk")), None, Some(s("admin"))]),
            },
            TransitionFields { from: Some(s("new")), to: None, action: Some(s("x")), requires_approval: None, allowed_roles: None },
            fields("paid", "new", "refund"),
        ],
    });
    assert!(is_prefixed_id(&id, "wf_"));
    let wfs = server.workflow_list();
    assert_eq!(wfs.len(), 1);
    let w = &wfs[0];
    assert_eq!(w.id, id);
    assert_eq!(w.name, "Orders");
    assert_eq!(w.description, "order lifecycle");
    assert!(!w.created_at.is_empty());
    assert_eq!(w.transitions.len(), 2);
    assert_eq!(w.transitions[0].action, "pay");
    assert!(w.transitions[0].requires_approval);
    assert_eq!(w.transitions[0].allowed_roles, vec![s("clerk"), s("admin")]);
    assert_eq!(w.transitions[1].action, "refund");
    assert!(!w.transitions[1].requires_approval);
    assert!(w.transitions[1].allowed_roles.is_empty());
}

#[test]
fn workflow_create_defaults_description() {
    let mut server = WorkflowServer::new();
    document_workflow(&mut server);
    assert_eq!(server.workflow_list()[0].description, "");
}

#[test]
fn instance_start_unknown_workflow_is_refused() {
    let mut server = WorkflowServer::new();
    let r = server.instance_start(StartInstanceInput {
        workflow_id: s("wf_missing"),
        entity_type: s("order"),
        entity_id: s("o-1"),
        metadata: None,
    });
    assert_eq!(r, None);
    assert!(server.store().instances().is_empty());
}

#[test]
fn instance_starts_in_initial_state() {
    let mut server = WorkflowServer::new();
    let wf = document_workflow(&mut server);
    let inst = start(&mut server, &wf);
    assert!(is_prefixed_id(&inst, "inst_"));
    let got = server.instance_get(&InstanceIdInput { instance_id: inst.clone() }).unwrap();
    assert_eq!(got.workflow_id, wf);
    assert_eq!(got.current_state, "draft");
    assert!(got.history.is_empty());
    assert_eq!(got.metadata, "{}");
    assert_eq!(got.entity_type, "document");
    assert_eq!(got.entity_id, "doc-7");
}

#[test]
fn instance_start_keeps_given_metadata() {
    let mut server = WorkflowServer::new();
    let wf = document_workflow(&mut server);
    let inst = server
        .instance_start(StartInstanceInput {
            workflow_id: wf,
            entity_type: s("document"),
            entity_id: s("doc-8"),
            metadata: Some(s("{\"pages\":3}")),
        })
        .unwrap();
    let got = server.instance_get(&InstanceIdInput { instance_id: inst }).unwrap();
    assert_eq!(got.metadata, "{\"pages\":3}");
}

#[test]
fn transitions_follow_the_workflow() {
    let mut server = WorkflowServer::new();
    let wf = document_workflow(&mut server);
    let inst = start(&mut server, &wf);
    let r = move_by(&mut server, &inst, "submit").unwrap();
    assert_eq!((r.from.as_str(), r.to.as_str(), r.action.as_str(), r.is_terminal), ("draft", "review", "submit", false));
    let r = move_by(&mut server, &inst, "approve").unwrap();
    assert_eq!((r.from.as_str(), r.to.as_str(), r.is_terminal), ("review", "approved", true));
    let got = server.instance_get(&InstanceIdInput { instance_id: inst }).unwrap();
    assert_eq!(got.current_state, "approved");
    assert_eq!(got.history.len(), 2);
    assert_eq!(got.history[0].from, "draft");
    assert_eq!(got.history[0].to, "review");
    assert_eq!(got.history[1].action, "approve");
    assert_eq!(got.history[1].actor, "alice");
    assert_eq!(got.history.last().unwrap().to, got.current_state);
}

#[test]
fn transition_keeps_comment() {
    let mut server = WorkflowServer::new();
    let wf = document_workflow(&mut server);
    let inst = start(&mut server, &wf);
    server
        .instance_transition(TransitionInput {
            instance_id: inst.clone(),
            action: s("submit"),
            actor: s("bob"),
            comment: Some(s("ready")),
        })
        .unwrap();
    let got = server.instance_get(&InstanceIdInput { instance_id: inst }).unwrap();
    assert_eq!(got.history[0].comment.as_deref(), Some("ready"));
    assert_eq!(got.history[0].actor, "bob");
}

#[test]
fn invalid_transition_lists_valid_actions() {
    let mut server = WorkflowServer::new();
    let wf = document_workflow(&mut server);
    let inst = start(&mut server, &wf);
    move_by(&mut server, &inst, "submit").unwrap();
    match move_by(&mut server, &inst, "publish") {
        Err(WorkflowError::InvalidTransition { current_state, attempted_action, valid_actions }) => {
            assert_eq!(current_state, "review");
            assert_eq!(attempted_action, "publish");
            assert_eq!(valid_actions, vec![s("approve"), s("reject"), s("revise")]);
        }
        other => panic!("unexpected {:?}", other),
    }
    let got = server.instance_get(&InstanceIdInput { instance_id: inst }).unwrap();
    assert_eq!(got.current_state, "review");
    assert_eq!(got.history.len(), 1);
}

#[test]
fn transition_of_unknown_instance_is_refused() {
    let mut server = WorkflowServer::new();
    document_workflow(&mut server);
    assert!(matches!(move_by(&mut server, "inst_00000000", "submit"), Err(WorkflowError::InstanceNotFound)));
}

#[test]
fn instance_get_unknown_is_none() {
    let server = WorkflowServer::new();
    assert!(server.instance_get(&InstanceIdInput { instance_id: s("x") }).is_none());
}

#[test]
fn task_create_fills_defaults() {
    let mut server = WorkflowServer::new();
    let id = server.task_create(TaskInput {
        title: s("Write report"),
        description: None,
        priority: None,
        assignee: None,
        reporter: s("carol"),
        due_date: None,
        tags: None,
        workflow_instance_id: None,
        parent_task_id: None,
    });
    assert!(is_prefixed_id(&id, "task_"));
    let t = &server.task_list()[0];
    assert_eq!(t.id, id);
    assert_eq!(t.status, "open");
    assert_eq!(t.priority, "medium");
    assert_eq!(t.description, "");
    assert!(t.tags.is_empty());
    assert_eq!(t.metadata, "{}");
    assert_eq!(t.reporter, "carol");
}

#[test]
fn task_update_changes_given_fields_only() {
    let mut server = WorkflowServer::new();
    let id = server.task_create(TaskInput {
        title: s("Fix bug"),
        description: Some(s("crash on start")),
        priority: Some(s("high")),
        assignee: Some(s("dave")),
        reporter: s("erin"),
        due_date: Some(s("2026-07-01")),
        tags: Some(vec![s("bug")]),
        workflow_instance_id: None,
        parent_task_id: None,
    });
    let r = server
        .task_update(TaskUpdateInput { task_id: id.clone(), status: Some(s("in_progress")), assignee: None, priority: None })
        .unwrap();
    assert_eq!(r.id, id);
    assert_eq!(r.current_status, "in_progress");
    let t = &server.task_list()[0];
    assert_eq!(t.priority, "high");
    assert_eq!(t.assignee.as_deref(), Some("dave"));
    let r = server
        .task_update(TaskUpdateInput { task_id: id.clone(), status: None, assignee: Some(s("frank")), priority: Some(s("low")) })
        .unwrap();
    assert_eq!(r.current_status, "in_progress");
    let t = &server.task_list()[0];
    assert_eq!(t.assignee.as_deref(), Some("frank"));
    assert_eq!(t.priority, "low");
    assert_eq!(t.tags, vec![s("bug")]);
}

#[test]
fn task_update_unknown_is_refused() {
    let mut server = WorkflowServer::new();
    let r = server.task_update(TaskUpdateInput { task_id: s("task_x"), status: Some(s("done")), assignee: None, priority: None });
    assert!(matches!(r, Err(WorkflowError::TaskNotFound)));
}

fn approval(server: &mut WorkflowServer, approvers: &[&str]) -> String {
    server.approval_create(ApprovalInput {
        title: s("Budget"),
        description: None,
        requester: s("gina"),
        approvers: approvers.iter().map(|a| s(a)).collect(),
        entity_type: s("expense"),
        entity_id: s("exp-1"),
        due_date: None,
    })
}

fn decide(server: &mut WorkflowServer, id: &str, approver: &str, decision: &str) -> Result<mcp_workflow::store::DecisionReply, WorkflowError> {
    server.approval_decide(ApprovalDecisionInput {
        approval_id: s(id),
        approver: s(approver),
        decision: s(decision),
        comment: None,
    })
}

#[test]
fn approval_create_is_pending() {
    let mut server = WorkflowServer::new();
    let id = approval(&mut server, &["hank"]);
    assert!(is_prefixed_id(&id, "appr_"));
    let a = &server.approval_list()[0];
    assert_eq!(a.status, "pending");
    assert!(a.decisions.is_empty());
    assert_eq!(a.metadata, "{}");
}

#[test]
fn approval_approved_when_all_approve() {
    let mut server = WorkflowServer::new();
    let id = approval(&mut server, &["hank", "ivy"]);
    let r = decide(&mut server, &id, "hank", "approved").unwrap();
    assert_eq!((r.status.as_str(), r.decisions, r.total_approvers), ("pending", 1, 2));
    let r = decide(&mut server, &id, "ivy", "approved").unwrap();
    assert_eq!((r.status.as_str(), r.decisions, r.total_approvers), ("approved", 2, 2));
    assert_eq!(r.approval_id, id);
}

#[test]
fn approval_rejected_when_one_rejects() {
    let mut server = WorkflowServer::new();
    let id = approval(&mut server, &["hank", "ivy"]);
    decide(&mut server, &id, "hank", "rejected").unwrap();
    let r = decide(&mut server, &id, "ivy", "approved").unwrap();
    assert_eq!(r.status, "rejected");
}

#[test]
fn settled_approval_refuses_decisions() {
    let mut server = WorkflowServer::new();
    let id = approval(&mut server, &["hank"]);
    assert_eq!(decide(&mut server, &id, "hank", "approved").unwrap().status, "approved");
    match decide(&mut server, &id, "hank", "rejected") {
        Err(WorkflowError::ApprovalNotPending { status }) => assert_eq!(status, "approved"),
        other => panic!("unexpected {:?}", other),
    }
    assert_eq!(server.store().approvals()[0].decisions.len(), 1);
}

#[test]
fn approval_refuses_non_approver() {
    let mut server = WorkflowServer::new();
    let id = approval(&mut server, &["hank"]);
    assert!(matches!(decide(&mut server, &id, "mallory", "approved"), Err(WorkflowError::NotAnApprover)));
    assert!(server.approval_list()[0].decisions.is_empty());
}

#[test]
fn approval_unknown_is_refused() {
    let mut server = WorkflowServer::new();
    assert!(matches!(decide(&mut server, "appr_x", "hank", "approved"), Err(WorkflowError::ApprovalNotFound)));
}

#[test]
fn approval_waits_for_every_approver() {
    let mut server = WorkflowServer::new();
    let id = approval(&mut server, &["hank", "ivy"]);
    decide(&mut server, &id, "hank", "approved").unwrap();
    let r = decide(&mut server, &id, "hank", "approved").unwrap();
    assert_eq!((r.status.as_str(), r.decisions), ("pending", 2));
    let r = decide(&mut server, &id, "ivy", "approved").unwrap();
    assert_eq!((r.status.as_str(), r.decisions, r.total_approvers), ("approved", 3, 2));
}

#[test]
fn approval_list_holds_pending_only() {
    let mut server = WorkflowServer::new();
    let settled = approval(&mut server, &["hank"]);
    let open = approval(&mut server, &["ivy"]);
    decide(&mut server, &settled, "hank", "rejected").unwrap();
    let list = server.approval_list();
    assert_eq!(list.len(), 1);
    assert_eq!(list[0].id, open);
    assert_eq!(server.store().approvals().len(), 2);
}

#[test]
fn terminal_state_ends_the_workflow() {
    let mut server = WorkflowServer::new();
    let wf = server.workflow_create(WorkflowDefInput {
        name: s("Reopenable"),
        description: None,
        states: vec![s("open"), s("closed")],
        initial_state: s("open"),
        terminal_states: vec![s("closed")],
        transitions: vec![fields("open", "closed", "close"), fields("closed", "open", "reopen")],
    });
    let inst = start(&mut server, &wf);
    assert!(move_by(&mut server, &inst, "close").unwrap().is_terminal);
    match move_by(&mut server, &inst, "reopen") {
        Err(WorkflowError::WorkflowEnded { current_state }) => assert_eq!(current_state, "closed"),
        other => panic!("unexpected {:?}", other),
    }
    let got = server.instance_get(&InstanceIdInput { instance_id: inst }).unwrap();
    assert_eq!(got.current_state, "closed");
    assert_eq!(got.history.len(), 1);
}

#[test]
fn terminal_state_without_way_out_is_invalid_transition() {
    let mut server = WorkflowServer::new();
    let wf = document_workflow(&mut server);
    let inst = start(&mut server, &wf);
    move_by(&mut server, &inst, "submit").unwrap();
    move_by(&mut server, &inst, "approve").unwrap();
    match move_by(&mut server, &inst, "submit") {
        Err(WorkflowError::InvalidTransition { current_state, attempted_action, valid_actions }) => {
            assert_eq!(current_state, "approved");
            assert_eq!(attempted_action, "submit");
            assert!(valid_actions.is_empty());
        }
        other => panic!("unexpected {:?}", other),
    }
}

#[test]
fn started_instance_reads_back_after_other_requests() {
    let mut server = WorkflowServer::new();
    let wf = document_workflow(&mut server);
    let inst = start(&mut server, &wf);
    let other = start(&mut server, &wf);
    move_by(&mut server, &other, "submit").unwrap();
    approval(&mut server, &["hank"]);
    server.task_create(TaskInput {
        title: s("t"),
        description: None,
        priority: None,
        assignee: None,
        reporter: s("r"),
        due_date: None,
        tags: None,
        workflow_instance_id: Some(inst.clone()),
        parent_task_id: None,
    });
    let got = server.instance_get(&InstanceIdInput { instance_id: inst.clone() }).unwrap();
    assert_eq!(got.id, inst);
    assert_eq!(got.workflow_id, wf);
    assert_eq!(got.current_state, "draft");
    assert!(got.history.is_empty());
    assert_eq!(got.metadata, "{}");
}

#[test]
fn cases_take_notes_and_updates() {
    let mut server = WorkflowServer::new();
    let id = server.case_create(CaseInput {
        title: s("Login fails"),
        description: None,
        case_type: s("support"),
        priority: None,
        assignee: None,
        reporter: s("jack"),
        tags: Some(vec![s("auth")]),
    });
    assert!(is_prefixed_id(&id, "case_"));
    {
        let c = &server.case_list()[0];
        assert_eq!(c.status, "open");
        assert_eq!(c.priority, "medium");
        assert!(c.notes.is_empty());
    }
    let r = server.case_add_note(CaseNoteInput { case_id: id.clone(), author: s("kim"), text: s("looking") }).unwrap();
    assert_eq!((r.case_id.as_str(), r.notes_count), (id.as_str(), 1));
    let r = server.case_add_note(CaseNoteInput { case_id: id.clone(), author: s("kim"), text: s("fixed") }).unwrap();
    assert_eq!(r.notes_count, 2);
    let r = server
        .case_update(CaseUpdateInput { case_id: id.clone(), status: Some(s("resolved")), assignee: Some(s("kim")), priority: None })
        .unwrap();
    assert_eq!(r.current_status, "resolved");
    let c = &server.case_list()[0];
    assert_eq!(c.notes[1].text, "fixed");
    assert_eq!(c.assignee.as_deref(), Some("kim"));
    assert_eq!(c.priority, "medium");
    assert_eq!(c.tags, vec![s("auth")]);
}

#[test]
fn case_requests_on_unknown_case_are_refused() {
    let mut server = WorkflowServer::new();
    let r = server.case_add_note(CaseNoteInput { case_id: s("case_x"), author: s("a"), text: s("b") });
    assert!(matches!(r, Err(WorkflowError::CaseNotFound)));
    let r = server.case_update(CaseUpdateInput { case_id: s("case_x"), status: None, assignee: None, priority: None });
    assert!(matches!(r, Err(WorkflowError::CaseNotFound)));
    assert!(server.case_list().is_empty());
}
