use herdr_core::handoff::{
    file_manager_agent_handoff_is_current, reference_send, AgentReferenceRequest, HandoffEntry,
};

fn request(path: Option<&str>) -> AgentReferenceRequest {
    AgentReferenceRequest {
        path: path.map(str::to_string),
        workspace_id: "ws-1".into(),
        pane_id: 3,
        terminal_id: "term-7".into(),
    }
}

fn entries() -> Vec<HandoffEntry> {
    vec![
        HandoffEntry { path: "/w/notes.md".into(), operation_supported: true },
        HandoffEntry { path: "/w/..".into(), operation_supported: false },
    ]
}

#[test]
fn a_handoff_holds_only_while_every_binding_holds() {
    let req = request(Some("/w/notes.md"));
    assert!(file_manager_agent_handoff_is_current(false, &req, &entries(), Some("term-7"), true));
    assert!(!file_manager_agent_handoff_is_current(true, &req, &entries(), Some("term-7"), true));
    assert!(!file_manager_agent_handoff_is_current(false, &req, &entries(), Some("term-8"), true));
    assert!(!file_manager_agent_handoff_is_current(false, &req, &entries(), None, true));
    assert!(!file_manager_agent_handoff_is_current(false, &req, &entries(), Some("term-7"), false));
    assert!(!file_manager_agent_handoff_is_current(false, &request(None), &entries(), Some("term-7"), true));
    assert!(!file_manager_agent_handoff_is_current(false, &request(Some("/w/gone")), &entries(), Some("term-7"), true));
    assert!(!file_manager_agent_handoff_is_current(false, &request(Some("/w/..")), &entries(), Some("term-7"), true));
}

#[test]
fn a_reference_sends_exactly_its_path_bytes() {
    assert_eq!(reference_send(true, true, Some("/w/notes.md")), Ok(b"/w/notes.md".to_vec()));
    assert_eq!(reference_send(false, true, Some("/w/a")), Err("agent handoff authority changed"));
    assert_eq!(reference_send(true, false, Some("/w/a")), Err("reference path is unavailable"));
    assert_eq!(reference_send(true, true, None), Err("agent handoff authority changed"));
}
