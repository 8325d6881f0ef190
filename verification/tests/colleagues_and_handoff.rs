use herdr_core::bar_keys::PanelKey;
use herdr_core::colleagues::{
    classify_colleagues, colleague_popup_rect, colleague_row_at, AgentColleaguePickerState,
    AgentColleagueRow, ColleagueEntry, ColleagueRelation, PickerOutcome,
};
use herdr_core::geometry::CellRect;
use herdr_core::handoff::{
    agent_attachment_payload, attachment_delivery, reference_text_is_deliverable,
    send_failure_context, TerminalInputSendError,
};

fn entry(ws_idx: usize, tab_idx: usize, label: &str) -> ColleagueEntry {
    ColleagueEntry { ws_idx, tab_idx, primary_label: label.to_string(), agent_label: None }
}

#[test]
fn colleagues_are_classified_and_sorted_by_nearness() {
    let spaces: Vec<Option<String>> = vec![None, None];
    let rows = classify_colleagues(
        vec![entry(1, 0, "far"), entry(0, 1, "near"), entry(0, 0, "me")],
        &spaces,
        0,
        0,
    );
    assert_eq!(
        rows.iter().map(|row| row.label.as_str()).collect::<Vec<_>>(),
        vec!["near", "far"],
        "the source row is excluded and the same-branch colleague leads"
    );
    assert_eq!(rows[0].relation, Some(ColleagueRelation::SameBranch));
    assert_eq!(rows[1].relation, Some(ColleagueRelation::Elsewhere));
}

#[test]
fn a_shared_space_sits_between_branch_and_elsewhere() {
    let spaces: Vec<Option<String>> =
        vec![Some("work".to_string()), Some("home".to_string()), Some("work".to_string())];
    let mut named = entry(2, 0, "panel label");
    named.agent_label = Some("critic".to_string());
    let rows = classify_colleagues(
        vec![entry(1, 0, "far"), named, entry(0, 2, "branch"), entry(5, 0, "unknown ws")],
        &spaces,
        0,
        0,
    );
    let labels: Vec<&str> = rows.iter().map(|row| row.label.as_str()).collect();
    assert_eq!(labels, vec!["branch", "critic", "far", "unknown ws"]);
    assert_eq!(rows[1].relation, Some(ColleagueRelation::SameSpace));
    assert_eq!(ColleagueRelation::SameSpace.label(), "same space");
    assert_eq!(ColleagueRelation::Elsewhere.label(), "different space");
}

#[test]
fn a_lonely_agent_sees_the_placeholder_and_enter_does_nothing() {
    let spaces: Vec<Option<String>> = vec![None];
    let rows = classify_colleagues(vec![entry(0, 0, "me")], &spaces, 0, 0);
    let mut picker = AgentColleaguePickerState::open(rows, 0, 0);
    assert_eq!(picker.rows.len(), 1);
    assert!(!picker.rows[0].live);
    assert_eq!(picker.rows[0].label, "(no other agents running)");
    assert_eq!(picker.handle_key(PanelKey::Enter), PickerOutcome::Nothing);
}

#[test]
fn activating_a_colleague_jumps_to_its_tab() {
    let mut picker = AgentColleaguePickerState::open(
        vec![
            AgentColleagueRow {
                label: "peer".to_string(),
                relation: Some(ColleagueRelation::Elsewhere),
                ws_idx: 1,
                tab_idx: 1,
                live: true,
            },
            AgentColleagueRow {
                label: "other".to_string(),
                relation: Some(ColleagueRelation::Elsewhere),
                ws_idx: 2,
                tab_idx: 0,
                live: true,
            },
        ],
        0,
        0,
    );
    assert_eq!(picker.handle_key(PanelKey::Enter), PickerOutcome::Jump { ws_idx: 1, tab_idx: 1 });
    picker.handle_key(PanelKey::Down);
    picker.handle_key(PanelKey::Char('j'));
    assert_eq!(picker.selected, 1, "held at the last row");
    assert_eq!(picker.handle_key(PanelKey::Enter), PickerOutcome::Jump { ws_idx: 2, tab_idx: 0 });
    picker.handle_key(PanelKey::Char('k'));
    picker.handle_key(PanelKey::Up);
    assert_eq!(picker.selected, 0, "held at the first row");
    assert_eq!(picker.handle_key(PanelKey::Esc), PickerOutcome::Close);
}

#[test]
fn the_picker_popup_is_the_reference_pickers_geometry() {
    let area = CellRect { x: 0, y: 0, width: 80, height: 24 };
    assert_eq!(
        colleague_popup_rect(area, 3),
        Some(CellRect { x: 18, y: 8, width: 44, height: 7 })
    );
    assert_eq!(colleague_row_at(area, 3, 20, 11), Some(0));
    assert_eq!(colleague_row_at(area, 3, 20, 14), None);
}

#[test]
fn attachment_payload_rejects_more_than_one_mib_including_enter() {
    let at_limit = "a".repeat(1024 * 1024 - 1);
    assert_eq!(agent_attachment_payload(Some(&at_limit)).unwrap().len(), 1024 * 1024);
    let too_large = "a".repeat(1024 * 1024);
    assert_eq!(agent_attachment_payload(Some(&too_large)), Err("attachment path exceeds 1 MiB"));
}

#[test]
fn attachment_payload_rejects_non_utf8_path_and_ends_with_enter() {
    assert_eq!(agent_attachment_payload(None), Err("attachment path is not valid UTF-8"));
    assert_eq!(agent_attachment_payload(Some("/t/ü.txt")).unwrap(), b"/t/\xc3\xbc.txt\r".to_vec());
}

#[test]
fn delivery_checks_run_in_order() {
    assert_eq!(
        attachment_delivery(false, true, true, Some("/x"), true),
        Err("attachment target changed")
    );
    assert_eq!(
        attachment_delivery(true, true, false, Some("/x"), true),
        Err("attachment selection changed")
    );
    assert_eq!(
        attachment_delivery(true, true, true, None, true),
        Err("attachment path is not valid UTF-8")
    );
    assert_eq!(
        attachment_delivery(true, true, true, Some("/x"), false),
        Err("selected attachment is no longer a regular file")
    );
    assert_eq!(attachment_delivery(true, true, true, Some("/x"), true), Ok(b"/x\r".to_vec()));
}

#[test]
fn reference_text_refuses_control_characters() {
    assert!(reference_text_is_deliverable(Some("space 'quote' $(touch nope) ünicode.txt")));
    assert!(!reference_text_is_deliverable(Some("line\nbreak")));
    assert!(!reference_text_is_deliverable(Some("del\u{7f}")));
    assert!(!reference_text_is_deliverable(Some("c1\u{85}")));
    assert!(!reference_text_is_deliverable(None));
}

#[test]
fn a_full_queue_is_busy_input() {
    assert_eq!(send_failure_context(TerminalInputSendError::SendFailed { busy: true }), "agent input is busy");
    assert_eq!(
        send_failure_context(TerminalInputSendError::SendFailed { busy: false }),
        "agent runtime is unavailable"
    );
    assert_eq!(
        send_failure_context(TerminalInputSendError::RuntimeUnavailable),
        "agent runtime is unavailable"
    );
}
