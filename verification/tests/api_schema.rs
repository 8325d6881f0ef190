use herdr_core::api_schema::{
    closed_agent_infos, revive_answer, seat_report, seat_source, unseat_saves, ChatSeatEntry,
    ChatSeatParams, SeatOutcome,
};
use herdr_core::closed_agents::{
    AgentSessionRef, ClosedAgentLedger, ClosedAgentRecord, PersistedAgentSession, RevivalRefusal,
    RevivalState,
};

fn ghost(id: &str, closed_at: u64) -> ClosedAgentRecord {
    ClosedAgentRecord {
        agent_id: id.to_string(),
        label: format!("Agent — {id}"),
        cwd: Some(format!("/tmp/{id}")),
        workspace_key: Some("ws-main".into()),
        session: AgentSessionRef::id(format!("session-{id}")).map(|session_ref| PersistedAgentSession {
            source: "herdr:drawer-agent".into(),
            agent: "drawer-agent".into(),
            session_ref,
        }),
        closed_at,
        revival: RevivalState::Dormant,
    }
}

#[test]
fn the_session_snapshot_carries_closed_agents_newest_first() {
    let mut ledger = ClosedAgentLedger::default();
    ledger.record_closed(ghost("ghost-a", 1));
    ledger.record_closed(ghost("ghost-b", 2));
    assert!(ledger.try_begin_revival("ghost-b"));

    let ghosts = closed_agent_infos(&ledger);
    assert_eq!(ghosts.len(), 2);
    assert_eq!(ghosts[0].agent_id, "ghost-b");
    assert_eq!(ghosts[0].closed_at, 2);
    assert!(ghosts[0].reviving, "in-flight revival state travels the wire");
    assert_eq!(ghosts[0].cwd.as_deref(), Some("/tmp/ghost-b"));
    assert_eq!(ghosts[0].workspace_id.as_deref(), Some("ws-main"));
    assert_eq!(ghosts[0].session_id.as_deref(), Some("session-ghost-b"));
    assert_eq!(ghosts[1].agent_id, "ghost-a");
    assert!(!ghosts[1].reviving);
}

#[test]
fn an_empty_graveyard_gives_no_rows() {
    let ledger = ClosedAgentLedger::default();
    assert!(closed_agent_infos(&ledger).is_empty());
}

#[test]
fn a_ghost_without_a_recipe_shows_no_session() {
    let mut ledger = ClosedAgentLedger::default();
    let mut record = ghost("bare", 3);
    record.session = None;
    record.cwd = None;
    ledger.record_closed(record);
    let rows = closed_agent_infos(&ledger);
    assert_eq!(rows[0].session_id, None);
    assert_eq!(rows[0].cwd, None);
    assert_eq!(rows[0].label, "Agent — bare");
}

#[test]
fn revival_travels_the_api_road_with_visible_refusals() {
    let refused = revive_answer(Err(RevivalRefusal::UnknownGhost)).unwrap_err();
    assert_eq!(refused.code, "unknown_closed_agent");
    assert_eq!(refused.message, RevivalRefusal::UnknownGhost.message());
    assert!(revive_answer(Ok(())).is_ok());
    let in_flight = revive_answer(Err(RevivalRefusal::RevivalInFlight)).unwrap_err();
    assert_eq!(in_flight.code, "revival_in_flight");
}

fn seat_params(source: Option<&str>) -> ChatSeatParams {
    ChatSeatParams {
        seats: vec![ChatSeatEntry { session_id: "s1".into(), target_key: "/repo".into() }],
        source: source.map(str::to_string),
    }
}

#[test]
fn a_blank_or_missing_source_seats_as_the_user() {
    assert_eq!(seat_source(&seat_params(None)), "user");
    assert_eq!(seat_source(&seat_params(Some("   "))), "user");
    assert_eq!(seat_source(&seat_params(Some(""))), "user");
    assert_eq!(seat_source(&seat_params(Some("seat-plan"))), "seat-plan");
    assert_eq!(seat_source(&seat_params(Some(" seat-plan "))), " seat-plan ");
}

#[test]
fn the_seat_report_counts_every_entry_once() {
    let outcomes = vec![
        SeatOutcome::Applied,
        SeatOutcome::Refused,
        SeatOutcome::Applied,
        SeatOutcome::Unchanged,
    ];
    let report = seat_report(&outcomes);
    assert_eq!((report.applied, report.unchanged, report.refused), (2, 1, 1));
    assert!(report.saves());
    let quiet = seat_report(&vec![SeatOutcome::Unchanged, SeatOutcome::Refused]);
    assert!(!quiet.saves());
    assert!(unseat_saves(3));
    assert!(!unseat_saves(0));
}
