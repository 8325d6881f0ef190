use herdr_core::closed_agents::{
    revival_admission, LaunchRecipe, revival_launch, AgentSessionRef, AgentSessionRefKind, ClosedAgentLedger,
    ClosedAgentRecord, PersistedAgentSession, RevivalRefusal, RevivalState, CLOSED_AGENT_CAPACITY,
};

const DRAWER_AGENT: &str = "drawer-agent";

fn record(id: &str, closed_at: u64) -> ClosedAgentRecord {
    ClosedAgentRecord {
        agent_id: id.to_string(),
        label: format!("agent {id}"),
        cwd: Some("/tmp".to_string()),
        workspace_key: None,
        session: AgentSessionRef::id(format!("session-{id}")).map(|session_ref| PersistedAgentSession {
            source: "herdr:drawer-agent".into(),
            agent: DRAWER_AGENT.into(),
            session_ref,
        }),
        closed_at,
        revival: RevivalState::Dormant,
    }
}

fn ids(ledger: &ClosedAgentLedger) -> Vec<String> {
    ledger.entries().iter().map(|r| r.agent_id.clone()).collect()
}

#[test]
fn a_loaded_ghost_starts_dormant_whatever_it_was_doing() {
    let mut ledger = ClosedAgentLedger::default();
    ledger.record_closed(record("a", 1));
    assert!(
        ledger.try_begin_revival("a"),
        "precondition: the ghost is mid-revival when the store is written"
    );
    let mut restored = ClosedAgentLedger::default();
    restored.load_stored(ledger.to_stored());
    assert_eq!(
        restored.entries().front().map(|r| r.revival),
        Some(RevivalState::Dormant),
        "a ghost that comes back mid-revival could never be clicked again"
    );
}

#[test]
fn a_round_trip_keeps_what_a_revival_needs() {
    let mut ledger = ClosedAgentLedger::default();
    ledger.record_closed(record("keep", 42));
    let mut restored = ClosedAgentLedger::default();
    restored.load_stored(ledger.to_stored());
    let before = ledger.entries().front().expect("written");
    let after = restored.entries().front().expect("read back");
    assert_eq!(after.agent_id, before.agent_id);
    assert_eq!(after.label, before.label);
    assert_eq!(after.cwd, before.cwd, "the revival directory crosses the disk");
    assert_eq!(after.closed_at, before.closed_at);
    assert_eq!(
        after.session.as_ref().map(|s| s.session_ref.value.clone()),
        before.session.as_ref().map(|s| s.session_ref.value.clone()),
        "the resume key crosses the disk"
    );
    assert_eq!(
        after.session.as_ref().map(|s| s.session_ref.kind),
        before.session.as_ref().map(|s| s.session_ref.kind),
        "an id and a transcript path resume differently; the kind must survive"
    );
}

#[test]
fn a_closed_agent_is_remembered_newest_first() {
    let mut ledger = ClosedAgentLedger::default();
    ledger.record_closed(record("a", 1));
    ledger.record_closed(record("b", 2));
    assert_eq!(ids(&ledger), vec!["b", "a"]);
}

#[test]
fn closing_the_same_agent_again_refreshes_the_row_instead_of_duplicating() {
    let mut ledger = ClosedAgentLedger::default();
    ledger.record_closed(record("a", 1));
    ledger.record_closed(record("b", 2));
    assert!(ledger.try_begin_revival("a"));
    let mut again = record("a", 3);
    again.revival = RevivalState::Reviving;
    ledger.record_closed(again);
    assert_eq!(ids(&ledger), vec!["a", "b"]);
    let a = ledger.entries().front().expect("a is present");
    assert_eq!(a.closed_at, 3);
    assert_eq!(a.revival, RevivalState::Dormant);
}

#[test]
fn the_ledger_evicts_its_oldest_beyond_capacity() {
    let mut ledger = ClosedAgentLedger::default();
    for i in 0..=CLOSED_AGENT_CAPACITY {
        ledger.record_closed(record(&format!("g{i}"), i as u64));
    }
    let remembered = ids(&ledger);
    assert_eq!(remembered.len(), CLOSED_AGENT_CAPACITY);
    assert!(!remembered.contains(&"g0".to_string()), "en eski tahliye edilir");
    assert_eq!(remembered.first().map(String::as_str), Some("g8"));
}

#[test]
fn a_second_revival_attempt_while_one_is_in_flight_is_inert() {
    let mut ledger = ClosedAgentLedger::default();
    ledger.record_closed(record("a", 1));
    assert!(ledger.try_begin_revival("a"), "ilk tıklama spawn hakkını alır");
    assert!(!ledger.try_begin_revival("a"), "uçuştayken ikinci tıklama atıldır");
    assert!(!ledger.try_begin_revival("yok"), "bilinmeyen hedef atıldır");
}

#[test]
fn a_finished_revival_leaves_and_a_failed_one_rests_again() {
    let mut ledger = ClosedAgentLedger::default();
    ledger.record_closed(record("a", 1));
    ledger.record_closed(record("b", 2));
    assert!(ledger.try_begin_revival("a"));
    ledger.resolve_revival("a");
    assert_eq!(ids(&ledger), vec!["b"], "inen diriltme mezarlıktan çıkar");
    assert!(ledger.try_begin_revival("b"));
    ledger.abort_revival("b");
    assert!(ledger.try_begin_revival("b"), "başarısız diriltme yeniden tıklanabilir");
}

#[test]
fn a_revival_launch_matches_the_agents_existing_road() {
    let drawer = PersistedAgentSession {
        source: "herdr:drawer-agent".into(),
        agent: DRAWER_AGENT.into(),
        session_ref: AgentSessionRef::id("abc".to_string()).expect("valid id"),
    };
    let (argv, env) = revival_launch(&drawer, DRAWER_AGENT).expect("the drawer agent revives");
    assert_eq!(
        argv,
        vec![
            DRAWER_AGENT.to_string(),
            "--dangerously-skip-permissions".into(),
            "--resume".into(),
            "abc".into(),
        ]
    );
    assert!(env.iter().any(|(key, _)| key == "ENABLE_BACKGROUND_TASKS"));

    let codex = PersistedAgentSession {
        source: "herdr:codex".into(),
        agent: "codex".into(),
        session_ref: AgentSessionRef::id("xyz".to_string()).expect("valid id"),
    };
    let (argv, env) = revival_launch(&codex, DRAWER_AGENT).expect("codex revives");
    assert_eq!(argv, vec!["codex".to_string(), "resume".into(), "xyz".into()]);
    assert!(env.is_empty());
}

#[test]
fn an_agent_without_a_road_has_no_launch_and_a_gone_directory_refuses() {
    let other = PersistedAgentSession {
        source: "herdr:other".into(),
        agent: "other".into(),
        session_ref: AgentSessionRef::id("q".to_string()).expect("valid id"),
    };
    assert!(revival_launch(&other, DRAWER_AGENT).is_none());
    assert!(AgentSessionRef::id(String::new()).is_none(), "an empty id names nothing");

    let mut ledger = ClosedAgentLedger::default();
    ledger.record_closed(record("a", 1));
    let candidate = ledger.revival_candidate("a").expect("a dormant ghost with a recipe");
    assert_eq!(candidate.cwd, "/tmp");
    assert_eq!(
        revival_admission(&candidate, false, DRAWER_AGENT).err(),
        Some(RevivalRefusal::CwdGone)
    );
    assert!(revival_admission(&candidate, true, DRAWER_AGENT).is_ok());
    assert_eq!(ledger.revival_candidate("nope").err(), Some(RevivalRefusal::UnknownGhost));
    assert!(ledger.try_begin_revival("a"));
    assert_eq!(ledger.revival_candidate("a").err(), Some(RevivalRefusal::RevivalInFlight));
    let mut homeless = record("h", 2);
    homeless.cwd = None;
    ledger.record_closed(homeless);
    assert_eq!(ledger.revival_candidate("h").err(), Some(RevivalRefusal::NoCwd));
    let _ = AgentSessionRefKind::Id;
}

#[test]
fn a_finished_revival_reports_a_spawn_that_wired_nothing() {
    let mut ledger = ClosedAgentLedger::default();
    ledger.record_closed(record("a", 1));
    assert!(ledger.try_begin_revival("a"));
    assert_eq!(ledger.finish_revival("a", false), Err(RevivalRefusal::SpawnFailed));
    assert!(ledger.try_begin_revival("a"), "a failed spawn rests the ghost again");
    assert_eq!(ledger.finish_revival("a", true), Ok(()));
    assert!(ids(&ledger).is_empty());
    assert_eq!(RevivalRefusal::CwdGone.code().is_empty(), false);
    assert_eq!(RevivalRefusal::SpawnFailed.message(), "the revival spawn produced no tab");
}

/// The ledger's half of a revival, as the application drives it: validate,
/// probe the recorded directory, then claim.
fn revive(ledger: &mut ClosedAgentLedger, agent_id: &str) -> Result<LaunchRecipe, RevivalRefusal> {
    let candidate = ledger.revival_candidate(agent_id)?;
    let cwd_is_dir = std::path::Path::new(&candidate.cwd).is_dir();
    ledger.claim_revival(agent_id, &candidate, cwd_is_dir, DRAWER_AGENT)
}

#[test]
fn a_revival_without_a_livable_directory_is_refused_and_stays_clickable() {
    let mut ledger = ClosedAgentLedger::default();
    let mut no_cwd = record("no-cwd", 1);
    no_cwd.cwd = None;
    ledger.record_closed(no_cwd);
    let mut gone = record("gone", 2);
    gone.cwd = Some("/nonexistent/definitely-gone-herdr-test".to_string());
    ledger.record_closed(gone);

    assert_eq!(revive(&mut ledger, "no-cwd").err(), Some(RevivalRefusal::NoCwd));
    assert_eq!(revive(&mut ledger, "gone").err(), Some(RevivalRefusal::CwdGone));
    assert_eq!(revive(&mut ledger, "nobody").err(), Some(RevivalRefusal::UnknownGhost));
    // Every refusal left its row dormant: a later claim still succeeds...
    assert!(ledger.try_begin_revival("no-cwd"));
    assert!(ledger.try_begin_revival("gone"));
    // ...and a row already claimed reports the flight instead of racing it.
    assert_eq!(revive(&mut ledger, "gone").err(), Some(RevivalRefusal::RevivalInFlight));
}

#[test]
fn a_revival_without_a_session_recipe_is_refused() {
    let mut ledger = ClosedAgentLedger::default();
    let mut ghost = record("recipe-less", 1);
    ghost.session = None;
    ledger.record_closed(ghost);
    assert_eq!(revive(&mut ledger, "recipe-less").err(), Some(RevivalRefusal::NoSessionRecipe));
    assert!(ledger.try_begin_revival("recipe-less"));
}

#[test]
fn an_admitted_revival_claims_its_row_once() {
    let mut ledger = ClosedAgentLedger::default();
    ledger.record_closed(record("a", 1));
    let candidate = ledger.revival_candidate("a").expect("revivable");
    let (argv, _env) = ledger.claim_revival("a", &candidate, true, DRAWER_AGENT).expect("claimed");
    assert_eq!(argv.last().map(String::as_str), Some("session-a"));
    assert_eq!(
        ledger.claim_revival("a", &candidate, true, DRAWER_AGENT).err(),
        Some(RevivalRefusal::RevivalInFlight)
    );
    assert_eq!(ledger.revival_candidate("a").err(), Some(RevivalRefusal::RevivalInFlight));
}
