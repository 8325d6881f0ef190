use herdr_core::bar_apps::{workspace_missing_message, AppRowRoute};
use herdr_core::bar_config::{edge_config_mut, BarEdge, ShellBarSectionConfig, ShellBarsConfig};
use herdr_core::bar_config_panel::{BarConfigPanelState, BarPanelTab};

fn bars_with(kind: &str, argv: &[&str], name: &str) -> ShellBarsConfig {
    let mut bars = ShellBarsConfig::default();
    bars.top.enabled = true;
    let mut sec = ShellBarSectionConfig { kind: "content".to_string(), id: "cpu".to_string(), ..Default::default() };
    sec.action.kind = kind.to_string();
    sec.action.argv = argv.iter().map(|a| a.to_string()).collect();
    sec.action.name = name.to_string();
    bars.top.sections = vec![sec];
    bars
}

#[test]
fn a_dead_end_apps_row_is_inert_on_enter() {
    let mut bars = ShellBarsConfig::default();
    bars.top.enabled = true;
    let mut state = BarConfigPanelState::open(BarEdge::Top, &bars);
    state.switch_tab(BarPanelTab::Apps);
    assert_eq!(state.app_row_route(0), AppRowRoute::Nothing);
    let mut dead = ShellBarsConfig::default();
    dead.top.sections = vec![ShellBarSectionConfig { kind: "content".to_string(), ..Default::default() }];
    let state = BarConfigPanelState::open(BarEdge::Top, &dead);
    assert_eq!(state.app_row_route(0), AppRowRoute::Nothing);
}

#[test]
fn popup_and_run_rows_take_the_bars_own_roads() {
    let state = BarConfigPanelState::open(BarEdge::Top, &bars_with("popup", &["btop"], ""));
    match state.app_row_route(0) {
        AppRowRoute::Popup(action) => assert_eq!(action.argv, vec!["btop".to_string()]),
        other => panic!("expected a popup, got {other:?}"),
    }
    let state = BarConfigPanelState::open(BarEdge::Top, &bars_with("run", &["make", "check"], ""));
    match state.app_row_route(0) {
        AppRowRoute::Run(action) => assert_eq!(action.argv, vec!["make".to_string(), "check".to_string()]),
        other => panic!("expected a run, got {other:?}"),
    }
}

#[test]
fn workspace_rows_focus_by_name_and_other_kinds_fire_from_the_bar() {
    let state = BarConfigPanelState::open(BarEdge::Top, &bars_with("workspace", &[], "notes"));
    assert_eq!(state.app_row_route(0), AppRowRoute::Workspace("notes".to_string()));
    let state = BarConfigPanelState::open(BarEdge::Top, &bars_with("hide", &[], ""));
    assert_eq!(
        state.app_row_route(0),
        AppRowRoute::FromTheBar("a \"hide\" action fires from its own section".to_string())
    );
    assert_eq!(workspace_missing_message("notes"), "nothing open is called \"notes\"");
}

#[test]
fn a_row_beyond_the_inventory_routes_nowhere() {
    let state = BarConfigPanelState::open(BarEdge::Top, &bars_with("popup", &["btop"], ""));
    assert_eq!(state.app_row_route(5), AppRowRoute::Nothing);
}

#[test]
fn an_untouched_panel_applies_nothing_and_a_change_applies_by_edge_name() {
    let bars = ShellBarsConfig::default();
    let mut state = BarConfigPanelState::open(BarEdge::Left, &bars);
    assert!(state.apply_overrides().is_none());
    edge_config_mut(&mut state.draft, BarEdge::Left).size = 5;
    let named = state.apply_overrides().expect("a change writes");
    assert_eq!(named.len(), 1);
    assert_eq!(named[0].0, "left");
    assert_eq!(named[0].1.size, Some(5));
}

#[test]
fn a_refused_save_keeps_its_reason_and_a_good_one_writes_only_sections() {
    let mut state = BarConfigPanelState::open(BarEdge::Top, &bars_with("popup", &["btop"], ""));
    state.switch_tab(BarPanelTab::Apps);
    state.open_edit_form().expect("form opens");
    state.edit.as_mut().expect("form").value_text = String::new();
    assert!(state.prepare_edit_save(Vec::new()).is_none());
    assert!(state.edit.as_ref().expect("form survives").validation_error.is_some());

    state.edit.as_mut().expect("form").value_text = "htop".to_string();
    let over = state.prepare_edit_save(Vec::new()).expect("saves");
    assert_eq!(over.section_overrides.len(), 1);
    assert_eq!(over.section_overrides[0].id, "cpu");
    assert_eq!(over.size, None);
    assert_eq!(over.enabled, None);
}
