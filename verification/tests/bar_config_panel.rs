use herdr_core::bar_apps::{section_app_rows, BarAppRow};
use herdr_core::bar_config::{
    edge_config_mut, BarEdge, ManagedSectionOverride, ShellBarConfig, ShellBarSectionActionConfig,
    ShellBarSectionConfig, ShellBarsConfig,
};
use herdr_core::bar_config_panel::{
    background_choices, bar_style_choices, color_choices, cycle_border, cycle_style, panel_hint,
    panel_rows, step_size, BarConfigPanelState, BarPanelRow, BarPanelTab,
};
use herdr_core::bar_edit::edit_kind_choices;
use herdr_core::bar_labels::row_value_label;
use herdr_core::popup_size::PopupSize;

fn bars() -> ShellBarsConfig {
    ShellBarsConfig::default()
}

fn section(kind: &str) -> ShellBarSectionConfig {
    ShellBarSectionConfig {
        kind: kind.to_string(),
        ..Default::default()
    }
}

#[test]
fn the_panel_rows_list_every_knob_and_exclude_the_focused_edge() {
    let rows = panel_rows(BarEdge::Bottom);
    assert_eq!(
        rows,
        vec![
            BarPanelRow::Enabled,
            BarPanelRow::Style,
            BarPanelRow::Border,
            BarPanelRow::Size,
            BarPanelRow::Color,
            BarPanelRow::Background,
            BarPanelRow::Scope,
            BarPanelRow::OtherBar(BarEdge::Top),
            BarPanelRow::OtherBar(BarEdge::Left),
            BarPanelRow::OtherBar(BarEdge::Right),
            BarPanelRow::Apply,
            BarPanelRow::Cancel,
        ]
    );
}

#[test]
fn the_style_row_enumerates_every_choice_and_brackets_the_selection() {
    let mut state = BarConfigPanelState::open(BarEdge::Top, &bars());
    edge_config_mut(&mut state.draft, BarEdge::Top).style = "pills".to_string();
    let label = row_value_label(&state, BarPanelRow::Style);
    assert_eq!(label, "Style: framed \u{b7} islands \u{b7} plain \u{b7} [pills]");
    for choice in bar_style_choices() {
        assert!(label.contains(choice), "{choice} must be discoverable: {label}");
    }
    edge_config_mut(&mut state.draft, BarEdge::Top).style = "islands".to_string();
    let label = row_value_label(&state, BarPanelRow::Style);
    assert!(label.contains("[islands]") && !label.contains("[pills]"), "{label}");
    edge_config_mut(&mut state.draft, BarEdge::Top).style = String::new();
    let label = row_value_label(&state, BarPanelRow::Style);
    assert!(label.contains("[framed]"), "{label}");
}

#[test]
fn border_and_scope_rows_enumerate_their_choices() {
    let mut state = BarConfigPanelState::open(BarEdge::Top, &bars());
    edge_config_mut(&mut state.draft, BarEdge::Top).border = Some(true);
    assert_eq!(
        row_value_label(&state, BarPanelRow::Border),
        "Border: auto \u{b7} [on] \u{b7} off"
    );
    assert_eq!(
        row_value_label(&state, BarPanelRow::Scope),
        "Apply to: [this bar] \u{b7} all bars"
    );
    state.scope_all = true;
    assert_eq!(
        row_value_label(&state, BarPanelRow::Scope),
        "Apply to: this bar \u{b7} [all bars]"
    );
}

#[test]
fn long_value_rows_wear_stepper_arrows() {
    let state = BarConfigPanelState::open(BarEdge::Top, &bars());
    for row in [BarPanelRow::Size, BarPanelRow::Color, BarPanelRow::Background] {
        let label = row_value_label(&state, row);
        assert!(
            label.contains('\u{25c2}') && label.contains('\u{25b8}'),
            "steppable row shows its arrows: {label}"
        );
    }
}

#[test]
fn the_remaining_rows_read_the_draft() {
    let mut state = BarConfigPanelState::open(BarEdge::Top, &bars());
    assert_eq!(row_value_label(&state, BarPanelRow::Enabled), "Enabled: off");
    assert_eq!(row_value_label(&state, BarPanelRow::Size), "Size: \u{25c2} 1 \u{25b8}");
    assert_eq!(
        row_value_label(&state, BarPanelRow::Color),
        "Colour: \u{25c2} (default) \u{25b8}"
    );
    assert_eq!(
        row_value_label(&state, BarPanelRow::Background),
        "Backdrop: \u{25c2} (theme) \u{25b8}"
    );
    state.adjust_row(BarPanelRow::OtherBar(BarEdge::Left), true);
    assert_eq!(row_value_label(&state, BarPanelRow::OtherBar(BarEdge::Left)), "left bar: on");
    edge_config_mut(&mut state.draft, BarEdge::Top).size = 17;
    assert_eq!(row_value_label(&state, BarPanelRow::Size), "Size: \u{25c2} 17 \u{25b8}");
    assert_eq!(row_value_label(&state, BarPanelRow::Apply), "[ Apply ]");
    assert_eq!(row_value_label(&state, BarPanelRow::Cancel), "[ Cancel ]");
}

#[test]
fn the_hint_line_matches_each_faces_real_keys() {
    let configure = panel_hint(BarPanelTab::Configure);
    assert!(configure.contains("\u{2190}\u{2192}") && configure.contains("Tab apps"));
    let apps = panel_hint(BarPanelTab::Apps);
    assert!(!apps.contains('\u{2190}'), "Apps face has no left/right verb: {apps}");
    assert!(apps.contains("Tab configure"));
}

#[test]
fn style_border_and_size_cycles_are_total_and_bounded() {
    let mut style = String::new();
    for _ in 0..4 {
        style = cycle_style(&style, true);
        assert!(bar_style_choices().contains(&style.as_str()));
    }
    assert_eq!(style, "framed", "four forward steps close the loop");
    assert_eq!(cycle_style("framed", false), "pills", "backwards wraps");
    assert_eq!(cycle_style("nonsense", true), "islands", "an unknown style stands at framed");

    assert_eq!(cycle_border(None, true), Some(true));
    assert_eq!(cycle_border(Some(true), true), Some(false));
    assert_eq!(cycle_border(Some(false), true), None);
    assert_eq!(cycle_border(None, false), Some(false));

    assert_eq!(step_size(32, true), 32, "held at the top of the range");
    assert_eq!(step_size(1, false), 1, "held at the bottom");
    assert_eq!(step_size(3, true), 4);
    assert_eq!(step_size(3, false), 2);
    assert_eq!(step_size(0, false), 1);
    assert_eq!(step_size(u16::MAX, true), 32);
}

#[test]
fn colour_choices_keep_a_custom_literal_reachable() {
    let choices = color_choices("#cba6f7");
    assert_eq!(choices[0], "", "the default tone leads");
    assert!(choices.iter().any(|c| c == "#cba6f7"));
    assert!(choices.iter().any(|c| c == "mauve"));

    let token_only = color_choices("mauve");
    assert_eq!(
        token_only.iter().filter(|c| *c == "mauve").count(),
        1,
        "a known token is not doubled"
    );

    let backdrop = background_choices("");
    assert_eq!(backdrop[0], "");
    assert_eq!(backdrop[1], "reset", "the backdrop speaks reset too");
    assert_eq!(background_choices("reset").iter().filter(|c| *c == "reset").count(), 1);
}

#[test]
fn an_untouched_panel_writes_nothing() {
    let state = BarConfigPanelState::open(BarEdge::Top, &bars());
    assert!(state.managed_overrides().is_empty());
}

#[test]
fn a_changed_field_writes_only_itself_on_its_edge() {
    let mut state = BarConfigPanelState::open(BarEdge::Top, &bars());
    state.adjust_row(BarPanelRow::Style, true);
    let overrides = state.managed_overrides();
    assert_eq!(overrides.len(), 1);
    let (edge, over) = &overrides[0];
    assert_eq!(*edge, BarEdge::Top);
    assert_eq!(over.style.as_deref(), Some("islands"));
    assert_eq!(over.color, None, "an untouched field is not written");
    assert_eq!(over.enabled, None);
}

#[test]
fn scope_all_fans_the_focused_changes_to_every_edge() {
    let mut state = BarConfigPanelState::open(BarEdge::Top, &bars());
    state.adjust_row(BarPanelRow::Style, true);
    state.adjust_row(BarPanelRow::Scope, true);
    let overrides = state.managed_overrides();
    assert_eq!(overrides.len(), 4);
    for (_, over) in &overrides {
        assert_eq!(over.style.as_deref(), Some("islands"));
    }
}

#[test]
fn an_explicit_other_bar_switch_wins_over_the_fanout() {
    let mut state = BarConfigPanelState::open(BarEdge::Top, &bars());
    state.adjust_row(BarPanelRow::Enabled, true);
    state.adjust_row(BarPanelRow::Scope, true);
    state.adjust_row(BarPanelRow::OtherBar(BarEdge::Bottom), true);
    state.adjust_row(BarPanelRow::OtherBar(BarEdge::Bottom), true);
    state.adjust_row(BarPanelRow::OtherBar(BarEdge::Bottom), true);
    let overrides = state.managed_overrides();
    let bottom = overrides
        .iter()
        .find(|(edge, _)| *edge == BarEdge::Bottom)
        .map(|(_, over)| over)
        .expect("bottom carries its explicit switch");
    assert_eq!(bottom.enabled, Some(true));

    let mut enabled_bars = bars();
    enabled_bars.bottom.enabled = true;
    let mut state = BarConfigPanelState::open(BarEdge::Top, &enabled_bars);
    state.adjust_row(BarPanelRow::Enabled, true);
    state.adjust_row(BarPanelRow::Scope, true);
    state.adjust_row(BarPanelRow::OtherBar(BarEdge::Bottom), true);
    let overrides = state.managed_overrides();
    let bottom = overrides
        .iter()
        .find(|(edge, _)| *edge == BarEdge::Bottom)
        .map(|(_, over)| over)
        .expect("bottom carries its explicit switch");
    assert_eq!(bottom.enabled, Some(false), "the pressed switch beats the fan-out");
}

#[test]
fn a_border_change_travels_as_a_word() {
    let mut explicit = bars();
    explicit.top.border = Some(true);
    let mut state = BarConfigPanelState::open(BarEdge::Top, &explicit);
    state.adjust_row(BarPanelRow::Border, true);
    let overrides = state.managed_overrides();
    assert_eq!(overrides[0].1.border.as_deref(), Some("off"));
    state.adjust_row(BarPanelRow::Border, true);
    let overrides = state.managed_overrides();
    assert_eq!(overrides[0].1.border.as_deref(), Some("auto"));
}

#[test]
fn adjusting_rows_touches_only_what_the_row_names() {
    let mut state = BarConfigPanelState::open(BarEdge::Top, &bars());
    assert!(state.adjust_row(BarPanelRow::Color, true));
    assert_eq!(state.draft.top.color, "accent", "first token after default");
    assert_eq!(state.draft.bottom, bars().bottom, "other edges untouched");

    assert!(state.adjust_row(BarPanelRow::OtherBar(BarEdge::Left), true));
    assert!(state.draft.left.enabled);
    assert_eq!(state.draft.top.enabled, bars().top.enabled);

    assert!(!state.adjust_row(BarPanelRow::Apply, true), "verbs adjust nothing");
    assert!(!state.adjust_row(BarPanelRow::Cancel, true));
}

#[test]
fn a_size_held_at_its_end_reports_no_change() {
    let mut state = BarConfigPanelState::open(BarEdge::Top, &bars());
    assert!(!state.adjust_row(BarPanelRow::Size, false), "one cell is the floor");
    assert!(state.adjust_row(BarPanelRow::Size, true));
    assert_eq!(state.draft.top.size, 2);
    let overrides = state.managed_overrides();
    assert_eq!(overrides.len(), 1);
    assert_eq!(overrides[0].1.size, Some(2));
    assert_eq!(overrides[0].1.style, None);
}

#[test]
fn the_colour_cycle_keeps_the_persons_own_literal() {
    let mut custom = bars();
    custom.top.color = "#cba6f7".to_string();
    let mut state = BarConfigPanelState::open(BarEdge::Top, &custom);
    state.adjust_row(BarPanelRow::Color, true);
    assert_eq!(state.draft.top.color, "accent", "the literal's neighbour is the first token");
    state.adjust_row(BarPanelRow::Color, false);
    assert_eq!(state.draft.top.color, "#cba6f7", "a step back reaches the literal again");
    state.adjust_row(BarPanelRow::Color, false);
    assert_eq!(state.draft.top.color, "", "and the default tone before it");
    state.adjust_row(BarPanelRow::Color, false);
    assert_eq!(state.draft.top.color, "lavender", "backwards wraps to the last token");
}

#[test]
fn the_apps_inventory_names_what_shows_and_what_a_press_reaches() {
    let mut bar = ShellBarConfig::default();
    assert_eq!(
        section_app_rows(&bar),
        vec![BarAppRow {
            section_indices: Vec::new(),
            shows: "undivided strip".to_string(),
            does: "\u{2014}".to_string(),
            live: false,
            section_id: None,
        }],
        "an undivided strip is one honest row, never an empty list"
    );

    let mut cpu = section("content");
    cpu.widget.kind = "resource".to_string();
    cpu.widget.metric = "cpu".to_string();
    cpu.action.kind = "popup".to_string();
    cpu.action.argv = vec!["/usr/bin/btop".to_string()];
    let mut clock = section("fixed");
    clock.widget.kind = "clock".to_string();
    let fill = section("fill");
    bar.sections = vec![cpu, clock, fill];

    let rows = section_app_rows(&bar);
    assert_eq!(rows.len(), 3);
    assert_eq!(rows[0].shows, "resource cpu");
    assert_eq!(rows[0].does, "\u{2192} btop [popup]", "argv is shown by basename");
    assert!(rows[0].live);
    assert_eq!(rows[1].shows, "clock %H:%M", "an unwritten format is the default");
    assert_eq!(rows[1].does, "\u{2014}");
    assert!(!rows[1].live, "an indicator is offered greyed, never silent");
    assert_eq!(rows[2].shows, "fill");
    assert_eq!(rows[0].section_indices, vec![0]);
}

#[test]
fn a_grouped_run_folds_into_one_inventory_row() {
    let mut bar = ShellBarConfig::default();
    let mut cpu = section("content");
    cpu.widget.kind = "resource".to_string();
    cpu.widget.metric = "cpu".to_string();
    cpu.group = "sys".to_string();
    let mut mem = cpu.clone();
    mem.widget.metric = "mem".to_string();
    let mut swap = cpu.clone();
    swap.widget.metric = "swap".to_string();
    swap.action.kind = "popup".to_string();
    swap.action.argv = vec!["btop".to_string()];
    let mut lone = section("fixed");
    lone.widget.kind = "icon".to_string();
    lone.widget.glyph = "\u{2699}".to_string();
    bar.sections = vec![cpu, mem, swap, lone];

    let rows = section_app_rows(&bar);
    assert_eq!(rows.len(), 2, "three grouped + one lone = two rows");
    assert_eq!(rows[0].shows, "resource cpu \u{b7} resource mem \u{b7} resource swap");
    assert_eq!(rows[0].does, "\u{2192} btop [popup]");
    assert_eq!(rows[0].section_indices, vec![0, 1, 2]);
    assert!(rows[0].live);
    assert_eq!(rows[1].shows, "icon \u{2699}");
}

#[test]
fn widget_and_action_summaries_speak_every_kind() {
    let mut bar = ShellBarConfig::default();
    let mut label = section("content");
    label.widget.kind = "label".to_string();
    label.widget.text = "hi".to_string();
    label.id = "greet".to_string();
    label.action.kind = "workspace".to_string();
    label.action.name = "main".to_string();
    let mut icon = section("content");
    icon.widget.kind = "icon".to_string();
    icon.widget.pixels = vec!["x".to_string()];
    icon.action.kind = "plugin".to_string();
    icon.action.command = "do.it".to_string();
    let mut bare = section("");
    bare.action.kind = "hide".to_string();
    let mut odd = section("content");
    odd.widget.kind = "weather".to_string();
    odd.action.kind = "run".to_string();
    bar.sections = vec![label, icon, bare, odd];
    let rows = section_app_rows(&bar);
    assert_eq!(rows[0].shows, "label \"hi\"");
    assert_eq!(rows[0].does, "\u{2192} workspace main");
    assert_eq!(rows[0].section_id.as_deref(), Some("greet"));
    assert_eq!(rows[1].shows, "icon custom");
    assert_eq!(rows[1].does, "\u{2192} plugin do.it");
    assert_eq!(rows[1].section_id, None, "no section of the row carries an id");
    assert_eq!(rows[2].shows, "bare");
    assert_eq!(rows[2].does, "\u{2192} hide bar");
    assert_eq!(rows[3].shows, "weather");
    assert_eq!(rows[3].does, "\u{2192} [run]", "a program-less run trims its leading space");
}

#[test]
fn switching_tabs_resets_selection_and_the_inventory_reads_the_snapshot() {
    let mut bars = ShellBarsConfig::default();
    bars.top.enabled = true;
    let mut state = BarConfigPanelState::open(BarEdge::Top, &bars);
    assert_eq!(state.tab, BarPanelTab::Configure, "muscle memory survives");

    state.selected = 3;
    assert!(state.switch_tab(BarPanelTab::Apps));
    assert_eq!(state.selected, 0, "an index carried across tabs is a ghost");
    assert!(!state.switch_tab(BarPanelTab::Apps), "same tab is a no-op");
    assert_eq!(state.forward_row_count(), 1, "the undivided strip's one row");

    state.adjust_row(BarPanelRow::Enabled, true);
    assert_eq!(
        state.app_rows(),
        section_app_rows(&bars.top),
        "the inventory is the snapshot, not the draft"
    );
}

fn bars_with_cpu_popup() -> ShellBarsConfig {
    let mut bars = ShellBarsConfig::default();
    bars.top.enabled = true;
    let mut sec = ShellBarSectionConfig {
        kind: "content".to_string(),
        id: "cpu".to_string(),
        ..Default::default()
    };
    sec.action.kind = "popup".to_string();
    sec.action.argv = vec!["btop".to_string()];
    bars.top.sections = vec![sec];
    bars
}

#[test]
fn the_edit_form_kind_cycles_the_closed_set_and_wraps() {
    let bars = bars_with_cpu_popup();
    let mut state = BarConfigPanelState::open(BarEdge::Top, &bars);
    state.switch_tab(BarPanelTab::Apps);
    state.open_edit_form().expect("an identified row opens");
    let kinds = edit_kind_choices();
    let start = state.edit.as_ref().expect("form").kind_choice;
    assert_eq!(kinds[start], "popup");
    for _ in 0..kinds.len() {
        state.edit_cycle_kind(true);
    }
    assert_eq!(
        state.edit.as_ref().expect("form").kind_choice,
        start,
        "a full forward lap wraps home"
    );
    state.edit_cycle_kind(false);
    assert_eq!(
        kinds[state.edit.as_ref().expect("form").kind_choice],
        "none",
        "one step back from popup wraps to the far end"
    );
}

#[test]
fn the_save_payload_merges_over_the_existing_overrides() {
    let bars = bars_with_cpu_popup();
    let mut state = BarConfigPanelState::open(BarEdge::Top, &bars);
    state.switch_tab(BarPanelTab::Apps);
    state.open_edit_form().expect("form opens");
    {
        let form = state.edit.as_mut().expect("form");
        form.kind_choice = edit_kind_choices()
            .iter()
            .position(|k| *k == "run")
            .expect("run is in the set");
        form.value_text = "gotop --rate 2".to_string();
        form.width_text.clear();
        form.height_text.clear();
    }
    let neighbour = ManagedSectionOverride {
        id: "clock".to_string(),
        action: Some(ShellBarSectionActionConfig {
            kind: "popup".to_string(),
            argv: vec!["khal".to_string()],
            ..Default::default()
        }),
    };
    let list = state
        .edit_save_payload(vec![neighbour])
        .expect("a well-formed form saves");
    assert_eq!(list.len(), 2, "the neighbour rode along");
    assert!(list.iter().any(|o| o.id == "clock"));
    let cpu = list.iter().find(|o| o.id == "cpu").expect("the edit");
    let action = cpu.action.as_ref().expect("an action was written");
    assert_eq!(action.kind, "run");
    assert_eq!(
        action.argv,
        vec!["gotop".to_string(), "--rate".to_string(), "2".to_string()],
        "the value line splits into argv on whitespace"
    );
}

#[test]
fn saving_over_the_same_id_replaces_it_in_place() {
    let bars = bars_with_cpu_popup();
    let mut state = BarConfigPanelState::open(BarEdge::Top, &bars);
    state.switch_tab(BarPanelTab::Apps);
    state.open_edit_form().expect("form opens");
    state.edit.as_mut().expect("form").value_text = "htop".to_string();
    let old_cpu = ManagedSectionOverride { id: "cpu".to_string(), action: None };
    let after = ManagedSectionOverride { id: "after".to_string(), action: None };
    let list = state.edit_save_payload(vec![old_cpu, after]).expect("saves");
    assert_eq!(list.len(), 2);
    assert_eq!(list[0].id, "cpu");
    assert_eq!(list[0].action.as_ref().expect("action").argv, vec!["htop".to_string()]);
    assert_eq!(list[1].id, "after");
}

#[test]
fn pressing_e_on_an_identified_row_opens_a_seeded_edit_form() {
    let mut bars = ShellBarsConfig::default();
    let mut sec = ShellBarSectionConfig {
        kind: "content".to_string(),
        id: "cpu".to_string(),
        ..Default::default()
    };
    sec.widget.kind = "meter".to_string();
    sec.widget.metric = "cpu".to_string();
    sec.action.kind = "popup".to_string();
    sec.action.argv = vec!["btop".to_string()];
    sec.action.width = Some(PopupSize::Percent(97));
    sec.action.height = Some(PopupSize::Cells(30));
    bars.top.sections = vec![sec];
    let mut state = BarConfigPanelState::open(BarEdge::Top, &bars);
    state.switch_tab(BarPanelTab::Apps);
    state.open_edit_form().expect("opens");
    let form = state.edit.as_ref().expect("the editor opened");
    assert_eq!(form.section_id, "cpu");
    assert_eq!(edit_kind_choices()[form.kind_choice], "popup");
    assert_eq!(form.value_text, "btop", "argv seeds the value line");
    assert_eq!(form.width_text, "97%", "a percent width echoes as one");
    assert_eq!(form.height_text, "30", "a cells height echoes as a number");
    assert_eq!(form.shows, "meter cpu");
    assert!(form.validation_error.is_none());
}

#[test]
fn an_unidentified_row_refuses_the_edit_form_with_the_add_id_hint() {
    let mut bars = ShellBarsConfig::default();
    let mut sec = section("content");
    sec.widget.kind = "clock".to_string();
    bars.top.sections = vec![sec];
    let mut state = BarConfigPanelState::open(BarEdge::Top, &bars);
    state.switch_tab(BarPanelTab::Apps);
    let err = state.open_edit_form().expect_err("no id, no form");
    assert!(err.contains("add id"), "the hint names the fix: {err}");
    assert!(state.edit.is_none());
    state.selected = 5;
    assert_eq!(state.open_edit_form(), Err("no row is selected".to_string()));
}

#[test]
fn a_bad_size_refuses_the_save_and_names_why() {
    let bars = bars_with_cpu_popup();
    let mut state = BarConfigPanelState::open(BarEdge::Top, &bars);
    state.switch_tab(BarPanelTab::Apps);
    state.open_edit_form().expect("form opens");
    state.edit.as_mut().expect("form").width_text = "huge".to_string();
    let err = state.edit_save_payload(Vec::new()).expect_err("a bad width cannot save");
    assert!(err.contains("percentage"), "the refusal teaches the accepted shapes: {err}");
    assert!(err.starts_with("width:"), "{err}");
}

#[test]
fn every_kind_missing_its_value_is_refused() {
    let bars = bars_with_cpu_popup();
    let mut state = BarConfigPanelState::open(BarEdge::Top, &bars);
    state.switch_tab(BarPanelTab::Apps);
    state.open_edit_form().expect("form opens");
    let kinds = edit_kind_choices();
    let expect = [
        ("popup", "a popup action needs a command line"),
        ("run", "a run action needs a command line"),
        ("workspace", "a workspace action needs the workspace's name"),
        ("plugin", "a plugin action needs its action id"),
    ];
    for (kind, message) in expect {
        let form = state.edit.as_mut().expect("form");
        form.kind_choice = kinds.iter().position(|k| *k == kind).expect("known kind");
        form.value_text = "   ".to_string();
        assert_eq!(state.edit_save_payload(Vec::new()).err().as_deref(), Some(message));
    }
    let form = state.edit.as_mut().expect("form");
    form.kind_choice = 4;
    let list = state.edit_save_payload(Vec::new()).expect("none disarms");
    let action = list[0].action.as_ref().expect("an empty action is written");
    assert_eq!(action.kind, "");
    state.edit = None;
    assert_eq!(state.edit_save_payload(Vec::new()).err().as_deref(), Some("no editor is open"));
}

#[test]
fn a_popup_keeps_its_sizes_and_a_run_drops_them() {
    let bars = bars_with_cpu_popup();
    let mut state = BarConfigPanelState::open(BarEdge::Top, &bars);
    state.switch_tab(BarPanelTab::Apps);
    state.open_edit_form().expect("form opens");
    {
        let form = state.edit.as_mut().expect("form");
        form.width_text = " 80% ".to_string();
        form.height_text = "24".to_string();
    }
    let list = state.edit_save_payload(Vec::new()).expect("saves");
    let action = list[0].action.as_ref().expect("action");
    assert_eq!(action.width, Some(PopupSize::Percent(80)));
    assert_eq!(action.height, Some(PopupSize::Cells(24)));
    state.edit.as_mut().expect("form").kind_choice = 1;
    let list = state.edit_save_payload(Vec::new()).expect("saves");
    let action = list[0].action.as_ref().expect("action");
    assert_eq!(action.width, None);
    assert_eq!(action.height, None);
}

#[test]
fn inventory_rows_are_the_maximal_runs_of_one_group() {
    let mut bar = ShellBarConfig::default();
    let mut a0 = section("content");
    a0.group = "a".to_string();
    let mut a1 = section("content");
    a1.group = "a".to_string();
    a1.action.kind = "workspace".to_string();
    a1.action.name = "main".to_string();
    let lone = section("fixed");
    let mut a3 = section("content");
    a3.group = "a".to_string();
    let mut b4 = section("content");
    b4.group = "b".to_string();
    let mut b5 = section("content");
    b5.group = "b".to_string();
    bar.sections = vec![a0, a1, lone, a3, b4, b5];

    let rows = section_app_rows(&bar);
    let indices: Vec<Vec<usize>> = rows.iter().map(|r| r.section_indices.clone()).collect();
    assert_eq!(indices, vec![vec![0, 1], vec![2], vec![3], vec![4, 5]]);
    let flat: Vec<usize> = indices.concat();
    assert_eq!(flat, vec![0, 1, 2, 3, 4, 5], "every section once, in order");
    assert!(rows[0].live, "one member with a press makes the row live");
    assert_eq!(rows[0].does, "\u{2192} workspace main");
    for row in &rows[1..] {
        assert!(!row.live);
        assert_eq!(row.does, "\u{2014}");
    }
}

#[test]
fn each_edge_persists_only_its_own_differing_fields_in_panel_order() {
    let mut state = BarConfigPanelState::open(BarEdge::Top, &bars());
    state.adjust_row(BarPanelRow::OtherBar(BarEdge::Left), true);
    state.adjust_row(BarPanelRow::Style, true);
    let overrides = state.managed_overrides();
    let edges: Vec<BarEdge> = overrides.iter().map(|(e, _)| *e).collect();
    assert_eq!(edges, vec![BarEdge::Top, BarEdge::Left]);
    let (_, top) = &overrides[0];
    assert_eq!(top.style.as_deref(), Some("islands"));
    assert_eq!(top.enabled, None);
    let (_, left) = &overrides[1];
    assert_eq!(left.enabled, Some(true));
    assert_eq!(left.style, None, "scoped to this bar, the focused change stays on its edge");
    for (_, over) in &overrides {
        assert!(over.section_overrides.is_empty());
    }
}
