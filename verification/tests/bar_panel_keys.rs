use herdr_core::bar_config::{BarEdge, ShellBarSectionConfig, ShellBarsConfig};
use herdr_core::bar_config_panel::{BarConfigPanelState, BarPanelRow, BarPanelTab};
use herdr_core::bar_edit::{edit_field_order, edit_row_label, BarAppEditField};
use herdr_core::bar_geometry::{
    panel_popup_rect, panel_row_at, panel_row_hit_areas, panel_tab_at, panel_tab_hit_areas,
};
use herdr_core::bar_keys::{PanelKey, PanelOutcome};
use herdr_core::geometry::CellRect;

fn bars_with(kind: &str, argv: &str) -> ShellBarsConfig {
    let mut bars = ShellBarsConfig::default();
    bars.top.enabled = true;
    let mut sec = ShellBarSectionConfig {
        kind: "content".to_string(),
        id: "cpu".to_string(),
        ..Default::default()
    };
    sec.widget.kind = "resource".to_string();
    sec.widget.metric = "cpu".to_string();
    sec.action.kind = kind.to_string();
    sec.action.argv = vec![argv.to_string()];
    bars.top.sections = vec![sec];
    bars
}

#[test]
fn the_apps_face_runs_its_row_and_arrows_stay_configure_knobs() {
    let bars = bars_with("popup", "btop");
    let mut panel = BarConfigPanelState::open(BarEdge::Top, &bars);
    assert_eq!(panel.handle_key(PanelKey::Tab), PanelOutcome::Nothing);
    assert_eq!(panel.tab, BarPanelTab::Apps);
    assert_eq!(panel.handle_key(PanelKey::Right), PanelOutcome::Nothing);
    assert_eq!(panel.draft, bars, "an arrow on the Apps face turned no knob");
    assert_eq!(panel.handle_key(PanelKey::Enter), PanelOutcome::RunAppRow(0));
}

#[test]
fn configure_keys_adjust_move_and_close() {
    let mut panel = BarConfigPanelState::open(BarEdge::Top, &ShellBarsConfig::default());
    assert_eq!(panel.handle_key(PanelKey::Right), PanelOutcome::PreviewChanged);
    assert!(panel.draft.top.enabled, "Enabled flipped on");
    assert_eq!(panel.handle_key(PanelKey::Up), PanelOutcome::Nothing);
    assert_eq!(panel.selected, 0, "held at the top");
    for _ in 0..20 {
        panel.handle_key(PanelKey::Char('j'));
    }
    assert_eq!(panel.selected, 11, "held at the last row");
    assert_eq!(panel.handle_key(PanelKey::Enter), PanelOutcome::Close, "Cancel closes");
    panel.selected = 10;
    assert_eq!(panel.handle_key(PanelKey::Enter), PanelOutcome::Apply);
    panel.selected = 3;
    assert_eq!(panel.handle_key(PanelKey::Char('h')), PanelOutcome::Nothing, "size held at one");
    assert_eq!(panel.handle_key(PanelKey::Esc), PanelOutcome::Close);
    assert_eq!(panel.handle_key(PanelKey::Char('q')), PanelOutcome::Nothing);
}

#[test]
fn pressing_e_opens_the_form_and_a_row_without_id_is_refused() {
    let bars = bars_with("popup", "btop");
    let mut panel = BarConfigPanelState::open(BarEdge::Top, &bars);
    assert_eq!(panel.handle_key(PanelKey::Char('e')), PanelOutcome::Nothing, "e on Configure");
    assert!(panel.edit.is_none());
    panel.handle_key(PanelKey::Tab);
    assert_eq!(panel.handle_key(PanelKey::Char('e')), PanelOutcome::Nothing);
    assert!(panel.edit.is_some());

    let mut bare = ShellBarsConfig::default();
    bare.top.sections = vec![ShellBarSectionConfig::default()];
    let mut panel = BarConfigPanelState::open(BarEdge::Top, &bare);
    panel.handle_key(PanelKey::Tab);
    match panel.handle_key(PanelKey::Char('e')) {
        PanelOutcome::EditRefused(hint) => assert!(hint.contains("add id"), "{hint}"),
        other => panic!("expected a refusal, got {other:?}"),
    }
    assert!(panel.edit.is_none());
}

#[test]
fn escape_closes_the_editor_and_keeps_the_panel() {
    let bars = bars_with("popup", "btop");
    let mut panel = BarConfigPanelState::open(BarEdge::Top, &bars);
    panel.handle_key(PanelKey::Tab);
    panel.handle_key(PanelKey::Char('e'));
    assert!(panel.edit.is_some());
    assert_eq!(panel.handle_key(PanelKey::Esc), PanelOutcome::Nothing);
    assert!(panel.edit.is_none(), "only the editor closed");
}

#[test]
fn typing_in_the_form_edits_the_focused_text_field() {
    let bars = bars_with("run", "gotop");
    let mut panel = BarConfigPanelState::open(BarEdge::Top, &bars);
    panel.handle_key(PanelKey::Tab);
    panel.handle_key(PanelKey::Char('e'));
    panel.edit.as_mut().expect("form").field = BarAppEditField::Value;
    panel.handle_key(PanelKey::Char('e'));
    panel.handle_key(PanelKey::Backspace);
    panel.handle_key(PanelKey::Char('x'));
    let form = panel.edit.as_ref().expect("the form is still up");
    assert_eq!(form.value_text, "gotopx", "'e' typed, backspace erased, 'x' typed");
}

#[test]
fn form_keys_walk_the_fields_and_cycle_the_kind() {
    let bars = bars_with("popup", "btop");
    let mut panel = BarConfigPanelState::open(BarEdge::Top, &bars);
    panel.handle_key(PanelKey::Tab);
    panel.handle_key(PanelKey::Char('e'));
    panel.handle_key(PanelKey::Right);
    assert_eq!(panel.edit.as_ref().expect("form").kind_choice, 1, "popup -> run");
    panel.handle_key(PanelKey::Left);
    panel.handle_key(PanelKey::Left);
    assert_eq!(panel.edit.as_ref().expect("form").kind_choice, 4, "popup <- none wraps");
    panel.handle_key(PanelKey::Up);
    assert_eq!(panel.edit.as_ref().expect("form").field, BarAppEditField::Kind, "held at top");
    for _ in 0..8 {
        panel.handle_key(PanelKey::Down);
    }
    assert_eq!(panel.edit.as_ref().expect("form").field, BarAppEditField::Cancel);
    assert_eq!(panel.handle_key(PanelKey::Enter), PanelOutcome::Nothing);
    assert!(panel.edit.is_none(), "Enter on Cancel closes the editor");
    panel.handle_key(PanelKey::Char('e'));
    assert_eq!(panel.handle_key(PanelKey::Enter), PanelOutcome::SaveEdit);
}

#[test]
fn a_press_on_a_form_row_moves_the_cursor_and_cancel_closes() {
    let bars = bars_with("popup", "btop");
    let mut panel = BarConfigPanelState::open(BarEdge::Top, &bars);
    panel.handle_key(PanelKey::Tab);
    panel.handle_key(PanelKey::Char('e'));
    let fields = edit_field_order();
    panel.selected = fields.iter().position(|f| *f == BarAppEditField::Value).expect("value");
    assert_eq!(panel.press_row(), PanelOutcome::Nothing);
    assert_eq!(panel.edit.as_ref().map(|form| form.field), Some(BarAppEditField::Value));
    panel.selected = fields.iter().position(|f| *f == BarAppEditField::Save).expect("save");
    assert_eq!(panel.press_row(), PanelOutcome::SaveEdit);
    panel.selected = fields.iter().position(|f| *f == BarAppEditField::Cancel).expect("cancel");
    assert_eq!(panel.press_row(), PanelOutcome::Nothing);
    assert!(panel.edit.is_none(), "Cancel closed only the editor");
}

#[test]
fn the_form_rows_read_label_then_value() {
    let bars = bars_with("popup", "btop");
    let mut panel = BarConfigPanelState::open(BarEdge::Top, &bars);
    panel.switch_tab(BarPanelTab::Apps);
    panel.open_edit_form().expect("opens");
    let form = panel.edit.as_mut().expect("form");
    assert_eq!(edit_row_label(form, BarAppEditField::Kind), "kind       \u{2039} popup \u{203a}");
    assert_eq!(edit_row_label(form, BarAppEditField::Value), "command    btop");
    assert_eq!(edit_row_label(form, BarAppEditField::Width), "width      \u{2014}");
    assert_eq!(edit_row_label(form, BarAppEditField::Height), "height     \u{2014}");
    assert_eq!(edit_row_label(form, BarAppEditField::Save), "[ Save ]");
    assert_eq!(edit_row_label(form, BarAppEditField::Cancel), "[ Cancel ]");
    form.kind_choice = 2;
    assert_eq!(edit_row_label(form, BarAppEditField::Value), "workspace  btop");
    form.kind_choice = 4;
    assert_eq!(edit_row_label(form, BarAppEditField::Value), "(disarmed) btop");
    form.kind_choice = 9;
    assert_eq!(edit_row_label(form, BarAppEditField::Kind), "kind       \u{2039} ? \u{203a}");
}

#[test]
fn the_popup_centres_over_the_terminal_and_its_rows_avoid_the_hint() {
    let area = CellRect { x: 0, y: 0, width: 100, height: 40 };
    let popup = panel_popup_rect(area, 12).expect("room enough");
    assert_eq!(popup, CellRect { x: 22, y: 11, width: 56, height: 17 });
    assert_eq!(panel_popup_rect(CellRect { x: 0, y: 0, width: 7, height: 40 }, 12), None);
    let rows = panel_row_hit_areas(area, 12);
    assert_eq!(rows.len(), 12);
    assert_eq!(rows[0], CellRect { x: 23, y: 14, width: 54, height: 1 });
    assert_eq!(panel_row_at(area, 12, 30, 15), Some(1));
    assert_eq!(panel_row_at(area, 12, 30, 26), None, "the hint line is not a row");
    let tabs = panel_tab_hit_areas(area, 12);
    assert_eq!(tabs[0], CellRect { x: 23, y: 13, width: 6, height: 1 });
    assert_eq!(tabs[1], CellRect { x: 30, y: 13, width: 11, height: 1 });
    assert_eq!(panel_tab_at(area, 12, 24, 13), Some(BarPanelTab::Apps));
    assert_eq!(panel_tab_at(area, 12, 35, 13), Some(BarPanelTab::Configure));
    assert_eq!(panel_tab_at(area, 12, 29, 13), None, "the gap between labels");
    let small = CellRect { x: 0, y: 0, width: 20, height: 10 };
    assert_eq!(panel_row_hit_areas(small, 12).len(), 3, "as many rows as there are lines");
}

#[test]
fn a_press_on_configure_rows_adjusts_forward() {
    let mut panel = BarConfigPanelState::open(BarEdge::Top, &ShellBarsConfig::default());
    panel.selected = 1;
    assert_eq!(panel.press_row(), PanelOutcome::PreviewChanged);
    assert_eq!(panel.draft.top.style, "islands");
    panel.selected = 6;
    panel.press_row();
    assert!(panel.scope_all);
    panel.selected = 99;
    assert_eq!(panel.press_row(), PanelOutcome::Nothing);
    assert!(panel.adjust_selected(true) == false);
    panel.selected = 0;
    assert!(panel.adjust_selected(true));
    let _ = BarPanelRow::Enabled;
}
