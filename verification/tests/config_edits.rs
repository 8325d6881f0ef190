use herdr_core::config_edits::{
    agent_border_labels_edits, config_save_failure, onboarding_complete_edits, tailscale_pinned_devices_edits,
    theme_edits, toast_delivery_edits, ConfigEdit, ToastDelivery,
};

fn value(section: &str, key: &str, value: &str) -> ConfigEdit {
    ConfigEdit::SectionValue { section: section.into(), key: key.into(), value: value.into() }
}

#[test]
fn a_theme_is_named_and_stops_switching_itself() {
    assert_eq!(
        theme_edits("nord"),
        vec![
            value("theme", "name", "\"nord\""),
            ConfigEdit::SectionBool { section: "theme".into(), key: "auto_switch".into(), value: false },
        ]
    );
}

#[test]
fn pinned_devices_become_an_escaped_toml_array_in_order() {
    let pinned = vec!["laptop.tail".to_string(), "we\"ird\\name".to_string()];
    assert_eq!(
        tailscale_pinned_devices_edits(&pinned),
        vec![value("tailscale", "pinned_devices", "[\"laptop.tail\", \"we\\\"ird\\\\name\"]")]
    );
    assert_eq!(tailscale_pinned_devices_edits(&Vec::new()), vec![value("tailscale", "pinned_devices", "[]")]);
    assert_eq!(
        tailscale_pinned_devices_edits(&vec!["one".to_string()]),
        vec![value("tailscale", "pinned_devices", "[\"one\"]")]
    );
}

#[test]
fn toast_delivery_retires_the_old_enabled_key() {
    assert_eq!(
        toast_delivery_edits(ToastDelivery::Terminal),
        vec![
            value("ui.toast", "delivery", "\"terminal\""),
            ConfigEdit::RemoveKey { section: "ui.toast".into(), key: "enabled".into() },
        ]
    );
}

#[test]
fn flags_land_in_their_sections() {
    assert_eq!(
        onboarding_complete_edits(),
        vec![ConfigEdit::TopLevelBool { key: "onboarding".into(), value: false }]
    );
    assert_eq!(
        agent_border_labels_edits(true),
        vec![ConfigEdit::SectionBool {
            section: "ui".into(),
            key: "show_agent_labels_on_pane_borders".into(),
            value: true
        }]
    );
}

#[test]
fn a_failed_save_names_what_and_why() {
    assert_eq!(config_save_failure("theme", "disk full"), "failed to save theme: disk full");
}

#[test]
fn every_setting_writes_its_own_key() {
    let b = |section: &str, key: &str, v: bool| ConfigEdit::SectionBool { section: section.into(), key: key.into(), value: v };
    assert_eq!(herdr_core::config_edits::sound_edits(false), vec![b("ui.sound", "enabled", false)]);
    assert_eq!(herdr_core::config_edits::projects_actives_only_edits(true), vec![b("projects", "actives_only", true)]);
    assert_eq!(herdr_core::config_edits::spaces_focus_only_edits(true), vec![b("ui.sidebar.spaces", "focus_only", true)]);
    assert_eq!(herdr_core::config_edits::pane_history_persistence_edits(false), vec![b("experimental", "pane_history", false)]);
    assert_eq!(
        herdr_core::config_edits::switch_ascii_input_source_in_prefix_edits(true),
        vec![b("experimental", "switch_ascii_input_source_in_prefix", true)]
    );
    assert_eq!(herdr_core::config_edits::status_indicators_edits("dots"), vec![value("ui", "status_indicators", "\"dots\"")]);
    assert_eq!(herdr_core::config_edits::default_chat_agent_edits("codex"), vec![value("projects", "default_chat_agent", "\"codex\"")]);
    assert_eq!(herdr_core::config_edits::preview_placement_edits("right"), vec![value("preview", "placement", "\"right\"")]);
    assert_eq!(herdr_core::config_edits::agent_panel_sort_edits("priority"), vec![value("ui", "agent_panel_sort", "\"priority\"")]);
}
