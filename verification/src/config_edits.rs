//! What each saved setting writes into the configuration file: a short list
//! of keyed edits, with values already in TOML form. Reading the file,
//! applying the edits and writing it back are the caller's.

use vstd::prelude::*;

use crate::text::{owned, push_text, string_push};

verus! {

/// One keyed change to the configuration file.
#[derive(Debug, PartialEq, Eq)]
#[allow(inconsistent_fields)]
pub enum ConfigEdit {
    /// Set a boolean at the top level.
    TopLevelBool { key: String, value: bool },
    /// Set a key of a section to a TOML value.
    SectionValue { section: String, key: String, value: String },
    /// Set a key of a section to a boolean.
    SectionBool { section: String, key: String, value: bool },
    /// Remove a key of a section.
    RemoveKey { section: String, key: String },
}

/// An edit, as plain values.
#[allow(inconsistent_fields)]
pub enum EditView {
    TopLevelBool { key: Seq<char>, value: bool },
    SectionValue { section: Seq<char>, key: Seq<char>, value: Seq<char> },
    SectionBool { section: Seq<char>, key: Seq<char>, value: bool },
    RemoveKey { section: Seq<char>, key: Seq<char> },
}

impl View for ConfigEdit {
    type V = EditView;

    open spec fn view(&self) -> EditView {
        match self {
            ConfigEdit::TopLevelBool { key, value } => EditView::TopLevelBool { key: key@, value: *value },
            ConfigEdit::SectionValue { section, key, value } => EditView::SectionValue {
                section: section@,
                key: key@,
                value: value@,
            },
            ConfigEdit::SectionBool { section, key, value } => EditView::SectionBool {
                section: section@,
                key: key@,
                value: *value,
            },
            ConfigEdit::RemoveKey { section, key } => EditView::RemoveKey { section: section@, key: key@ },
        }
    }
}

/// The edits, as plain values.
pub open spec fn edit_views(v: Seq<ConfigEdit>) -> Seq<EditView> {
    v.map_values(|e: ConfigEdit| e@)
}

/// A value between double quotes, as written without escaping.
pub open spec fn quoted(s: Seq<char>) -> Seq<char> {
    seq!['"'] + s + seq!['"']
}

fn quote(s: &str) -> (r: String)
    ensures
        r@ == quoted(s@),
{
    let mut r = owned("\"");
    push_text(&mut r, s);
    push_text(&mut r, "\"");
    proof {
        reveal_strlit("\"");
    }
    r
}

fn value_edit(section: &str, key: &str, value: String) -> (r: ConfigEdit)
    ensures
        r@ == (EditView::SectionValue { section: section@, key: key@, value: value@ }),
{
    ConfigEdit::SectionValue { section: owned(section), key: owned(key), value }
}

fn bool_edit(section: &str, key: &str, value: bool) -> (r: ConfigEdit)
    ensures
        r@ == (EditView::SectionBool { section: section@, key: key@, value }),
{
    ConfigEdit::SectionBool { section: owned(section), key: owned(key), value }
}

fn one(e: ConfigEdit) -> (r: Vec<ConfigEdit>)
    ensures
        edit_views(r@) == seq![e@],
{
    let mut v: Vec<ConfigEdit> = Vec::new();
    v.push(e);
    assert(edit_views(v@) =~= seq![e@]);
    v
}

/// Finishing onboarding turns the top-level `onboarding` flag off.
pub fn onboarding_complete_edits() -> (r: Vec<ConfigEdit>)
    ensures
        edit_views(r@) == seq![EditView::TopLevelBool { key: "onboarding"@, value: false }],
{
    one(ConfigEdit::TopLevelBool { key: owned("onboarding"), value: false })
}

/// Picking a theme names it and turns automatic switching off.
pub fn theme_edits(name: &str) -> (r: Vec<ConfigEdit>)
    ensures
        edit_views(r@) == seq![
            EditView::SectionValue { section: "theme"@, key: "name"@, value: quoted(name@) },
            EditView::SectionBool { section: "theme"@, key: "auto_switch"@, value: false },
        ],
{
    let mut v: Vec<ConfigEdit> = Vec::new();
    v.push(value_edit("theme", "name", quote(name)));
    v.push(bool_edit("theme", "auto_switch", false));
    assert(edit_views(v@) =~= seq![
        EditView::SectionValue { section: "theme"@, key: "name"@, value: quoted(name@) },
        EditView::SectionBool { section: "theme"@, key: "auto_switch"@, value: false },
    ]);
    v
}

/// The status indicator style, by its configuration word.
pub fn status_indicators_edits(style: &str) -> (r: Vec<ConfigEdit>)
    ensures
        edit_views(r@) == seq![EditView::SectionValue { section: "ui"@, key: "status_indicators"@, value: quoted(style@) }],
{
    one(value_edit("ui", "status_indicators", quote(style)))
}

/// Sound on or off.
pub fn sound_edits(enabled: bool) -> (r: Vec<ConfigEdit>)
    ensures
        edit_views(r@) == seq![EditView::SectionBool { section: "ui.sound"@, key: "enabled"@, value: enabled }],
{
    one(bool_edit("ui.sound", "enabled", enabled))
}

/// A string escaped for a TOML basic string: backslashes first, then
/// double quotes.
pub open spec fn toml_escaped(s: Seq<char>) -> Seq<char>
    decreases s.len(),
{
    if s.len() == 0 {
        Seq::empty()
    } else {
        let prev = toml_escaped(s.drop_last());
        let c = s.last();
        if c == '\\' {
            prev + seq!['\\', '\\']
        } else if c == '"' {
            prev + seq!['\\', '"']
        } else {
            prev.push(c)
        }
    }
}

/// A TOML array of quoted, escaped strings, separated by `, `.
pub open spec fn toml_string_array_items(v: Seq<Seq<char>>) -> Seq<char>
    decreases v.len(),
{
    if v.len() == 0 {
        Seq::empty()
    } else if v.len() == 1 {
        quoted(toml_escaped(v[0]))
    } else {
        toml_string_array_items(v.drop_last()) + ", "@ + quoted(toml_escaped(v.last()))
    }
}

pub open spec fn toml_string_array(v: Seq<Seq<char>>) -> Seq<char> {
    seq!['['] + toml_string_array_items(v) + seq![']']
}

fn escaped(s: &str) -> (r: String)
    ensures
        r@ == toml_escaped(s@),
{
    let chars = crate::text::chars_of(s);
    let mut out = String::new();
    let mut i: usize = 0;
    while i < chars.len()
        invariant
            chars@ == s@,
            i <= chars@.len(),
            out@ == toml_escaped(chars@.take(i as int)),
        decreases chars.len() - i,
    {
        let c = chars[i];
        assert(chars@.take(i + 1).drop_last() =~= chars@.take(i as int));
        if c == '\\' {
            string_push(&mut out, '\\');
            string_push(&mut out, '\\');
        } else if c == '"' {
            string_push(&mut out, '\\');
            string_push(&mut out, '"');
        } else {
            string_push(&mut out, c);
        }
        assert(out@ =~= toml_escaped(chars@.take(i + 1)));
        i = i + 1;
    }
    assert(chars@.take(i as int) =~= chars@);
    out
}

/// The pinned tailnet devices, in the reader's order, as a TOML array.
/// A tailnet name cannot hold a quote or a backslash, but the file is also
/// edited by hand, so the values are escaped anyway.
pub fn tailscale_pinned_devices_edits(pinned: &Vec<String>) -> (r: Vec<ConfigEdit>)
    ensures
        edit_views(r@) == seq![
            EditView::SectionValue {
                section: "tailscale"@,
                key: "pinned_devices"@,
                value: toml_string_array(pinned@.map_values(|p: String| p@)),
            },
        ],
{
    let ghost names = pinned@.map_values(|p: String| p@);
    let mut items = String::new();
    let mut i: usize = 0;
    while i < pinned.len()
        invariant
            names == pinned@.map_values(|p: String| p@),
            i <= pinned@.len(),
            items@ == toml_string_array_items(names.take(i as int)),
        decreases pinned.len() - i,
    {
        assert(names.take(i + 1).drop_last() =~= names.take(i as int));
        if i > 0 {
            push_text(&mut items, ", ");
        }
        let q = quote(escaped(pinned[i].as_str()).as_str());
        push_text(&mut items, q.as_str());
        proof {
            assert(names.take(i + 1).last() == pinned@[i as int]@);
            if i == 0 {
                assert(names.take(1)[0] == pinned@[0]@);
                assert(items@ =~= toml_string_array_items(names.take(1)));
            } else {
                assert(items@ =~= toml_string_array_items(names.take(i + 1)));
            }
        }
        i = i + 1;
    }
    assert(names.take(i as int) =~= names);
    let mut value = owned("[");
    push_text(&mut value, items.as_str());
    push_text(&mut value, "]");
    proof {
        reveal_strlit("[");
        reveal_strlit("]");
        assert(value@ =~= toml_string_array(names));
    }
    one(value_edit("tailscale", "pinned_devices", value))
}

/// The Projects tab's default chat agent.
pub fn default_chat_agent_edits(agent: &str) -> (r: Vec<ConfigEdit>)
    ensures
        edit_views(r@) == seq![EditView::SectionValue { section: "projects"@, key: "default_chat_agent"@, value: quoted(agent@) }],
{
    one(value_edit("projects", "default_chat_agent", quote(agent)))
}

/// The Projects tab's "actives" filter.
pub fn projects_actives_only_edits(enabled: bool) -> (r: Vec<ConfigEdit>)
    ensures
        edit_views(r@) == seq![EditView::SectionBool { section: "projects"@, key: "actives_only"@, value: enabled }],
{
    one(bool_edit("projects", "actives_only", enabled))
}

/// Where the Spaces tab's focus filter starts for new clients.
pub fn spaces_focus_only_edits(enabled: bool) -> (r: Vec<ConfigEdit>)
    ensures
        edit_views(r@) == seq![EditView::SectionBool { section: "ui.sidebar.spaces"@, key: "focus_only"@, value: enabled }],
{
    one(bool_edit("ui.sidebar.spaces", "focus_only", enabled))
}

/// The preview placement, by its configuration word.
pub fn preview_placement_edits(placement: &str) -> (r: Vec<ConfigEdit>)
    ensures
        edit_views(r@) == seq![EditView::SectionValue { section: "preview"@, key: "placement"@, value: quoted(placement@) }],
{
    one(value_edit("preview", "placement", quote(placement)))
}

/// Where toasts are delivered.
#[derive(Debug, Clone, Copy, PartialEq, Eq, Structural)]
pub enum ToastDelivery {
    Off,
    Herdr,
    Terminal,
    System,
}

pub open spec fn toast_word(d: ToastDelivery) -> Seq<char> {
    match d {
        ToastDelivery::Off => "off"@,
        ToastDelivery::Herdr => "herdr"@,
        ToastDelivery::Terminal => "terminal"@,
        ToastDelivery::System => "system"@,
    }
}

/// The toast delivery, which also retires the older `enabled` key.
pub fn toast_delivery_edits(delivery: ToastDelivery) -> (r: Vec<ConfigEdit>)
    ensures
        edit_views(r@) == seq![
            EditView::SectionValue { section: "ui.toast"@, key: "delivery"@, value: quoted(toast_word(delivery)) },
            EditView::RemoveKey { section: "ui.toast"@, key: "enabled"@ },
        ],
{
    let word = match delivery {
        ToastDelivery::Off => "off",
        ToastDelivery::Herdr => "herdr",
        ToastDelivery::Terminal => "terminal",
        ToastDelivery::System => "system",
    };
    let mut v: Vec<ConfigEdit> = Vec::new();
    v.push(value_edit("ui.toast", "delivery", quote(word)));
    v.push(ConfigEdit::RemoveKey { section: owned("ui.toast"), key: owned("enabled") });
    assert(edit_views(v@) =~= seq![
        EditView::SectionValue { section: "ui.toast"@, key: "delivery"@, value: quoted(toast_word(delivery)) },
        EditView::RemoveKey { section: "ui.toast"@, key: "enabled"@ },
    ]);
    v
}

/// Agent labels on pane borders.
pub fn agent_border_labels_edits(enabled: bool) -> (r: Vec<ConfigEdit>)
    ensures
        edit_views(r@) == seq![EditView::SectionBool { section: "ui"@, key: "show_agent_labels_on_pane_borders"@, value: enabled }],
{
    one(bool_edit("ui", "show_agent_labels_on_pane_borders", enabled))
}

/// Keeping pane screen history across restarts.
pub fn pane_history_persistence_edits(enabled: bool) -> (r: Vec<ConfigEdit>)
    ensures
        edit_views(r@) == seq![EditView::SectionBool { section: "experimental"@, key: "pane_history"@, value: enabled }],
{
    one(bool_edit("experimental", "pane_history", enabled))
}

/// Switching to an ASCII input source while the prefix key is held.
pub fn switch_ascii_input_source_in_prefix_edits(enabled: bool) -> (r: Vec<ConfigEdit>)
    ensures
        edit_views(r@) == seq![
            EditView::SectionBool { section: "experimental"@, key: "switch_ascii_input_source_in_prefix"@, value: enabled },
        ],
{
    one(bool_edit("experimental", "switch_ascii_input_source_in_prefix", enabled))
}

/// The agent panel's order, by its configuration word.
pub fn agent_panel_sort_edits(sort: &str) -> (r: Vec<ConfigEdit>)
    ensures
        edit_views(r@) == seq![EditView::SectionValue { section: "ui"@, key: "agent_panel_sort"@, value: quoted(sort@) }],
{
    one(value_edit("ui", "agent_panel_sort", quote(sort)))
}

/// What a failed save tells the person: what could not be saved, and why.
pub fn config_save_failure(context: &str, error: &str) -> (r: String)
    ensures
        r@ == "failed to save "@ + context@ + ": "@ + error@,
{
    let mut m = owned("failed to save ");
    push_text(&mut m, context);
    push_text(&mut m, ": ");
    push_text(&mut m, error);
    m
}

} // verus!
