//! The Apps face's mini editor: rebind what a press on one identified row
//! does. A draft local to the panel; nothing reaches the disk until Save, and
//! Save merges over the overlay's existing rebindings.

use vstd::prelude::*;

use crate::bar_apps::{action_summary, action_summary_spec, app_rows_spec, join, join_texts, row_views};
use crate::bar_config::{
    ManagedBarOverride, OverrideView, bar_on, edge_config, empty_action, upsert_section_override, upserted, ActionView,
    ManagedSectionOverride, SectionOverrideView, SectionView, ShellBarSectionActionConfig,
    override_views, upserted_view,
};
use crate::bar_config_panel::BarConfigPanelState;
use crate::popup_size::{parse_popup_size, PopupSize};
use crate::text::{
    chars_of, decimal, decimal_string, index_of, lemma_index_of, opt_chars, owned, push_text,
    split_words, str_equal, str_position_of, string_from_chars, strs, texts, trim, trimmed, words,
};

verus! {

/// Which part of the edit form holds the cursor.
#[derive(Debug, Clone, Copy, PartialEq, Eq, Structural)]
pub enum BarAppEditField {
    Kind,
    Value,
    Width,
    Height,
    Save,
    Cancel,
}

/// The form's fields, top to bottom.
pub open spec fn edit_fields() -> Seq<BarAppEditField> {
    seq![
        BarAppEditField::Kind,
        BarAppEditField::Value,
        BarAppEditField::Width,
        BarAppEditField::Height,
        BarAppEditField::Save,
        BarAppEditField::Cancel,
    ]
}

/// The form's fields, top to bottom.
pub fn edit_field_order() -> (r: Vec<BarAppEditField>)
    ensures
        r@ == edit_fields(),
{
    let r = vec![
        BarAppEditField::Kind,
        BarAppEditField::Value,
        BarAppEditField::Width,
        BarAppEditField::Height,
        BarAppEditField::Save,
        BarAppEditField::Cancel,
    ];
    assert(r@ =~= edit_fields());
    r
}

/// The closed set of action kinds the form cycles through: the kinds a
/// press resolves, plus `none` to disarm a press.
pub open spec fn edit_kinds() -> Seq<Seq<char>> {
    seq!["popup"@, "run"@, "workspace"@, "plugin"@, "none"@]
}

/// The closed set of action kinds the form cycles through.
pub fn edit_kind_choices() -> (r: Vec<&'static str>)
    ensures
        strs(r@) == edit_kinds(),
{
    let r: Vec<&'static str> = vec!["popup", "run", "workspace", "plugin", "none"];
    assert(strs(r@) =~= edit_kinds());
    r
}

/// The editor's state, as plain values.
pub struct FormView {
    pub section_id: Seq<char>,
    pub shows: Seq<char>,
    pub kind_choice: usize,
    pub value_text: Seq<char>,
    pub width_text: Seq<char>,
    pub height_text: Seq<char>,
    pub field: BarAppEditField,
    pub validation_error: Option<Seq<char>>,
}

/// The editor's state.
#[derive(Debug, PartialEq)]
pub struct BarAppEditForm {
    /// The section id the override binds to, resolved when the form opened.
    pub section_id: String,
    /// What the row shows, echoed in the form header.
    pub shows: String,
    /// Index into the closed set of action kinds.
    pub kind_choice: usize,
    /// One line of text, read per kind: popup and run split it into argv on
    /// whitespace, workspace reads a name, plugin an action id, none ignores it.
    pub value_text: String,
    pub width_text: String,
    pub height_text: String,
    pub field: BarAppEditField,
    /// Why the last Save was refused; cleared by the next edit.
    pub validation_error: Option<String>,
}

impl View for BarAppEditForm {
    type V = FormView;

    open spec fn view(&self) -> FormView {
        FormView {
            section_id: self.section_id@,
            shows: self.shows@,
            kind_choice: self.kind_choice,
            value_text: self.value_text@,
            width_text: self.width_text@,
            height_text: self.height_text@,
            field: self.field,
            validation_error: opt_chars(self.validation_error),
        }
    }
}

/// The field one step down (or up) from `f`, stopping at the ends.
pub open spec fn stepped_field(f: BarAppEditField, forward: bool) -> BarAppEditField {
    match (f, forward) {
        (BarAppEditField::Kind, true) => BarAppEditField::Value,
        (BarAppEditField::Value, true) => BarAppEditField::Width,
        (BarAppEditField::Width, true) => BarAppEditField::Height,
        (BarAppEditField::Height, true) => BarAppEditField::Save,
        (BarAppEditField::Save, true) => BarAppEditField::Cancel,
        (BarAppEditField::Cancel, true) => BarAppEditField::Cancel,
        (BarAppEditField::Kind, false) => BarAppEditField::Kind,
        (BarAppEditField::Value, false) => BarAppEditField::Kind,
        (BarAppEditField::Width, false) => BarAppEditField::Value,
        (BarAppEditField::Height, false) => BarAppEditField::Width,
        (BarAppEditField::Save, false) => BarAppEditField::Height,
        (BarAppEditField::Cancel, false) => BarAppEditField::Save,
    }
}

/// The kind choice one step around the closed set, wrapping at both ends.
pub open spec fn cycled_kind(choice: usize, forward: bool) -> usize {
    if forward { ((choice + 1) % 5) as usize } else { ((choice + 4) % 5) as usize }
}

/// The text with its last character removed, if it has one.
pub open spec fn without_last(s: Seq<char>) -> Seq<char> {
    if s.len() > 0 { s.drop_last() } else { s }
}

/// Remove the last character of a string, if it has one.
fn pop_char(s: &mut String)
    ensures
        final(s)@ == without_last(old(s)@),
{
    let cs = chars_of(s.as_str());
    if cs.len() > 0 {
        let mut kept: Vec<char> = Vec::new();
        let mut i: usize = 0;
        while i + 1 < cs.len()
            invariant
                cs.len() > 0,
                i + 1 <= cs@.len(),
                kept@ == cs@.subrange(0, i as int),
            decreases cs.len() - i,
        {
            kept.push(cs[i]);
            i = i + 1;
            assert(kept@ =~= cs@.subrange(0, i as int));
        }
        assert(kept@ =~= old(s)@.drop_last());
        *s = string_from_chars(&kept);
    }
}

/// The first place among `indices` whose section exists and has a press,
/// or `-1`.
pub open spec fn seed_at(secs: Seq<SectionView>, indices: Seq<usize>) -> int
    decreases indices.len(),
{
    if indices.len() == 0 {
        -1
    } else {
        let p = seed_at(secs, indices.drop_last());
        if p >= 0 {
            p
        } else if indices.last() < secs.len() && action_summary_spec(secs[indices.last() as int].action) is Some {
            indices.len() - 1
        } else {
            -1
        }
    }
}

/// The action a row's form is seeded from: its first section with a press
/// speaks for it; a dead-end row seeds an empty action.
pub open spec fn seed_action(secs: Seq<SectionView>, indices: Seq<usize>) -> ActionView {
    let p = seed_at(secs, indices);
    if p >= 0 { secs[indices[p] as int].action } else { empty_action() }
}

/// Where a kind stands in the closed set; an unset or unknown kind seeds as
/// `none`.
pub open spec fn kind_index(kind: Seq<char>) -> usize {
    let i = index_of(edit_kinds(), kind);
    if i >= 0 { i as usize } else { 4 }
}

/// The value line a seed shows: the name of a workspace, the id of a
/// plugin action, else the argv joined by spaces.
pub open spec fn seed_value(a: ActionView) -> Seq<char> {
    if a.kind == "workspace"@ {
        a.name
    } else if a.kind == "plugin"@ {
        a.command
    } else {
        join(a.argv, " "@)
    }
}

/// A popup size as the form echoes it: a number of cells, or a percent.
pub open spec fn size_text(size: Option<PopupSize>) -> Seq<char> {
    match size {
        Some(PopupSize::Cells(c)) => decimal(c as nat),
        Some(PopupSize::Percent(p)) => decimal(p as nat) + "%"@,
        None => Seq::empty(),
    }
}

fn size_text_of(size: Option<PopupSize>) -> (r: String)
    ensures
        r@ == size_text(size),
{
    match size {
        Some(PopupSize::Cells(c)) => decimal_string(c as u64),
        Some(PopupSize::Percent(p)) => {
            let mut s = decimal_string(p as u64);
            push_text(&mut s, "%");
            s
        },
        None => String::new(),
    }
}

/// The refusal for a row none of whose sections carries an id.
pub open spec fn no_id_hint() -> Seq<char> {
    "the overlay binds by id and none of this row's sections carries one; add id = \"...\" to the section in your config.toml to edit it here"@
}

/// The form a row opens, seeded from what the row does today.
pub open spec fn seeded_form(section_id: Seq<char>, shows: Seq<char>, seed: ActionView) -> FormView {
    FormView {
        section_id,
        shows,
        kind_choice: kind_index(seed.kind),
        value_text: seed_value(seed),
        width_text: size_text(seed.width),
        height_text: size_text(seed.height),
        field: BarAppEditField::Kind,
        validation_error: None,
    }
}

/// The value name the form's value row wears for the chosen kind.
pub open spec fn value_name(choice: usize) -> Seq<char> {
    if choice < 5 && edit_kinds()[choice as int] == "workspace"@ {
        "workspace"@
    } else if choice < 5 && edit_kinds()[choice as int] == "plugin"@ {
        "action id"@
    } else if choice < 5 && edit_kinds()[choice as int] == "none"@ {
        "(disarmed)"@
    } else {
        "command"@
    }
}

/// Spaces enough to fill `s` out to `width` characters.
pub open spec fn padded(s: Seq<char>, width: nat) -> Seq<char> {
    if s.len() >= width { s } else { s + Seq::new((width - s.len()) as nat, |i: int| ' ') }
}

/// A text, or a dash when it is empty.
pub open spec fn text_or_dash(s: Seq<char>) -> Seq<char> {
    if s.len() == 0 { "\u{2014}"@ } else { s }
}

/// One form row's text, in the label-then-value shape the Configure rows wear.
pub open spec fn edit_row_label_spec(form: FormView, field: BarAppEditField) -> Seq<char> {
    match field {
        BarAppEditField::Kind => "kind       \u{2039} "@ + (if form.kind_choice < 5 {
            edit_kinds()[form.kind_choice as int]
        } else {
            "?"@
        }) + " \u{203a}"@,
        BarAppEditField::Value => padded(value_name(form.kind_choice), 10) + " "@ + text_or_dash(form.value_text),
        BarAppEditField::Width => "width      "@ + text_or_dash(form.width_text),
        BarAppEditField::Height => "height     "@ + text_or_dash(form.height_text),
        BarAppEditField::Save => "[ Save ]"@,
        BarAppEditField::Cancel => "[ Cancel ]"@,
    }
}

fn text_or_dash_of(s: &String) -> (r: String)
    ensures
        r@ == text_or_dash(s@),
{
    if s.as_str().is_empty() { owned("\u{2014}") } else { s.clone() }
}

/// One form row's text.
pub fn edit_row_label(form: &BarAppEditForm, field: BarAppEditField) -> (r: String)
    ensures
        r@ == edit_row_label_spec(form@, field),
{
    let kinds = edit_kind_choices();
    assert(strs(kinds@).len() == 5);
    match field {
        BarAppEditField::Kind => {
            let mut s = owned("kind       \u{2039} ");
            if form.kind_choice < kinds.len() {
                assert(kinds@[form.kind_choice as int]@ == edit_kinds()[form.kind_choice as int]);
                push_text(&mut s, kinds[form.kind_choice]);
            } else {
                push_text(&mut s, "?");
            }
            push_text(&mut s, " \u{203a}");
            s
        },
        BarAppEditField::Value => {
            let name = if form.kind_choice < kinds.len() && str_equal(kinds[form.kind_choice], "workspace") {
                "workspace"
            } else if form.kind_choice < kinds.len() && str_equal(kinds[form.kind_choice], "plugin") {
                "action id"
            } else if form.kind_choice < kinds.len() && str_equal(kinds[form.kind_choice], "none") {
                "(disarmed)"
            } else {
                "command"
            };
            proof {
                if form.kind_choice < 5 {
                    assert(kinds@[form.kind_choice as int]@ == edit_kinds()[form.kind_choice as int]);
                }
            }
            let mut s = owned(name);
            let n = name.unicode_len();
            let mut k: usize = n;
            while k < 10
                invariant
                    n == name@.len(),
                    n <= k <= 10 || (n > 10 && k == n),
                    s@ == name@ + Seq::new((k - n) as nat, |i: int| ' '),
                decreases 10 - k,
            {
                let ghost before = s@;
                push_text(&mut s, " ");
                proof {
                    reveal_strlit(" ");
                }
                k = k + 1;
                assert(s@ =~= name@ + Seq::new((k - n) as nat, |i: int| ' '));
            }
            proof {
                if n >= 10 {
                    assert(s@ =~= name@);
                }
            }
            push_text(&mut s, " ");
            let t = text_or_dash_of(&form.value_text);
            push_text(&mut s, t.as_str());
            s
        },
        BarAppEditField::Width => {
            let mut s = owned("width      ");
            let t = text_or_dash_of(&form.width_text);
            push_text(&mut s, t.as_str());
            s
        },
        BarAppEditField::Height => {
            let mut s = owned("height     ");
            let t = text_or_dash_of(&form.height_text);
            push_text(&mut s, t.as_str());
            s
        },
        BarAppEditField::Save => owned("[ Save ]"),
        BarAppEditField::Cancel => owned("[ Cancel ]"),
    }
}

/// What a size field reads as: nothing when blank, else a popup size; the
/// refusal names the field.
pub open spec fn parsed_size(text: Seq<char>, name: Seq<char>) -> Result<Option<PopupSize>, Seq<char>> {
    let t = trim(text);
    if t.len() == 0 {
        Ok(None)
    } else {
        match parse_popup_size(t) {
            Some(size) => Ok(Some(size)),
            None => Err(name + " "@ + size_refusal()),
        }
    }
}

/// What the size parser says of a shape it does not accept.
pub open spec fn size_refusal() -> Seq<char> {
    "expected a cell count like 40 or a percentage like 80%"@
}

/// The action a form describes, or why it cannot be saved. Sizes are read
/// for every kind, so a typo is refused rather than silently carried; they
/// are written only for a popup.
pub open spec fn form_action(form: FormView) -> Result<ActionView, Seq<char>> {
    let kind = if form.kind_choice < 5 { edit_kinds()[form.kind_choice as int] } else { "none"@ };
    let value = trim(form.value_text);
    match parsed_size(form.width_text, "width:"@) {
        Err(e) => Err(e),
        Ok(width) => match parsed_size(form.height_text, "height:"@) {
            Err(e) => Err(e),
            Ok(height) => {
                if kind == "none"@ {
                    Ok(empty_action())
                } else if kind == "popup"@ || kind == "run"@ {
                    if words(value).len() == 0 {
                        Err("a "@ + kind + " action needs a command line"@)
                    } else {
                        Ok(ActionView {
                            kind,
                            argv: words(value),
                            width: if kind == "popup"@ { width } else { None },
                            height: if kind == "popup"@ { height } else { None },
                            ..empty_action()
                        })
                    }
                } else if kind == "workspace"@ {
                    if value.len() == 0 {
                        Err("a workspace action needs the workspace's name"@)
                    } else {
                        Ok(ActionView { kind, name: value, ..empty_action() })
                    }
                } else {
                    if value.len() == 0 {
                        Err("a plugin action needs its action id"@)
                    } else {
                        Ok(ActionView { kind, command: value, ..empty_action() })
                    }
                }
            },
        },
    }
}

fn parse_size_field(text: &String, name: &str) -> (r: Result<Option<PopupSize>, String>)
    ensures
        match parsed_size(text@, name@) {
            Ok(v) => r == Ok::<Option<PopupSize>, String>(v),
            Err(e) => r is Err && r->Err_0@ == e,
        },
{
    let t = trimmed(text.as_str());
    if t.as_str().is_empty() {
        return Ok(None);
    }
    match PopupSize::parse_cli(t.as_str()) {
        Ok(size) => Ok(Some(size)),
        Err(_) => {
            let mut s = owned(name);
            push_text(&mut s, " ");
            push_text(&mut s, "expected a cell count like 40 or a percentage like 80%");
            Err(s)
        },
    }
}

impl BarConfigPanelState {
    /// Open the editor for the selected Apps row, seeded from what the row
    /// does today. A row whose sections carry no id cannot be re-aimed by
    /// the overlay, so the attempt is refused with the hint.
    pub fn open_edit_form(&mut self) -> (r: Result<(), String>)
        ensures
            ({
                let rows = app_rows_spec(bar_on(old(self).original@, old(self).edge).sections);
                let secs = bar_on(old(self).original@, old(self).edge).sections;
                if old(self).selected >= rows.len() {
                    &&& r is Err && r->Err_0@ == "no row is selected"@
                    &&& final(self).edit == old(self).edit
                } else if rows[old(self).selected as int].section_id is None {
                    &&& r is Err && r->Err_0@ == no_id_hint()
                    &&& final(self).edit == old(self).edit
                } else {
                    let row = rows[old(self).selected as int];
                    &&& r is Ok
                    &&& final(self).edit is Some
                    &&& final(self).edit->0@ == seeded_form(
                        row.section_id->0,
                        row.shows,
                        seed_action(secs, row.section_indices),
                    )
                }
            }),
            final(self).tab == old(self).tab,
            final(self).edge == old(self).edge,
            final(self).draft == old(self).draft,
            final(self).original == old(self).original,
            final(self).scope_all == old(self).scope_all,
            final(self).selected == old(self).selected,
    {
        let rows = self.app_rows();
        if self.selected >= rows.len() {
            return Err(owned("no row is selected"));
        }
        let row = &rows[self.selected];
        assert(row@ == row_views(rows@)[self.selected as int]);
        let section_id = match &row.section_id {
            Some(id) => id.clone(),
            None => {
                return Err(owned(
                    "the overlay binds by id and none of this row's sections carries one; add id = \"...\" to the section in your config.toml to edit it here",
                ));
            },
        };
        let bar = edge_config(&self.original, self.edge);
        let ghost secs = bar@.sections;
        let mut seed_idx: Option<usize> = None;
        let mut k: usize = 0;
        while k < row.section_indices.len()
            invariant
                secs == bar@.sections,
                k <= row.section_indices@.len(),
                match seed_idx {
                    Some(p) => p == seed_at(secs, row.section_indices@.subrange(0, k as int)),
                    None => seed_at(secs, row.section_indices@.subrange(0, k as int)) == -1,
                },
            decreases row.section_indices.len() - k,
        {
            let ghost pre = row.section_indices@.subrange(0, k as int);
            assert(row.section_indices@.subrange(0, k + 1).drop_last() =~= pre);
            if seed_idx.is_none() {
                let idx = row.section_indices[k];
                if idx < bar.sections.len() {
                    assert(secs[idx as int] == bar.sections@[idx as int]@);
                    if action_summary(&bar.sections[idx].action).is_some() {
                        seed_idx = Some(k);
                    }
                }
            }
            k = k + 1;
        }
        assert(row.section_indices@.subrange(0, k as int) =~= row.section_indices@);
        proof {
            lemma_seed_at(secs, row.section_indices@);
        }
        let seed = match seed_idx {
            Some(p) => bar.sections[row.section_indices[p]].action.clone(),
            None => ShellBarSectionActionConfig::default(),
        };
        let kinds = edit_kind_choices();
        let kind_choice = match str_position_of(&kinds, seed.kind.as_str()) {
            Some(i) => i,
            None => 4,
        };
        proof {
            lemma_index_of(edit_kinds(), seed@.kind);
        }
        let value_text = if str_equal(seed.kind.as_str(), "workspace") {
            seed.name.clone()
        } else if str_equal(seed.kind.as_str(), "plugin") {
            seed.command.clone()
        } else {
            join_texts(&seed.argv, " ")
        };
        let form = BarAppEditForm {
            section_id,
            shows: row.shows.clone(),
            kind_choice,
            value_text,
            width_text: size_text_of(seed.width),
            height_text: size_text_of(seed.height),
            field: BarAppEditField::Kind,
            validation_error: None,
        };
        self.edit = Some(form);
        Ok(())
    }

    /// Move the form cursor one field down (or up), stopping at the ends.
    pub fn edit_field_step(&mut self, forward: bool)
        ensures
            match old(self).edit {
                Some(f) => final(self).edit == Some(BarAppEditForm { field: stepped_field(f.field, forward), ..f }),
                None => final(self).edit is None,
            },
            final(self).tab == old(self).tab,
            final(self).edge == old(self).edge,
            final(self).draft == old(self).draft,
            final(self).original == old(self).original,
            final(self).scope_all == old(self).scope_all,
            final(self).selected == old(self).selected,
    {
        match self.edit.as_mut() {
            Some(form) => {
                form.field = match (form.field, forward) {
                    (BarAppEditField::Kind, true) => BarAppEditField::Value,
                    (BarAppEditField::Value, true) => BarAppEditField::Width,
                    (BarAppEditField::Width, true) => BarAppEditField::Height,
                    (BarAppEditField::Height, true) => BarAppEditField::Save,
                    (BarAppEditField::Save, true) => BarAppEditField::Cancel,
                    (BarAppEditField::Cancel, true) => BarAppEditField::Cancel,
                    (BarAppEditField::Kind, false) => BarAppEditField::Kind,
                    (BarAppEditField::Value, false) => BarAppEditField::Kind,
                    (BarAppEditField::Width, false) => BarAppEditField::Value,
                    (BarAppEditField::Height, false) => BarAppEditField::Width,
                    (BarAppEditField::Save, false) => BarAppEditField::Height,
                    (BarAppEditField::Cancel, false) => BarAppEditField::Save,
                };
            },
            None => {},
        }
    }

    /// Cycle the kind through the closed set, wrapping at both ends; the
    /// last refusal is forgotten.
    pub fn edit_cycle_kind(&mut self, forward: bool)
        ensures
            match old(self).edit {
                Some(f) => final(self).edit is Some && final(self).edit->0@ == (FormView {
                    kind_choice: cycled_kind(f.kind_choice, forward),
                    validation_error: None,
                    ..f@
                }),
                None => final(self).edit is None,
            },
            final(self).tab == old(self).tab,
            final(self).edge == old(self).edge,
            final(self).draft == old(self).draft,
            final(self).original == old(self).original,
            final(self).scope_all == old(self).scope_all,
            final(self).selected == old(self).selected,
    {
        match self.edit.as_mut() {
            Some(form) => {
                let at = form.kind_choice % 5;
                form.kind_choice = if forward {
                    (at + 1) % 5
                } else {
                    (at + 4) % 5
                };
                form.validation_error = None;
            },
            None => {},
        }
    }

    /// Type into whichever text field holds the cursor; elsewhere typing
    /// does nothing.
    pub fn edit_insert_text(&mut self, text: &str)
        ensures
            match old(self).edit {
                Some(f) => final(self).edit is Some && final(self).edit->0@ == (match f.field {
                    BarAppEditField::Value => FormView { value_text: f.value_text@ + text@, validation_error: None, ..f@ },
                    BarAppEditField::Width => FormView { width_text: f.width_text@ + text@, validation_error: None, ..f@ },
                    BarAppEditField::Height => FormView { height_text: f.height_text@ + text@, validation_error: None, ..f@ },
                    _ => f@,
                }),
                None => final(self).edit is None,
            },
            final(self).tab == old(self).tab,
            final(self).edge == old(self).edge,
            final(self).draft == old(self).draft,
            final(self).original == old(self).original,
            final(self).scope_all == old(self).scope_all,
            final(self).selected == old(self).selected,
    {
        match self.edit.as_mut() {
            Some(form) => {
                match form.field {
                    BarAppEditField::Value => push_text(&mut form.value_text, text),
                    BarAppEditField::Width => push_text(&mut form.width_text, text),
                    BarAppEditField::Height => push_text(&mut form.height_text, text),
                    _ => return,
                }
                form.validation_error = None;
            },
            None => {},
        }
    }

    /// Backspace in whichever text field holds the cursor.
    pub fn edit_delete_char(&mut self)
        ensures
            match old(self).edit {
                Some(f) => final(self).edit is Some && final(self).edit->0@ == (match f.field {
                    BarAppEditField::Value => FormView { value_text: without_last(f.value_text@), validation_error: None, ..f@ },
                    BarAppEditField::Width => FormView { width_text: without_last(f.width_text@), validation_error: None, ..f@ },
                    BarAppEditField::Height => FormView { height_text: without_last(f.height_text@), validation_error: None, ..f@ },
                    _ => f@,
                }),
                None => final(self).edit is None,
            },
            final(self).tab == old(self).tab,
            final(self).edge == old(self).edge,
            final(self).draft == old(self).draft,
            final(self).original == old(self).original,
            final(self).scope_all == old(self).scope_all,
            final(self).selected == old(self).selected,
    {
        match self.edit.as_mut() {
            Some(form) => {
                match form.field {
                    BarAppEditField::Value => pop_char(&mut form.value_text),
                    BarAppEditField::Width => pop_char(&mut form.width_text),
                    BarAppEditField::Height => pop_char(&mut form.height_text),
                    _ => return,
                }
                form.validation_error = None;
            },
            None => {},
        }
    }
}

proof fn lemma_seed_at(secs: Seq<SectionView>, indices: Seq<usize>)
    ensures
        -1 <= seed_at(secs, indices) < indices.len(),
        seed_at(secs, indices) >= 0 ==> indices[seed_at(secs, indices)] < secs.len(),
    decreases indices.len(),
{
    if indices.len() > 0 {
        lemma_seed_at(secs, indices.drop_last());
        let p = seed_at(secs, indices.drop_last());
        if p >= 0 {
            assert(indices.drop_last()[p] == indices[p]);
        }
    }
}

impl BarConfigPanelState {
    /// Parse the form and merge it over the overlay's existing overrides:
    /// the full list the serializer will write. Nothing here touches the
    /// disk, so the refusals (a bad size, a kind missing its value) stand on
    /// their own.
    pub fn edit_save_payload(&self, existing: Vec<ManagedSectionOverride>) -> (r: Result<Vec<ManagedSectionOverride>, String>)
        ensures
            match self.edit {
                None => r is Err && r->Err_0@ == "no editor is open"@,
                Some(f) => match form_action(f@) {
                    Err(m) => r is Err && r->Err_0@ == m,
                    Ok(a) => r is Ok && override_views(r->Ok_0@) == upserted_view(
                        override_views(existing@),
                        SectionOverrideView { id: f.section_id@, action: Some(a) },
                    ),
                },
            },
    {
        let form = match &self.edit {
            Some(f) => f,
            None => {
                return Err(owned("no editor is open"));
            },
        };
        let kinds = edit_kind_choices();
        assert(strs(kinds@).len() == 5);
        let kind: &str = if form.kind_choice < 5 {
            assert(kinds@[form.kind_choice as int]@ == edit_kinds()[form.kind_choice as int]);
            kinds[form.kind_choice]
        } else {
            "none"
        };
        let width = match parse_size_field(&form.width_text, "width:") {
            Ok(w) => w,
            Err(e) => {
                return Err(e);
            },
        };
        let height = match parse_size_field(&form.height_text, "height:") {
            Ok(h) => h,
            Err(e) => {
                return Err(e);
            },
        };
        let value = trimmed(form.value_text.as_str());
        let action = if str_equal(kind, "none") {
            ShellBarSectionActionConfig::default()
        } else if str_equal(kind, "popup") || str_equal(kind, "run") {
            let argv = split_words(value.as_str());
            assert(texts(argv@) =~= argv@.map_values(|w: String| w@));
            if argv.len() == 0 {
                let mut m = owned("a ");
                push_text(&mut m, kind);
                push_text(&mut m, " action needs a command line");
                return Err(m);
            }
            let popup = str_equal(kind, "popup");
            ShellBarSectionActionConfig {
                kind: owned(kind),
                argv,
                name: String::new(),
                command: String::new(),
                width: if popup { width } else { None },
                height: if popup { height } else { None },
            }
        } else if str_equal(kind, "workspace") {
            if value.as_str().is_empty() {
                return Err(owned("a workspace action needs the workspace's name"));
            }
            let a = ShellBarSectionActionConfig {
                kind: owned(kind),
                argv: Vec::new(),
                name: value,
                command: String::new(),
                width: None,
                height: None,
            };
            assert(texts(a.argv@) =~= Seq::<Seq<char>>::empty());
            a
        } else {
            if value.as_str().is_empty() {
                return Err(owned("a plugin action needs its action id"));
            }
            let a = ShellBarSectionActionConfig {
                kind: owned(kind),
                argv: Vec::new(),
                name: String::new(),
                command: value,
                width: None,
                height: None,
            };
            assert(texts(a.argv@) =~= Seq::<Seq<char>>::empty());
            a
        };
        let update = ManagedSectionOverride { id: form.section_id.clone(), action: Some(action) };
        Ok(upsert_section_override(existing, update))
    }
}

/// The kind is a closed set that cycles and wraps: from any choice in it, a
/// step back undoes a step forward, and five steps forward come home.
pub proof fn law_kind_cycle_wraps(choice: usize)
    requires
        choice < 5,
    ensures
        cycled_kind(cycled_kind(choice, true), false) == choice,
        cycled_kind(cycled_kind(choice, false), true) == choice,
        cycled_kind(
            cycled_kind(cycled_kind(cycled_kind(cycled_kind(choice, true), true), true), true),
            true,
        ) == choice,
        forall|c: usize, f: bool| cycled_kind(c, f) < 5,
{
}

/// The form cursor walks the six fields and stops at both ends.
pub proof fn law_field_step_stops_at_the_ends(f: BarAppEditField)
    ensures
        stepped_field(BarAppEditField::Cancel, true) == BarAppEditField::Cancel,
        stepped_field(BarAppEditField::Kind, false) == BarAppEditField::Kind,
        f != BarAppEditField::Cancel ==> stepped_field(stepped_field(f, true), false) == f,
        f != BarAppEditField::Kind ==> stepped_field(stepped_field(f, false), true) == f,
{
}


impl BarConfigPanelState {
    /// Prepare Save: the override to write for the focused edge carries the
    /// overlay's rebindings with the form merged in, and nothing else. A
    /// refused form keeps its reason for the person to read and writes
    /// nothing; the panel is otherwise untouched.
    pub fn prepare_edit_save(&mut self, existing: Vec<ManagedSectionOverride>) -> (r: Option<ManagedBarOverride>)
        ensures
            final(self).tab == old(self).tab,
            final(self).edge == old(self).edge,
            final(self).draft == old(self).draft,
            final(self).original == old(self).original,
            final(self).scope_all == old(self).scope_all,
            final(self).selected == old(self).selected,
            match old(self).edit {
                None => r is None && final(self).edit is None,
                Some(f) => match form_action(f@) {
                    Err(m) => r is None && (final(self).edit matches Some(g) && g@ == (FormView {
                        validation_error: Some(m),
                        ..f@
                    })),
                    Ok(a) => final(self).edit == old(self).edit && (r matches Some(o) && o@ == (OverrideView {
                        enabled: None,
                        size: None,
                        style: None,
                        border: None,
                        color: None,
                        background: None,
                        section_overrides: o.section_overrides@,
                    }) && override_views(o.section_overrides@) == upserted_view(
                        override_views(existing@),
                        SectionOverrideView { id: f.section_id@, action: Some(a) },
                    )),
                },
            },
    {
        match self.edit_save_payload(existing) {
            Ok(list) => Some(
                ManagedBarOverride {
                    enabled: None,
                    size: None,
                    style: None,
                    border: None,
                    color: None,
                    background: None,
                    section_overrides: list,
                },
            ),
            Err(err) => {
                match self.edit.as_mut() {
                    Some(form) => {
                        form.validation_error = Some(err);
                    },
                    None => {},
                }
                None
            },
        }
    }
}

} // verus!
