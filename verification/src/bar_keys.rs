//! The bar panel's answers to keys and presses. What the panel itself can do
//! (turn a face, move the selection, adjust a knob, edit the form) happens
//! here; what needs the application (repainting the preview, closing,
//! persisting, running an app) comes back as an outcome for it to perform.

use vstd::prelude::*;

use crate::bar_apps::app_rows_spec;
use crate::bar_config::bar_on;
use crate::bar_config_panel::{
    adjust_changes, adjusted_draft, panel_rows_spec, BarConfigPanelState, BarPanelRow, BarPanelTab,
};
use crate::bar_edit::{edit_field_order, edit_fields, BarAppEditField, BarAppEditForm};
use crate::text::string_push;

verus! {

/// The keys the panel answers to.
#[derive(Debug, Clone, Copy, PartialEq, Eq, Structural)]
pub enum PanelKey {
    Esc,
    Enter,
    Tab,
    Left,
    Right,
    Up,
    Down,
    Backspace,
    Char(char),
    Other,
}

/// What the application does after the panel answered.
#[derive(Debug, PartialEq)]
pub enum PanelOutcome {
    /// Nothing beyond what the panel already did.
    Nothing,
    /// Throw the draft away: repaint from the snapshot and close.
    Close,
    /// The draft changed: repaint the preview from it.
    PreviewChanged,
    /// The editor could not open for the selected row; say why.
    EditRefused(String),
    /// Save the editor over the overlay's rebindings.
    SaveEdit,
    /// Reach the app the Apps row at this index points at.
    RunAppRow(usize),
    /// Persist the draft's diff.
    Apply,
}

/// The other face.
pub open spec fn other_tab(tab: BarPanelTab) -> BarPanelTab {
    match tab {
        BarPanelTab::Apps => BarPanelTab::Configure,
        BarPanelTab::Configure => BarPanelTab::Apps,
    }
}

/// The panel's rows count as the forward face offers them.
pub open spec fn forward_rows(p: &BarConfigPanelState) -> nat {
    if p.edit is Some {
        6
    } else if p.tab == BarPanelTab::Apps {
        app_rows_spec(bar_on(p.original@, p.edge).sections).len()
    } else {
        panel_rows_spec(p.edge).len()
    }
}

/// Everything but the editor and the selection is as it was.
pub open spec fn keeps_draft(a: &BarConfigPanelState, b: &BarConfigPanelState) -> bool {
    &&& b.tab == a.tab
    &&& b.edge == a.edge
    &&& b.draft == a.draft
    &&& b.original == a.original
    &&& b.scope_all == a.scope_all
}

/// What a press on the selected row does to the panel `a`, leaving `b`
/// and answering `r`.
pub open spec fn press_effect(a: BarConfigPanelState, b: BarConfigPanelState, r: PanelOutcome) -> bool {
    &&& b.original == a.original
    &&& b.edge == a.edge
    &&& b.tab == a.tab
    &&& b.selected == a.selected
    &&& a.edit is Some ==> {
        let f = a.edit->0;
        &&& b.draft == a.draft
        &&& b.scope_all == a.scope_all
        &&& if a.selected >= 6 {
            r == PanelOutcome::Nothing && b.edit == a.edit
        } else if edit_fields()[a.selected as int] == BarAppEditField::Save {
            r == PanelOutcome::SaveEdit && b.edit == a.edit
        } else if edit_fields()[a.selected as int] == BarAppEditField::Cancel {
            r == PanelOutcome::Nothing && b.edit is None
        } else {
            r == PanelOutcome::Nothing && b.edit == Some(BarAppEditForm { field: edit_fields()[a.selected as int], ..f })
        }
    }
    &&& a.edit is None && a.tab == BarPanelTab::Apps ==> {
        &&& r == PanelOutcome::RunAppRow(a.selected)
        &&& b.draft == a.draft
        &&& b.scope_all == a.scope_all
        &&& b.edit is None
    }
    &&& a.edit is None && a.tab == BarPanelTab::Configure ==> {
        let rows = panel_rows_spec(a.edge);
        &&& b.edit is None
        &&& if a.selected >= rows.len() {
            r == PanelOutcome::Nothing && b.draft == a.draft && b.scope_all == a.scope_all
        } else if rows[a.selected as int] == BarPanelRow::Apply {
            r == PanelOutcome::Apply && b.draft == a.draft && b.scope_all == a.scope_all
        } else if rows[a.selected as int] == BarPanelRow::Cancel {
            r == PanelOutcome::Close && b.draft == a.draft && b.scope_all == a.scope_all
        } else {
            let row = rows[a.selected as int];
            &&& b.draft@ == adjusted_draft(a.draft@, a.original@, a.edge, row, true)
            &&& b.scope_all == (if row == BarPanelRow::Scope { !a.scope_all } else { a.scope_all })
            &&& r == (if adjust_changes(a.draft@, a.edge, row, true) {
                PanelOutcome::PreviewChanged
            } else {
                PanelOutcome::Nothing
            })
        }
    }
}

impl BarConfigPanelState {
    /// Enter or a click on the selected row. While the editor is up its
    /// fields are the rows: a press on a text field moves the cursor there,
    /// Cancel closes the editor, Save asks for the save. On the Configure
    /// face the verbs act and every other row adjusts forward; on the Apps
    /// face the row's own app is reached.
    pub fn press_row(&mut self) -> (r: PanelOutcome)
        ensures
            press_effect(*old(self), *final(self), r),
    {
        if self.edit.is_some() {
            let fields = edit_field_order();
            if self.selected >= fields.len() {
                return PanelOutcome::Nothing;
            }
            let field = fields[self.selected];
            match field {
                BarAppEditField::Save => PanelOutcome::SaveEdit,
                BarAppEditField::Cancel => {
                    self.edit = None;
                    PanelOutcome::Nothing
                },
                other => {
                    match self.edit.as_mut() {
                        Some(form) => {
                            form.field = other;
                        },
                        None => {},
                    }
                    PanelOutcome::Nothing
                },
            }
        } else {
            match self.tab {
                BarPanelTab::Apps => PanelOutcome::RunAppRow(self.selected),
                BarPanelTab::Configure => {
                    let rows = self.rows();
                    if self.selected >= rows.len() {
                        return PanelOutcome::Nothing;
                    }
                    match rows[self.selected] {
                        BarPanelRow::Apply => PanelOutcome::Apply,
                        BarPanelRow::Cancel => PanelOutcome::Close,
                        _ => {
                            if self.adjust_selected(true) {
                                PanelOutcome::PreviewChanged
                            } else {
                                PanelOutcome::Nothing
                            }
                        },
                    }
                },
            }
        }
    }

    /// A key while the editor is open: the named keys first, and every
    /// other key that carries a character is typing, so `e` lands in the
    /// text rather than reopening the form and `j` spells rather than walks.
    fn edit_key(&mut self, key: PanelKey) -> (r: PanelOutcome)
        requires
            old(self).edit is Some,
        ensures
            keeps_draft(old(self), final(self)),
            final(self).selected == old(self).selected,
            ({
                let f = old(self).edit->0;
                match key {
                    PanelKey::Enter => if f.field == BarAppEditField::Cancel {
                        r == PanelOutcome::Nothing && final(self).edit is None
                    } else {
                        r == PanelOutcome::SaveEdit && final(self).edit == old(self).edit
                    },
                    PanelKey::Esc => r == PanelOutcome::Nothing && final(self).edit is None,
                    _ => r == PanelOutcome::Nothing && final(self).edit is Some,
                }
            }),
    {
        match key {
            PanelKey::Enter => {
                let on_cancel = match &self.edit {
                    Some(form) => form.field == BarAppEditField::Cancel,
                    None => false,
                };
                if on_cancel {
                    self.edit = None;
                    PanelOutcome::Nothing
                } else {
                    PanelOutcome::SaveEdit
                }
            },
            PanelKey::Esc => {
                self.edit = None;
                PanelOutcome::Nothing
            },
            PanelKey::Tab | PanelKey::Down => {
                self.edit_field_step(true);
                PanelOutcome::Nothing
            },
            PanelKey::Up => {
                self.edit_field_step(false);
                PanelOutcome::Nothing
            },
            PanelKey::Left | PanelKey::Right => {
                let on_kind = match &self.edit {
                    Some(form) => form.field == BarAppEditField::Kind,
                    None => false,
                };
                if on_kind {
                    self.edit_cycle_kind(key == PanelKey::Right);
                }
                PanelOutcome::Nothing
            },
            PanelKey::Backspace => {
                self.edit_delete_char();
                PanelOutcome::Nothing
            },
            PanelKey::Char(ch) => {
                let mut text = String::new();
                string_push(&mut text, ch);
                self.edit_insert_text(text.as_str());
                PanelOutcome::Nothing
            },
            PanelKey::Other => PanelOutcome::Nothing,
        }
    }

    /// A key on the panel. The open editor answers first; `e` on the Apps
    /// face opens it; then Esc closes, Enter presses the row, Tab turns the
    /// face, ←/→ (or h/l) adjust on the Configure face only, and ↑/↓ (or
    /// k/j) move the selection within the forward face's rows.
    pub fn handle_key(&mut self, key: PanelKey) -> (r: PanelOutcome)
        ensures
            final(self).original == old(self).original,
            final(self).edge == old(self).edge,
            old(self).edit is Some && key == PanelKey::Esc ==> final(self).edit is None && r == PanelOutcome::Nothing
                && keeps_draft(old(self), final(self)),
            old(self).edit is Some && key != PanelKey::Esc && key != PanelKey::Enter ==> final(self).edit is Some
                && r == PanelOutcome::Nothing && keeps_draft(old(self), final(self)),
            old(self).edit is None ==> match key {
                PanelKey::Esc => r == PanelOutcome::Close && *final(self) == *old(self),
                PanelKey::Tab => r == PanelOutcome::Nothing && final(self).tab == other_tab(old(self).tab)
                    && final(self).selected == 0 && final(self).draft == old(self).draft
                    && final(self).edit is None,
                PanelKey::Left | PanelKey::Char('h') | PanelKey::Right | PanelKey::Char('l') => {
                    let forward = key == PanelKey::Right || key == PanelKey::Char('l');
                    if old(self).tab == BarPanelTab::Configure && old(self).selected < panel_rows_spec(
                        old(self).edge,
                    ).len() {
                        let row = panel_rows_spec(old(self).edge)[old(self).selected as int];
                        &&& final(self).draft@ == adjusted_draft(
                            old(self).draft@,
                            old(self).original@,
                            old(self).edge,
                            row,
                            forward,
                        )
                        &&& r == (if adjust_changes(old(self).draft@, old(self).edge, row, forward) {
                            PanelOutcome::PreviewChanged
                        } else {
                            PanelOutcome::Nothing
                        })
                    } else {
                        r == PanelOutcome::Nothing && final(self).draft == old(self).draft
                    }
                },
                PanelKey::Up | PanelKey::Char('k') => r == PanelOutcome::Nothing && final(self).selected == (
                if old(self).selected == 0 {
                    0
                } else {
                    (old(self).selected - 1) as usize
                }) && keeps_draft(old(self), final(self)),
                PanelKey::Down | PanelKey::Char('j') => r == PanelOutcome::Nothing && final(self).selected == (
                if old(self).selected + 1 < forward_rows(old(self)) {
                    (old(self).selected + 1) as usize
                } else {
                    old(self).selected
                }) && keeps_draft(old(self), final(self)),
                PanelKey::Enter => press_effect(*old(self), *final(self), r),
                PanelKey::Char('e') => if old(self).tab == BarPanelTab::Apps {
                    let rows = app_rows_spec(bar_on(old(self).original@, old(self).edge).sections);
                    &&& keeps_draft(old(self), final(self))
                    &&& final(self).selected == old(self).selected
                    &&& if old(self).selected < rows.len() && rows[old(self).selected as int].section_id is Some {
                        r == PanelOutcome::Nothing && final(self).edit is Some
                    } else {
                        r is EditRefused && final(self).edit is None
                    }
                } else {
                    r == PanelOutcome::Nothing && *final(self) == *old(self)
                },
                _ => r == PanelOutcome::Nothing && *final(self) == *old(self),
            },
    {
        if self.edit.is_some() {
            return self.edit_key(key);
        }
        if key == PanelKey::Char('e') && self.tab == BarPanelTab::Apps {
            return match self.open_edit_form() {
                Ok(()) => PanelOutcome::Nothing,
                Err(hint) => PanelOutcome::EditRefused(hint),
            };
        }
        match key {
            PanelKey::Esc => PanelOutcome::Close,
            PanelKey::Enter => self.press_row(),
            PanelKey::Tab => {
                let next = match self.tab {
                    BarPanelTab::Apps => BarPanelTab::Configure,
                    BarPanelTab::Configure => BarPanelTab::Apps,
                };
                self.switch_tab(next);
                PanelOutcome::Nothing
            },
            PanelKey::Left | PanelKey::Char('h') | PanelKey::Right | PanelKey::Char('l') => {
                let forward = key == PanelKey::Right || key == PanelKey::Char('l');
                if self.tab == BarPanelTab::Configure && self.adjust_selected(forward) {
                    PanelOutcome::PreviewChanged
                } else {
                    PanelOutcome::Nothing
                }
            },
            PanelKey::Up | PanelKey::Char('k') => {
                self.selected = self.selected.saturating_sub(1);
                PanelOutcome::Nothing
            },
            PanelKey::Down | PanelKey::Char('j') => {
                if self.selected.saturating_add(1) < self.forward_row_count() {
                    self.selected = self.selected + 1;
                }
                PanelOutcome::Nothing
            },
            _ => PanelOutcome::Nothing,
        }
    }
}

} // verus!
