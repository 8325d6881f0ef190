//! What each Configure row shows for its current draft value: one string, so
//! the render pass and its checks read the same words. A small closed set is
//! enumerated with the selected member in brackets; a long or open one wears
//! stepper arrows.

use vstd::prelude::*;

use crate::bar_apps::{dot_sep, join, join_texts};
use crate::bar_config::{bar_on, edge_config, BarEdge, BarsView};
use crate::bar_config_panel::{
    bar_edge_name, bar_style_choices, border_word, border_word_spec, edge_name, style_choices,
    BarConfigPanelState, BarPanelRow,
};
use crate::text::{decimal, decimal_string, owned, push_text, str_equal, strs, texts};

verus! {

/// A choice as the row shows it: the selected one in brackets.
pub open spec fn marked(choice: Seq<char>, selected: Seq<char>) -> Seq<char> {
    if choice == selected { "["@ + choice + "]"@ } else { choice }
}

/// Every member of a small closed set, the selected one in brackets.
pub open spec fn enumerate_spec(choices: Seq<Seq<char>>, selected: Seq<char>) -> Seq<char> {
    join(choices.map_values(|c: Seq<char>| marked(c, selected)), dot_sep())
}

/// Every member of a small closed set, the selected one in brackets.
pub fn enumerate_choice(choices: &Vec<&str>, selected: &str) -> (r: String)
    ensures
        r@ == enumerate_spec(strs(choices@), selected@),
{
    let mut parts: Vec<String> = Vec::new();
    let mut i: usize = 0;
    while i < choices.len()
        invariant
            i <= choices@.len(),
            texts(parts@) == strs(choices@).subrange(0, i as int).map_values(
                |c: Seq<char>| marked(c, selected@),
            ),
        decreases choices.len() - i,
    {
        let c = choices[i];
        let part = if str_equal(c, selected) {
            let mut s = owned("[");
            push_text(&mut s, c);
            push_text(&mut s, "]");
            s
        } else {
            owned(c)
        };
        let ghost before = parts@;
        let ghost pv = part@;
        parts.push(part);
        assert(texts(parts@) =~= texts(before).push(pv));
        assert(strs(choices@).subrange(0, i + 1).map_values(|c: Seq<char>| marked(c, selected@))
            =~= strs(choices@).subrange(0, i as int).map_values(|c: Seq<char>| marked(c, selected@)).push(pv));
        i = i + 1;
    }
    assert(strs(choices@).subrange(0, i as int) =~= strs(choices@));
    join_texts(&parts, " \u{b7} ")
}

/// `on` or `off`.
pub open spec fn on_off(b: bool) -> Seq<char> {
    if b { "on"@ } else { "off"@ }
}

/// What a row shows for the draft of a panel focused on `edge`.
pub open spec fn row_value_label_spec(draft: BarsView, edge: BarEdge, scope_all: bool, row: BarPanelRow) -> Seq<char> {
    let bar = bar_on(draft, edge);
    match row {
        BarPanelRow::Enabled => "Enabled: "@ + on_off(bar.enabled),
        BarPanelRow::Style => "Style: "@ + enumerate_spec(
            style_choices(),
            if bar.style.len() == 0 { "framed"@ } else { bar.style },
        ),
        BarPanelRow::Border => "Border: "@ + enumerate_spec(
            seq!["auto"@, "on"@, "off"@],
            border_word_spec(bar.border),
        ),
        BarPanelRow::Size => "Size: \u{25c2} "@ + decimal(bar.size as nat) + " \u{25b8}"@,
        BarPanelRow::Color => "Colour: \u{25c2} "@ + (if bar.color.len() == 0 {
            "(default)"@
        } else {
            bar.color
        }) + " \u{25b8}"@,
        BarPanelRow::Background => "Backdrop: \u{25c2} "@ + (if bar.background.len() == 0 {
            "(theme)"@
        } else {
            bar.background
        }) + " \u{25b8}"@,
        BarPanelRow::Scope => "Apply to: "@ + enumerate_spec(
            seq!["this bar"@, "all bars"@],
            if scope_all { "all bars"@ } else { "this bar"@ },
        ),
        BarPanelRow::OtherBar(e) => edge_name(e) + " bar: "@ + on_off(bar_on(draft, e).enabled),
        BarPanelRow::Apply => "[ Apply ]"@,
        BarPanelRow::Cancel => "[ Cancel ]"@,
    }
}

/// What a row shows for the panel's current draft.
pub fn row_value_label(state: &BarConfigPanelState, row: BarPanelRow) -> (r: String)
    ensures
        r@ == row_value_label_spec(state.draft@, state.edge, state.scope_all, row),
{
    let bar = edge_config(&state.draft, state.edge);
    match row {
        BarPanelRow::Enabled => {
            let mut s = owned("Enabled: ");
            push_text(&mut s, if bar.enabled { "on" } else { "off" });
            s
        },
        BarPanelRow::Style => {
            let choices = bar_style_choices();
            let current = if bar.style.as_str().is_empty() { "framed" } else { bar.style.as_str() };
            let e = enumerate_choice(&choices, current);
            let mut s = owned("Style: ");
            push_text(&mut s, e.as_str());
            s
        },
        BarPanelRow::Border => {
            let choices: Vec<&str> = vec!["auto", "on", "off"];
            assert(strs(choices@) =~= seq!["auto"@, "on"@, "off"@]);
            let e = enumerate_choice(&choices, border_word(bar.border));
            let mut s = owned("Border: ");
            push_text(&mut s, e.as_str());
            s
        },
        BarPanelRow::Size => {
            let mut s = owned("Size: \u{25c2} ");
            let n = decimal_string(bar.size as u64);
            push_text(&mut s, n.as_str());
            push_text(&mut s, " \u{25b8}");
            s
        },
        BarPanelRow::Color => {
            let mut s = owned("Colour: \u{25c2} ");
            push_text(&mut s, if bar.color.as_str().is_empty() { "(default)" } else { bar.color.as_str() });
            push_text(&mut s, " \u{25b8}");
            s
        },
        BarPanelRow::Background => {
            let mut s = owned("Backdrop: \u{25c2} ");
            push_text(
                &mut s,
                if bar.background.as_str().is_empty() { "(theme)" } else { bar.background.as_str() },
            );
            push_text(&mut s, " \u{25b8}");
            s
        },
        BarPanelRow::Scope => {
            let choices: Vec<&str> = vec!["this bar", "all bars"];
            assert(strs(choices@) =~= seq!["this bar"@, "all bars"@]);
            let e = enumerate_choice(&choices, if state.scope_all { "all bars" } else { "this bar" });
            let mut s = owned("Apply to: ");
            push_text(&mut s, e.as_str());
            s
        },
        BarPanelRow::OtherBar(e) => {
            let mut s = owned(bar_edge_name(e));
            push_text(&mut s, " bar: ");
            push_text(&mut s, if edge_config(&state.draft, e).enabled { "on" } else { "off" });
            s
        },
        BarPanelRow::Apply => owned("[ Apply ]"),
        BarPanelRow::Cancel => owned("[ Cancel ]"),
    }
}

} // verus!
