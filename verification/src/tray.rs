//! Texts of the tray menu: usage figures and the widget toggle.

use vstd::prelude::*;

use crate::text::{decimal, decimal_string, lemma_decimal_injective, lemma_decimal_value_of_decimal};

verus! {

/// The session figure: `Session: N%`, or `Session: --` when unknown.
pub open spec fn session_label_spec(percent: Option<u32>) -> Seq<char> {
    match percent {
        Some(p) => "Session: "@ + decimal(p as nat) + "%"@,
        None => "Session: --"@,
    }
}

/// The weekly figure: `Week (all): N%`, or `Week (all): --` when unknown.
pub open spec fn weekly_label_spec(percent: Option<u32>) -> Seq<char> {
    match percent {
        Some(p) => "Week (all): "@ + decimal(p as nat) + "%"@,
        None => "Week (all): --"@,
    }
}

/// The toggle item offers to hide a visible widget and to show a hidden one.
pub open spec fn toggle_label_spec(is_visible: bool) -> Seq<char> {
    if is_visible { "Hide Widget"@ } else { "Show Widget"@ }
}

/// A known figure, zero included, is shown as a percentage ending in `%`,
/// never as the unknown `--`, and different figures are shown differently.
pub proof fn lemma_known_figures_are_shown(p: u32, q: u32)
    ensures
        session_label_spec(Some(p)).last() == '%',
        weekly_label_spec(Some(p)).last() == '%',
        session_label_spec(Some(p)) != session_label_spec(None),
        weekly_label_spec(Some(p)) != weekly_label_spec(None),
        session_label_spec(Some(p)) == session_label_spec(Some(q)) ==> p == q,
        weekly_label_spec(Some(p)) == weekly_label_spec(Some(q)) ==> p == q,
{
    reveal_strlit("%");
    reveal_strlit("Session: --");
    reveal_strlit("Week (all): --");
    reveal_strlit("Session: ");
    reveal_strlit("Week (all): ");
    assert(session_label_spec(None).last() == '-');
    assert(weekly_label_spec(None).last() == '-');
    lemma_decimal_value_of_decimal(p as nat);
    lemma_decimal_value_of_decimal(q as nat);
    let sp = "Session: "@;
    let wp = "Week (all): "@;
    if session_label_spec(Some(p)) == session_label_spec(Some(q)) {
        let a = session_label_spec(Some(p));
        assert(a.drop_last().skip(sp.len() as int) =~= decimal(p as nat));
        assert(session_label_spec(Some(q)).drop_last().skip(sp.len() as int) =~= decimal(q as nat));
        lemma_decimal_injective(p as nat, q as nat);
    }
    if weekly_label_spec(Some(p)) == weekly_label_spec(Some(q)) {
        let a = weekly_label_spec(Some(p));
        assert(a.drop_last().skip(wp.len() as int) =~= decimal(p as nat));
        assert(weekly_label_spec(Some(q)).drop_last().skip(wp.len() as int) =~= decimal(q as nat));
        lemma_decimal_injective(p as nat, q as nat);
    }
}

/// `prefix`, the number and a percent sign.
fn percent_label(prefix: &str, percent: u32) -> (label: String)
    ensures
        label@ == prefix@ + decimal(percent as nat) + "%"@,
{
    let mut label = prefix.to_owned();
    let digits = decimal_string(percent);
    label.append(digits.as_str());
    label.append("%");
    label
}

/// Menu text for the session window, from its utilization in whole percent.
pub fn session_stat_label(percent: Option<u32>) -> (label: String)
    ensures
        label@ == session_label_spec(percent),
        percent matches Some(p) ==> label@ == "Session: "@ + decimal(p as nat) + "%"@,
        percent is None ==> label@ == "Session: --"@,
{
    match percent {
        Some(p) => percent_label("Session: ", p),
        None => "Session: --".to_owned(),
    }
}

/// Menu text for the weekly window, from its utilization in whole percent.
pub fn weekly_stat_label(percent: Option<u32>) -> (label: String)
    ensures
        label@ == weekly_label_spec(percent),
        percent matches Some(p) ==> label@ == "Week (all): "@ + decimal(p as nat) + "%"@,
        percent is None ==> label@ == "Week (all): --"@,
{
    match percent {
        Some(p) => percent_label("Week (all): ", p),
        None => "Week (all): --".to_owned(),
    }
}

/// Menu text of the widget toggle.
pub fn toggle_widget_label(is_visible: bool) -> (label: String)
    ensures
        label@ == toggle_label_spec(is_visible),
{
    if is_visible {
        "Hide Widget".to_owned()
    } else {
        "Show Widget".to_owned()
    }
}

} // verus!
