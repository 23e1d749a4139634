//! Speedtest-tracker: how fast is the pipe, and a button to run a new test.
//! The figures are measured as fractions and rendered by the caller.

use vstd::prelude::*;

use crate::cli::pad_right;
use crate::panel::{
    action, cell, rows_view, unknown_action, unknown_action_text, ActionView, CellView, Panel, PanelView, RowItem,
    RowView, Tone,
};
use crate::text::{chars_of, owned, push_char, same, slice_string};
use crate::util::{trunc, trunc_text};

verus! {

/// One result line: its label padded to seven columns, then download (in
/// `tone`), upload and ping, each already rendered.
pub open spec fn result_row_of(label: Seq<char>, down: Seq<char>, up: Seq<char>, ping: Seq<char>, tone: Tone) -> RowView {
    RowView {
        key: seq![],
        cells: seq![
            CellView { text: pad_right(label, 7), tone: Tone::Muted },
            CellView { text: down, tone },
            CellView { text: up, tone: Tone::Info },
            CellView { text: ping, tone: Tone::Muted },
        ],
        actions: seq![],
    }
}

pub fn result_row(label: &str, down: &str, up: &str, ping: &str, tone: Tone) -> (r: RowItem)
    ensures
        r@ == result_row_of(label@, down@, up@, ping@, tone),
{
    let mut padded = owned(label);
    let n = label.unicode_len();
    let mut i = n;
    while i < 7
        invariant
            n == label@.len(),
            n <= i <= 7 || (n > 7 && i == n),
            padded@ == label@ + Seq::new((i - n) as nat, |j: int| ' '),
        decreases 7 - i,
    {
        push_char(&mut padded, ' ');
        i += 1;
        assert(padded@ =~= label@ + Seq::new((i - n) as nat, |j: int| ' '));
    }
    assert(padded@ =~= pad_right(label@, 7));
    let cells = vec![
        cell(padded.as_str(), Tone::Muted),
        cell(down, tone),
        cell(up, Tone::Info),
        cell(ping, Tone::Muted),
    ];
    let r = RowItem { key: String::new(), cells, actions: Vec::new() };
    assert(r@.cells =~= result_row_of(label@, down@, up@, ping@, tone).cells);
    assert(r@.actions =~= result_row_of(label@, down@, up@, ping@, tone).actions);
    r
}

pub open spec fn run_action() -> ActionView {
    ActionView { id: "run"@, label: "run a speedtest now"@, danger: false }
}

/// The panel: the latest run's rates as the badge (rendered by the caller),
/// the result rows, and when and where the last run was.
pub open spec fn speedtest_panel_of(rows: Seq<RowView>, badge: Seq<char>, created: Seq<char>, server: Seq<char>) -> PanelView {
    PanelView {
        badge: Some(badge),
        gauges: seq![],
        spark: None,
        rows,
        footer: Some(
            "last run "@ + created.take(if created.len() < 10 { created.len() as int } else { 10 }) + " · "@
                + trunc_text(server, 30),
        ),
        panel_actions: seq![run_action()],
    }
}

pub fn speedtest_panel(rows: Vec<RowItem>, badge: String, created: &str, server: &str) -> (p: Panel)
    ensures
        p@ == speedtest_panel_of(rows_view(rows@), badge@, created@, server@),
{
    let cv = chars_of(created);
    let day_len = if cv.len() < 10 { cv.len() } else { 10 };
    let day = slice_string(&cv, 0, day_len);
    let mut footer = owned("last run ");
    footer.append(day.as_str());
    footer.append(" · ");
    let srv = trunc(server, 30);
    footer.append(srv.as_str());
    let ghost want = speedtest_panel_of(rows_view(rows@), badge@, created@, server@);
    let p = Panel {
        badge: Some(badge),
        gauges: Vec::new(),
        spark: None,
        rows,
        footer: Some(footer),
        panel_actions: vec![action("run", "run a speedtest now", false)],
    };
    assert(day@ =~= created@.take(day_len as int));
    assert(p@.footer =~~= want.footer);
    assert(p@.gauges =~= want.gauges);
    assert(p@.panel_actions =~= want.panel_actions);
    p
}

/// Running a test: the path to ask and the status line, or the error for an
/// unknown action.
pub open spec fn speedtest_call_of(action_id: Seq<char>) -> Result<(Seq<char>, Seq<char>), Seq<char>> {
    if action_id == "run"@ {
        Ok(("/api/speedtest/run"@, "speedtest started — results in a minute or two"@))
    } else {
        Err(unknown_action_text(action_id))
    }
}

pub fn speedtest_call(action_id: &str) -> (r: Result<(String, String), String>)
    ensures
        match speedtest_call_of(action_id@) {
            Ok((p, d)) => r matches Ok(t) && t.0@ == p && t.1@ == d,
            Err(m) => r matches Err(x) && x@ == m,
        },
{
    if same(action_id, "run") {
        Ok((owned("/api/speedtest/run"), owned("speedtest started — results in a minute or two")))
    } else {
        Err(unknown_action(action_id))
    }
}

} // verus!
