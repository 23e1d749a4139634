//! NZBGet: usenet freight. Rates, remaining size, and the queue's groups;
//! the JSON-RPC calls are made outside, the decisions are made here.

use vstd::prelude::*;

use crate::panel::{
    cap_rows, first_rows,
    action, cell, rows_view, unknown_action, unknown_action_text, ActionView, Cell, CellView, Panel,
    PanelView, RowItem, RowView, Tone,
};
use crate::text::{has_prefix, lowercase, owned, parse_i64, parse_i64_of, same, starts_with, to_lowercase};
use crate::util::{trunc, trunc_text};

verus! {

/// A group's tone: downloading is good, paused is a warning, post-processing
/// (`PP_…`) is informational, the rest is quiet.
pub open spec fn group_tone_of(status: Seq<char>) -> Tone {
    if status == "DOWNLOADING"@ {
        Tone::Good
    } else if status == "PAUSED"@ {
        Tone::Warn
    } else if starts_with(status, "PP_"@) {
        Tone::Info
    } else {
        Tone::Muted
    }
}

pub fn group_tone(status: &str) -> (t: Tone)
    ensures
        t == group_tone_of(status@),
{
    if same(status, "DOWNLOADING") {
        Tone::Good
    } else if same(status, "PAUSED") {
        Tone::Warn
    } else if has_prefix(status, "PP_") {
        Tone::Info
    } else {
        Tone::Muted
    }
}

/// One queue group as the panel needs it; `progress` and `left` arrive
/// already rendered.
pub struct GroupRecord {
    pub key: String,
    pub name: String,
    pub progress: String,
    pub status: String,
    pub left: String,
}

pub open spec fn group_actions() -> Seq<ActionView> {
    seq![
        ActionView { id: "group_pause"@, label: "pause this download"@, danger: false },
        ActionView { id: "group_resume"@, label: "resume this download"@, danger: false },
    ]
}

pub open spec fn group_row_of(g: GroupRecord) -> RowView {
    RowView {
        key: g.key@,
        cells: seq![
            CellView { text: trunc_text(g.name@, 44), tone: Tone::Default },
            CellView { text: g.progress@, tone: Tone::Info },
            CellView { text: lowercase(g.status@), tone: group_tone_of(g.status@) },
            CellView { text: g.left@, tone: Tone::Muted },
        ],
        actions: group_actions(),
    }
}

pub fn group_row(g: &GroupRecord) -> (r: RowItem)
    ensures
        r@ == group_row_of(*g),
{
    let cells = vec![
        cell(trunc(g.name.as_str(), 44).as_str(), Tone::Default),
        cell(g.progress.as_str(), Tone::Info),
        Cell { text: to_lowercase(g.status.as_str()), tone: group_tone(g.status.as_str()) },
        cell(g.left.as_str(), Tone::Muted),
    ];
    let actions = vec![
        action("group_pause", "pause this download", false),
        action("group_resume", "resume this download", false),
    ];
    let r = RowItem { key: g.key.clone(), cells, actions };
    assert(r@.cells =~= group_row_of(*g).cells);
    assert(r@.actions =~= group_row_of(*g).actions);
    r
}

/// The badge: the rate and what is left, or a pause sign and what is left.
pub open spec fn nzbget_badge_of(paused: bool, rate: Seq<char>, left: Seq<char>) -> Seq<char> {
    if paused { "⏸ paused · "@ + left + " left"@ } else { rate + " · "@ + left + " left"@ }
}

pub fn nzbget_badge(paused: bool, rate: &str, left: &str) -> (b: String)
    ensures
        b@ == nzbget_badge_of(paused, rate@, left@),
{
    let mut b = if paused { owned("⏸ paused · ") } else {
        let mut r = owned(rate);
        r.append(" · ");
        r
    };
    b.append(left);
    b.append(" left");
    b
}

pub open spec fn queue_actions() -> Seq<ActionView> {
    seq![
        ActionView { id: "pause_all"@, label: "pause the whole queue"@, danger: false },
        ActionView { id: "resume_all"@, label: "resume the queue"@, danger: false },
    ]
}

/// How many download groups the panel lists: the top of the queue.
pub const GROUP_ROWS: usize = 12;

/// The NZBGet panel: the first `GROUP_ROWS` groups; `month` is this month's
/// download volume, rendered.
pub open spec fn nzbget_panel_of(rows: Seq<RowView>, badge: Seq<char>, month: Seq<char>) -> PanelView {
    PanelView {
        badge: Some(badge),
        gauges: seq![],
        spark: None,
        rows: first_rows(rows, GROUP_ROWS as nat),
        footer: Some(month + " this month"@),
        panel_actions: queue_actions(),
    }
}

pub fn nzbget_panel(rows: Vec<RowItem>, badge: String, month: &str) -> (p: Panel)
    ensures
        p@ == nzbget_panel_of(rows_view(rows@), badge@, month@),
        p@.rows.len() <= GROUP_ROWS,
{
    let ghost given = rows_view(rows@);
    let mut rows = rows;
    cap_rows(&mut rows, GROUP_ROWS);
    let mut footer = owned(month);
    footer.append(" this month");
    let p = Panel {
        badge: Some(badge),
        gauges: Vec::new(),
        spark: None,
        rows,
        footer: Some(footer),
        panel_actions: vec![
            action("pause_all", "pause the whole queue", false),
            action("resume_all", "resume the queue", false),
        ],
    };
    proof {
        let want = nzbget_panel_of(given, badge@, month@);
        assert(p@.gauges =~= want.gauges);
        assert(p@.panel_actions =~= want.panel_actions);
    }
    p
}

/// The error an RPC reply carries.
pub fn rpc_error(method: &str, message: &str) -> (m: String)
    ensures
        m@ == "nzbget rpc "@ + method@ + ": "@ + message@,
{
    let mut m = owned("nzbget rpc ");
    m.append(method);
    m.append(": ");
    m.append(message);
    m
}

/// One RPC: the method, for `editqueue` the command and group id, and the
/// status line once it went through.
pub struct NzbCall {
    pub method: String,
    pub edit: Option<(String, i64)>,
    pub done: String,
}

pub struct NzbCallView {
    pub method: Seq<char>,
    pub edit: Option<(Seq<char>, i64)>,
    pub done: Seq<char>,
}

impl View for NzbCall {
    type V = NzbCallView;

    open spec fn view(&self) -> NzbCallView {
        NzbCallView {
            method: self.method@,
            edit: match self.edit {
                Some((c, id)) => Some((c@, id)),
                None => None,
            },
            done: self.done@,
        }
    }
}

/// A group id from a row key; a key that is not a number names group 0.
pub open spec fn group_id_of(row_key: Seq<char>) -> i64 {
    match parse_i64_of(row_key) {
        Some(v) => v,
        None => 0,
    }
}

pub open spec fn nzbget_call_of(action_id: Seq<char>, row_key: Seq<char>) -> Result<NzbCallView, Seq<char>> {
    if action_id == "pause_all"@ {
        Ok(NzbCallView { method: "pausedownload"@, edit: None, done: "queue paused"@ })
    } else if action_id == "resume_all"@ {
        Ok(NzbCallView { method: "resumedownload"@, edit: None, done: "queue resumed"@ })
    } else if action_id == "group_pause"@ {
        Ok(NzbCallView { method: "editqueue"@, edit: Some(("GroupPause"@, group_id_of(row_key))), done: "download paused"@ })
    } else if action_id == "group_resume"@ {
        Ok(NzbCallView { method: "editqueue"@, edit: Some(("GroupResume"@, group_id_of(row_key))), done: "download resumed"@ })
    } else {
        Err(unknown_action_text(action_id))
    }
}

/// The RPC that carries out `action_id` on `row_key` (a group id).
pub fn nzbget_call(action_id: &str, row_key: &str) -> (r: Result<NzbCall, String>)
    ensures
        match nzbget_call_of(action_id@, row_key@) {
            Ok(c) => r matches Ok(k) && k@ == c,
            Err(m) => r matches Err(x) && x@ == m,
        },
{
    if same(action_id, "pause_all") {
        Ok(NzbCall { method: owned("pausedownload"), edit: None, done: owned("queue paused") })
    } else if same(action_id, "resume_all") {
        Ok(NzbCall { method: owned("resumedownload"), edit: None, done: owned("queue resumed") })
    } else if same(action_id, "group_pause") || same(action_id, "group_resume") {
        let id = match parse_i64(row_key) {
            Some(v) => v,
            None => 0,
        };
        if same(action_id, "group_pause") {
            Ok(NzbCall { method: owned("editqueue"), edit: Some((owned("GroupPause"), id)), done: owned("download paused") })
        } else {
            Ok(NzbCall { method: owned("editqueue"), edit: Some((owned("GroupResume"), id)), done: owned("download resumed") })
        }
    } else {
        Err(unknown_action(action_id))
    }
}

} // verus!
