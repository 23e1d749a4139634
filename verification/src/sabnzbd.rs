//! SABnzbd: the other usenet truck. Its API key rides in the URL,
//! so a caller scrubs transport errors with `util::redact` before anyone
//! sees them.

use vstd::prelude::*;

use crate::panel::{
    cap_rows, first_rows,
    action, cell, rows_view, unknown_action, unknown_action_text, ActionView, Cell, CellView, Panel, PanelView,
    RowItem, RowView, Tone,
};
use crate::text::{lowercase, owned, same, to_lowercase};
use crate::util::{trunc, trunc_text};

verus! {

/// How many queue slots the panel lists: the top of the queue.
pub const SLOT_ROWS: usize = 12;


/// A queue slot's tone by its status.
pub open spec fn slot_tone_of(status: Seq<char>) -> Tone {
    if status == "Downloading"@ {
        Tone::Good
    } else if status == "Paused"@ {
        Tone::Warn
    } else if status == "Queued"@ {
        Tone::Muted
    } else {
        Tone::Info
    }
}

pub fn slot_tone(status: &str) -> (t: Tone)
    ensures
        t == slot_tone_of(status@),
{
    if same(status, "Downloading") {
        Tone::Good
    } else if same(status, "Paused") {
        Tone::Warn
    } else if same(status, "Queued") {
        Tone::Muted
    } else {
        Tone::Info
    }
}

pub open spec fn slot_actions() -> Seq<ActionView> {
    seq![
        ActionView { id: "slot_pause"@, label: "pause this download"@, danger: false },
        ActionView { id: "slot_resume"@, label: "resume this download"@, danger: false },
        ActionView { id: "slot_delete"@, label: "delete from queue"@, danger: true },
    ]
}

/// A queue slot's row: file name, progress (rendered by the caller), the
/// status in lower case, and the time left.
pub open spec fn sab_row_of(key: Seq<char>, filename: Seq<char>, progress: Seq<char>, status: Seq<char>, timeleft: Seq<char>) -> RowView {
    RowView {
        key,
        cells: seq![
            CellView { text: trunc_text(filename, 42), tone: Tone::Default },
            CellView { text: progress, tone: Tone::Info },
            CellView { text: lowercase(status), tone: slot_tone_of(status) },
            CellView { text: timeleft, tone: Tone::Muted },
        ],
        actions: slot_actions(),
    }
}

pub fn sab_row(key: &str, filename: &str, progress: &str, status: &str, timeleft: &str) -> (r: RowItem)
    ensures
        r@ == sab_row_of(key@, filename@, progress@, status@, timeleft@),
{
    let cells = vec![
        cell(trunc(filename, 42).as_str(), Tone::Default),
        cell(progress, Tone::Info),
        Cell { text: to_lowercase(status), tone: slot_tone(status) },
        cell(timeleft, Tone::Muted),
    ];
    let actions = vec![
        action("slot_pause", "pause this download", false),
        action("slot_resume", "resume this download", false),
        action("slot_delete", "delete from queue", true),
    ];
    let r = RowItem { key: owned(key), cells, actions };
    assert(r@.cells =~= sab_row_of(key@, filename@, progress@, status@, timeleft@).cells);
    assert(r@.actions =~= slot_actions());
    r
}

pub open spec fn sab_queue_actions() -> Seq<ActionView> {
    seq![
        ActionView { id: "pause_all"@, label: "pause the whole queue"@, danger: false },
        ActionView { id: "resume_all"@, label: "resume the queue"@, danger: false },
    ]
}

/// The SABnzbd panel: `rate` (already rendered, e.g. "1.2 MB/s") or a pause
/// sign, what is left, the first `SLOT_ROWS` slots, and the free space on
/// the download disk.
pub open spec fn sab_panel_of(rows: Seq<RowView>, paused: bool, rate: Seq<char>, left: Seq<char>, disk: Seq<char>) -> PanelView {
    PanelView {
        badge: Some(if paused { "⏸ paused · "@ + left + " left"@ } else { rate + " · "@ + left + " left"@ }),
        gauges: seq![],
        spark: None,
        rows: first_rows(rows, SLOT_ROWS as nat),
        footer: Some(disk + " free on download disk"@),
        panel_actions: sab_queue_actions(),
    }
}

pub fn sab_panel(rows: Vec<RowItem>, paused: bool, rate: &str, left: &str, disk: &str) -> (p: Panel)
    ensures
        p@ == sab_panel_of(rows_view(rows@), paused, rate@, left@, disk@),
        p@.rows.len() <= SLOT_ROWS,
{
    let ghost given = rows_view(rows@);
    let mut rows = rows;
    cap_rows(&mut rows, SLOT_ROWS);
    let mut badge = if paused { owned("⏸ paused · ") } else {
        let mut b = owned(rate);
        b.append(" · ");
        b
    };
    badge.append(left);
    badge.append(" left");
    let mut footer = owned(disk);
    footer.append(" free on download disk");
    let ghost want = sab_panel_of(given, paused, rate@, left@, disk@);
    let p = Panel {
        badge: Some(badge),
        gauges: Vec::new(),
        spark: None,
        rows,
        footer: Some(footer),
        panel_actions: vec![action("pause_all", "pause the whole queue", false), action("resume_all", "resume the queue", false)],
    };
    assert(p@.gauges =~= want.gauges);
    assert(p@.panel_actions =~= want.panel_actions);
    p
}

/// The error SABnzbd reports in a reply whose `status` is false.
pub fn reply_error(error: &str) -> (m: String)
    ensures
        m@ == "sabnzbd: "@ + error@,
{
    let mut m = owned("sabnzbd: ");
    m.append(error);
    m
}

/// The API arguments an action sends and the status line once it went
/// through, or the error for an unknown action.
pub open spec fn sab_call_of(action_id: Seq<char>, row_key: Seq<char>) -> Result<(Seq<char>, Seq<char>), Seq<char>> {
    if action_id == "pause_all"@ {
        Ok(("mode=pause"@, "queue paused"@))
    } else if action_id == "resume_all"@ {
        Ok(("mode=resume"@, "queue resumed"@))
    } else if action_id == "slot_pause"@ || action_id == "slot_resume"@ || action_id == "slot_delete"@ {
        let name = if action_id == "slot_pause"@ { "pause"@ } else if action_id == "slot_resume"@ { "resume"@ } else {
            "delete"@
        };
        Ok(("mode=queue&name="@ + name + "&value="@ + row_key, "download "@ + name + "d"@))
    } else {
        Err(unknown_action_text(action_id))
    }
}

pub fn sab_call(action_id: &str, row_key: &str) -> (r: Result<(String, String), String>)
    ensures
        match sab_call_of(action_id@, row_key@) {
            Ok((a, d)) => r matches Ok(t) && t.0@ == a && t.1@ == d,
            Err(m) => r matches Err(x) && x@ == m,
        },
{
    if same(action_id, "pause_all") {
        Ok((owned("mode=pause"), owned("queue paused")))
    } else if same(action_id, "resume_all") {
        Ok((owned("mode=resume"), owned("queue resumed")))
    } else if same(action_id, "slot_pause") || same(action_id, "slot_resume") || same(action_id, "slot_delete") {
        let name = if same(action_id, "slot_pause") { "pause" } else if same(action_id, "slot_resume") { "resume" } else {
            "delete"
        };
        let mut args = owned("mode=queue&name=");
        args.append(name);
        args.append("&value=");
        args.append(row_key);
        let mut done = owned("download ");
        done.append(name);
        done.append("d");
        Ok((args, done))
    } else {
        Err(unknown_action(action_id))
    }
}

} // verus!
