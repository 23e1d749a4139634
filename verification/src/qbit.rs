//! qBittorrent: the torrent freight bay. Cookie login, v4/v5 compatible
//! (tries the v5 `stop`/`start` endpoints and falls back to `pause`/`resume`).
//! What lives here is what the source decides: how a torrent state looks,
//! which torrents show first, what each action sends, and whether a login
//! reply means success.

use vstd::prelude::*;

use crate::panel::{
    cap_rows, first_rows,
    action, cell, rows_view, unknown_action, unknown_action_text, ActionSpec, ActionView, Cell, CellView,
    Panel, PanelView, RowItem, RowView, Tone,
};
use crate::text::{chars_of, contains_sub, decimal, has_sub, owned, push_decimal, same, trim, trimmed};
use crate::util::{eta_text, human_eta, trunc, trunc_text};

verus! {

/// How a qBittorrent state shows: its glyph, its tone, and its sort rank
/// (lower ranks show first).
pub open spec fn glyph_of(state: Seq<char>) -> (Seq<char>, Tone, u8) {
    if state == "downloading"@ || state == "forcedDL"@ || state == "metaDL"@ {
        ("▼"@, Tone::Good, 0)
    } else if state == "stalledDL"@ || state == "queuedDL"@ || state == "allocating"@
        || state == "checkingDL"@ {
        ("…"@, Tone::Muted, 2)
    } else if state == "uploading"@ || state == "forcedUP"@ {
        ("▲"@, Tone::Info, 1)
    } else if state == "stalledUP"@ || state == "queuedUP"@ || state == "checkingUP"@ {
        ("✓"@, Tone::Muted, 4)
    } else if state == "pausedDL"@ || state == "stoppedDL"@ {
        ("⏸"@, Tone::Warn, 3)
    } else if state == "pausedUP"@ || state == "stoppedUP"@ {
        ("✓"@, Tone::Muted, 5)
    } else if state == "error"@ || state == "missingFiles"@ {
        ("✗"@, Tone::Bad, 0)
    } else {
        ("·"@, Tone::Muted, 6)
    }
}

/// Glyph, tone and sort rank of a torrent state.
pub fn state_glyph(state: &str) -> (r: (&'static str, Tone, u8))
    ensures
        r.0@ == glyph_of(state@).0,
        r.1 == glyph_of(state@).1,
        r.2 == glyph_of(state@).2,
{
    if same(state, "downloading") || same(state, "forcedDL") || same(state, "metaDL") {
        ("▼", Tone::Good, 0)
    } else if same(state, "stalledDL") || same(state, "queuedDL") || same(state, "allocating")
        || same(state, "checkingDL") {
        ("…", Tone::Muted, 2)
    } else if same(state, "uploading") || same(state, "forcedUP") {
        ("▲", Tone::Info, 1)
    } else if same(state, "stalledUP") || same(state, "queuedUP") || same(state, "checkingUP") {
        ("✓", Tone::Muted, 4)
    } else if same(state, "pausedDL") || same(state, "stoppedDL") {
        ("⏸", Tone::Warn, 3)
    } else if same(state, "pausedUP") || same(state, "stoppedUP") {
        ("✓", Tone::Muted, 5)
    } else if same(state, "error") || same(state, "missingFiles") {
        ("✗", Tone::Bad, 0)
    } else {
        ("·", Tone::Muted, 6)
    }
}

/// Torrent `a` shows before torrent `b`: lower rank first, then the faster
/// transfer (`keys[i]` is `(rank, speed)`), then the one listed earlier.
pub open spec fn shows_before(keys: Seq<(u8, i64)>, a: int, b: int) -> bool {
    keys[a].0 < keys[b].0 || (keys[a].0 == keys[b].0 && (keys[a].1 > keys[b].1 || (keys[a].1
        == keys[b].1 && a < b)))
}

/// `order` lists every index below `n` exactly once.
pub open spec fn is_permutation(order: Seq<usize>, n: nat) -> bool {
    &&& order.len() == n
    &&& forall|i: int| 0 <= i < order.len() ==> #[trigger] order[i] < n
    &&& forall|i: int, j: int| 0 <= i < j < order.len() ==> order[i] != order[j]
}

pub open spec fn sorted_by_show(keys: Seq<(u8, i64)>, order: Seq<usize>) -> bool {
    forall|i: int, j: int|
        0 <= i < j < order.len() ==> shows_before(keys, #[trigger] order[i] as int, #[trigger] order[j] as int)
}

proof fn lemma_shows_before_trans(keys: Seq<(u8, i64)>, a: int, b: int, c: int)
    requires
        shows_before(keys, a, b),
        shows_before(keys, b, c),
    ensures
        shows_before(keys, a, c),
{
}

fn shows_first(keys: &Vec<(u8, i64)>, a: usize, b: usize) -> (r: bool)
    requires
        a < keys.len(),
        b < keys.len(),
    ensures
        r == shows_before(keys@, a as int, b as int),
{
    let (ra, sa) = keys[a];
    let (rb, sb) = keys[b];
    ra < rb || (ra == rb && (sa > sb || (sa == sb && a < b)))
}

/// The order in which torrents show: a stable sort of the indices by rank,
/// then by speed, fastest first (`keys[i]` is torrent `i`'s `(rank, speed)`).
pub fn torrent_order(keys: &Vec<(u8, i64)>) -> (order: Vec<usize>)
    ensures
        is_permutation(order@, keys@.len()),
        sorted_by_show(keys@, order@),
{
    let n = keys.len();
    let mut out: Vec<usize> = Vec::new();
    let mut i: usize = 0;
    while i < n
        invariant
            n == keys.len(),
            i <= n,
            is_permutation(out@, i as nat),
            sorted_by_show(keys@, out@),
        decreases n - i,
    {
        let mut p: usize = 0;
        while p < out.len() && shows_first(keys, out[p], i)
            invariant
                n == keys.len(),
                i < n,
                is_permutation(out@, i as nat),
                p <= out.len(),
                forall|k: int| 0 <= k < p ==> shows_before(keys@, #[trigger] out@[k] as int, i as int),
            decreases out.len() - p,
        {
            p += 1;
        }
        let ghost old_out = out@;
        proof {
            if p < old_out.len() {
                assert(shows_before(keys@, i as int, old_out[p as int] as int));
                assert forall|k: int| p <= k < old_out.len() implies shows_before(
                    keys@,
                    i as int,
                    #[trigger] old_out[k] as int,
                ) by {
                    if k > p {
                        assert(shows_before(keys@, old_out[p as int] as int, old_out[k] as int));
                        lemma_shows_before_trans(keys@, i as int, old_out[p as int] as int, old_out[k] as int);
                    }
                }
            }
        }
        out.insert(p, i);
        proof {
            let o = out@;
            assert(o == old_out.insert(p as int, i));
            assert forall|a: int, b: int| 0 <= a < b < o.len() implies shows_before(
                keys@,
                #[trigger] o[a] as int,
                #[trigger] o[b] as int,
            ) by {
                if a < p && b < p {
                    assert(o[a] == old_out[a] && o[b] == old_out[b]);
                } else if a < p && b == p {
                } else if a < p {
                    assert(o[b] == old_out[b - 1]);
                    assert(o[a] == old_out[a]);
                    if a < b - 1 {
                        assert(shows_before(keys@, old_out[a] as int, old_out[b - 1] as int));
                    }
                } else if a == p {
                    assert(o[b] == old_out[b - 1]);
                } else {
                    assert(o[a] == old_out[a - 1] && o[b] == old_out[b - 1]);
                }
            }
            assert forall|a: int| 0 <= a < o.len() implies #[trigger] o[a] < i + 1 by {
                if a < p {
                    assert(o[a] == old_out[a]);
                } else if a > p {
                    assert(o[a] == old_out[a - 1]);
                }
            }
            assert forall|a: int, b: int| 0 <= a < b < o.len() implies o[a] != o[b] by {
                if a < p && b < p {
                    assert(o[a] == old_out[a] && o[b] == old_out[b]);
                } else if a < p && b == p {
                    assert(o[a] == old_out[a]);
                } else if a < p {
                    assert(o[a] == old_out[a] && o[b] == old_out[b - 1]);
                } else if a == p {
                    assert(o[b] == old_out[b - 1]);
                } else {
                    assert(o[a] == old_out[a - 1] && o[b] == old_out[b - 1]);
                }
            }
        }
        i += 1;
    }
    out
}

pub open spec fn torrent_actions_view() -> Seq<ActionView> {
    seq![
        ActionView { id: "pause"@, label: "pause torrent"@, danger: false },
        ActionView { id: "resume"@, label: "resume torrent"@, danger: false },
        ActionView { id: "delete"@, label: "delete torrent (keep files)"@, danger: true },
    ]
}

pub open spec fn qbit_panel_actions_view() -> Seq<ActionView> {
    seq![
        ActionView { id: "alt"@, label: "toggle alternative speed limits"@, danger: false },
        ActionView { id: "pause_all"@, label: "pause ALL torrents"@, danger: false },
        ActionView { id: "resume_all"@, label: "resume all torrents"@, danger: false },
    ]
}

/// What one may do to a torrent. Pausing and resuming are reversible and
/// never confirm; deleting always does.
pub fn torrent_actions() -> (v: Vec<ActionSpec>)
    ensures
        v@.map_values(|a: ActionSpec| a@) == torrent_actions_view(),
{
    let v = vec![
        action("pause", "pause torrent", false),
        action("resume", "resume torrent", false),
        action("delete", "delete torrent (keep files)", true),
    ];
    assert(v@.map_values(|a: ActionSpec| a@) =~= torrent_actions_view());
    v
}

/// What one may do to the whole client.
pub fn qbit_panel_actions() -> (v: Vec<ActionSpec>)
    ensures
        v@.map_values(|a: ActionSpec| a@) == qbit_panel_actions_view(),
{
    let v = vec![
        action("alt", "toggle alternative speed limits", false),
        action("pause_all", "pause ALL torrents", false),
        action("resume_all", "resume all torrents", false),
    ];
    assert(v@.map_values(|a: ActionSpec| a@) =~= qbit_panel_actions_view());
    v
}

/// The confirm policy for qBittorrent: deleting a torrent is the one
/// destructive action; pausing, resuming (one torrent or all of them) and
/// the speed toggle are reversible and never confirm.
pub proof fn law_only_delete_confirms()
    ensures
        forall|i: int| 0 <= i < torrent_actions_view().len()
            ==> ((#[trigger] torrent_actions_view()[i]).danger <==> torrent_actions_view()[i].id == "delete"@),
        forall|i: int| 0 <= i < qbit_panel_actions_view().len() ==> !(#[trigger] qbit_panel_actions_view()[i]).danger,
{
    reveal_strlit("pause");
    reveal_strlit("resume");
    reveal_strlit("delete");
    assert(torrent_actions_view()[0].id != "delete"@) by {
        assert("pause"@.len() != "delete"@.len());
    }
    assert(torrent_actions_view()[1].id != "delete"@) by {
        assert("resume"@[0] != "delete"@[0]);
    }
}

/// How many torrents the panel lists.
pub const TORRENT_ROWS: usize = 14;

/// A torrent's row: state glyph, name, progress, then either the download
/// rate and time left (while it downloads) or its state. `progress` and the
/// rate arrive rendered; `transfer` is `Some((rate, eta_secs))` while
/// downloading.
pub open spec fn torrent_row_of(
    key: Seq<char>,
    state: Seq<char>,
    name: Seq<char>,
    progress: Seq<char>,
    transfer: Option<(Seq<char>, i64)>,
) -> RowView {
    let head = seq![
        CellView { text: glyph_of(state).0, tone: glyph_of(state).1 },
        CellView { text: trunc_text(name, 42), tone: Tone::Default },
        CellView { text: progress, tone: Tone::Info },
    ];
    RowView {
        key,
        cells: match transfer {
            Some((rate, eta)) => head + seq![
                CellView { text: rate, tone: Tone::Good },
                CellView { text: eta_text(eta as int), tone: Tone::Muted },
            ],
            None => head.push(CellView { text: state, tone: Tone::Muted }),
        },
        actions: torrent_actions_view(),
    }
}

pub open spec fn transfer_view(t: Option<(String, i64)>) -> Option<(Seq<char>, i64)> {
    match t {
        Some((a, e)) => Some((a@, e)),
        None => None,
    }
}

pub fn torrent_row(key: &str, state: &str, name: &str, progress: &str, transfer: Option<(String, i64)>) -> (r: RowItem)
    ensures
        r@ == torrent_row_of(key@, state@, name@, progress@, transfer_view(transfer)),
{
    let ghost tv = transfer_view(transfer);
    let (icon, tone, _) = state_glyph(state);
    let mut cells = vec![cell(icon, tone), cell(trunc(name, 42).as_str(), Tone::Default), cell(progress, Tone::Info)];
    match transfer {
        Some((rate, eta)) => {
            cells.push(Cell { text: rate, tone: Tone::Good });
            cells.push(Cell { text: human_eta(eta), tone: Tone::Muted });
        },
        None => {
            cells.push(cell(state, Tone::Muted));
        },
    }
    let r = RowItem { key: owned(key), cells, actions: torrent_actions() };
    proof {
        let want = torrent_row_of(key@, state@, name@, progress@, tv);
        assert(r@.cells =~= want.cells);
        assert(r@.actions =~= want.actions);
    }
    r
}

/// Whether `transfer/speedLimitsMode` reported the alternative limits on
/// (it answers `"0"` or `"1"` as plain text).
pub fn alt_limits_on(reply: &str) -> (on: bool)
    ensures
        on == (trimmed(reply@) == "1"@),
{
    let t = trim(reply);
    same(t.as_str(), "1")
}

/// The qBittorrent panel: rates and torrent count up top, the first
/// `TORRENT_ROWS` torrents, and a warning footer while the alternative speed limits are on.
pub open spec fn qbit_panel_of(rows: Seq<RowView>, down: Seq<char>, up: Seq<char>, total: nat, alt: bool) -> PanelView {
    PanelView {
        badge: Some("▼ "@ + down + " ▲ "@ + up + " · "@ + decimal(total) + " torrents"@),
        gauges: seq![],
        spark: None,
        rows: first_rows(rows, TORRENT_ROWS as nat),
        footer: if alt { Some("⚠ alternative speed limits are ON"@) } else { None },
        panel_actions: qbit_panel_actions_view(),
    }
}

pub fn qbit_panel(rows: Vec<RowItem>, down: &str, up: &str, total: u64, alt: bool) -> (p: Panel)
    ensures
        p@ == qbit_panel_of(rows_view(rows@), down@, up@, total as nat, alt),
        p@.rows.len() <= TORRENT_ROWS,
{
    let ghost given = rows_view(rows@);
    let mut rows = rows;
    cap_rows(&mut rows, TORRENT_ROWS);
    let mut badge = owned("▼ ");
    badge.append(down);
    badge.append(" ▲ ");
    badge.append(up);
    badge.append(" · ");
    push_decimal(&mut badge, total);
    badge.append(" torrents");
    let footer = if alt { Some(owned("⚠ alternative speed limits are ON")) } else { None };
    let p = Panel { badge: Some(badge), gauges: Vec::new(), spark: None, rows, footer, panel_actions: qbit_panel_actions() };
    proof {
        let want = qbit_panel_of(given, down@, up@, total as nat, alt);
        assert(p@.badge == want.badge);
        assert(p@.gauges =~= want.gauges);
        assert(p@.panel_actions =~= want.panel_actions);
    }
    p
}

/// One form post to the Web API: try `first`, and on a 404 try `second`.
pub struct QbitCall {
    pub first: String,
    pub second: String,
    pub form: Vec<(String, String)>,
    /// The status line once the post went through.
    pub done: String,
}

pub struct QbitCallView {
    pub first: Seq<char>,
    pub second: Seq<char>,
    pub form: Seq<(Seq<char>, Seq<char>)>,
    pub done: Seq<char>,
}

pub open spec fn form_view(form: Seq<(String, String)>) -> Seq<(Seq<char>, Seq<char>)> {
    form.map_values(|p: (String, String)| (p.0@, p.1@))
}

impl View for QbitCall {
    type V = QbitCallView;

    open spec fn view(&self) -> QbitCallView {
        QbitCallView { first: self.first@, second: self.second@, form: form_view(self.form@), done: self.done@ }
    }
}

pub open spec fn call_view(
    first: Seq<char>,
    second: Seq<char>,
    form: Seq<(Seq<char>, Seq<char>)>,
    done: Seq<char>,
) -> QbitCallView {
    QbitCallView { first, second, form, done }
}

/// The post an action makes, or `None` for an action qBittorrent does not have.
pub open spec fn qbit_call_of(action_id: Seq<char>, row_key: Seq<char>) -> Option<QbitCallView> {
    if action_id == "pause"@ {
        Some(call_view("torrents/stop"@, "torrents/pause"@, seq![("hashes"@, row_key)], "torrent paused"@))
    } else if action_id == "resume"@ {
        Some(call_view("torrents/start"@, "torrents/resume"@, seq![("hashes"@, row_key)], "torrent resumed"@))
    } else if action_id == "delete"@ {
        Some(call_view(
            "torrents/delete"@,
            "torrents/delete"@,
            seq![("hashes"@, row_key), ("deleteFiles"@, "false"@)],
            "torrent deleted (files kept)"@,
        ))
    } else if action_id == "pause_all"@ {
        Some(call_view("torrents/stop"@, "torrents/pause"@, seq![("hashes"@, "all"@)], "all torrents paused"@))
    } else if action_id == "resume_all"@ {
        Some(call_view("torrents/start"@, "torrents/resume"@, seq![("hashes"@, "all"@)], "all torrents resumed"@))
    } else if action_id == "alt"@ {
        Some(call_view(
            "transfer/toggleSpeedLimitsMode"@,
            "transfer/toggleSpeedLimitsMode"@,
            seq![],
            "alternative speed limits toggled"@,
        ))
    } else {
        None
    }
}

fn make_call(first: &str, second: &str, form: Vec<(String, String)>, done: &str) -> (c: QbitCall)
    ensures
        c@ == call_view(first@, second@, form_view(form@), done@),
{
    QbitCall { first: owned(first), second: owned(second), form, done: owned(done) }
}

fn pair(a: &str, b: &str) -> (p: (String, String))
    ensures
        p.0@ == a@,
        p.1@ == b@,
{
    (owned(a), owned(b))
}

/// The post that carries out `action_id` on `row_key` (a torrent hash), or
/// the error for an unknown action.
pub fn qbit_call(action_id: &str, row_key: &str) -> (r: Result<QbitCall, String>)
    ensures
        match qbit_call_of(action_id@, row_key@) {
            Some(c) => r matches Ok(k) && k@ == c,
            None => r matches Err(m) && m@ == unknown_action_text(action_id@),
        },
{
    if same(action_id, "pause") {
        let form = vec![pair("hashes", row_key)];
        assert(form_view(form@) =~= seq![("hashes"@, row_key@)]);
        Ok(make_call("torrents/stop", "torrents/pause", form, "torrent paused"))
    } else if same(action_id, "resume") {
        let form = vec![pair("hashes", row_key)];
        assert(form_view(form@) =~= seq![("hashes"@, row_key@)]);
        Ok(make_call("torrents/start", "torrents/resume", form, "torrent resumed"))
    } else if same(action_id, "delete") {
        let form = vec![pair("hashes", row_key), pair("deleteFiles", "false")];
        assert(form_view(form@) =~= seq![("hashes"@, row_key@), ("deleteFiles"@, "false"@)]);
        Ok(make_call("torrents/delete", "torrents/delete", form, "torrent deleted (files kept)"))
    } else if same(action_id, "pause_all") {
        let form = vec![pair("hashes", "all")];
        assert(form_view(form@) =~= seq![("hashes"@, "all"@)]);
        Ok(make_call("torrents/stop", "torrents/pause", form, "all torrents paused"))
    } else if same(action_id, "resume_all") {
        let form = vec![pair("hashes", "all")];
        assert(form_view(form@) =~= seq![("hashes"@, "all"@)]);
        Ok(make_call("torrents/start", "torrents/resume", form, "all torrents resumed"))
    } else if same(action_id, "alt") {
        let form: Vec<(String, String)> = Vec::new();
        assert(form_view(form@) =~= Seq::<(Seq<char>, Seq<char>)>::empty());
        Ok(make_call(
            "transfer/toggleSpeedLimitsMode",
            "transfer/toggleSpeedLimitsMode",
            form,
            "alternative speed limits toggled",
        ))
    } else {
        Err(unknown_action(action_id))
    }
}

/// The error for a login the client refused.
pub open spec fn login_failed_text(status: Seq<char>, body: Seq<char>) -> Seq<char> {
    "qbittorrent login failed ("@ + status + "): "@ + (if body.len() == 0 { "no body"@ } else {
        trimmed(body)
    })
}

/// Reads a login reply. Success is a 2xx (some builds send 200 + "Ok.",
/// others 204 + empty body), but a wrong password can also be 200 + "Fails.".
/// `status` is the status as the error should show it.
pub fn login_verdict(success: bool, status: &str, body: &str) -> (r: Result<(), String>)
    ensures
        r is Ok <==> success && !has_sub(body@, "Fails"@),
        r matches Err(m) ==> m@ == login_failed_text(status@, body@),
{
    if success && !contains_sub(body, "Fails") {
        return Ok(());
    }
    let mut m = owned("qbittorrent login failed (");
    m.append(status);
    m.append("): ");
    if chars_of(body).len() == 0 {
        m.append("no body");
    } else {
        let t = trim(body);
        m.append(t.as_str());
    }
    Err(m)
}

/// After posting a call to its path number `attempt` (0 for the first),
/// the path to try next: the second one, exactly when the first answered
/// 404 Not Found (the v5 path missing on an older v4 server). Any other
/// answer is final.
pub fn fallback_path(call: &QbitCall, attempt: usize, status: u16) -> (r: Option<String>)
    ensures
        r is Some <==> (attempt == 0 && status == 404),
        r matches Some(p) ==> p@ == call.second@,
{
    if attempt == 0 && status == 404 {
        Some(call.second.clone())
    } else {
        None
    }
}


/// The documented qBittorrent states, every one of which has its own look.
pub open spec fn documented_state(s: Seq<char>) -> bool {
    s == "downloading"@ || s == "forcedDL"@ || s == "metaDL"@ || s == "stalledDL"@ || s == "queuedDL"@
        || s == "allocating"@ || s == "checkingDL"@ || s == "uploading"@ || s == "forcedUP"@
        || s == "stalledUP"@ || s == "queuedUP"@ || s == "checkingUP"@ || s == "pausedDL"@
        || s == "stoppedDL"@ || s == "pausedUP"@ || s == "stoppedUP"@ || s == "error"@ || s == "missingFiles"@
}

/// How torrent states look and sort. A download that is waiting (stalled
/// with no peers, queued, allocating, checking) shows `…`, muted, ranked
/// 2: after active transfers, before paused and seeding torrents. Active
/// downloads and errors come first (rank 0), then uploads (rank 1). Only a
/// state outside the documented list gets the unknown look `·` and the last
/// rank 6, and every documented state ranks above it.
pub proof fn law_state_looks(s: Seq<char>)
    ensures
        (s == "stalledDL"@ || s == "queuedDL"@ || s == "allocating"@ || s == "checkingDL"@)
            ==> glyph_of(s) == ("…"@, Tone::Muted, 2u8),
        (s == "downloading"@ || s == "forcedDL"@ || s == "metaDL"@) ==> glyph_of(s) == ("▼"@, Tone::Good, 0u8),
        (s == "uploading"@ || s == "forcedUP"@) ==> glyph_of(s) == ("▲"@, Tone::Info, 1u8),
        (s == "pausedDL"@ || s == "stoppedDL"@) ==> glyph_of(s) == ("⏸"@, Tone::Warn, 3u8),
        (s == "error"@ || s == "missingFiles"@) ==> glyph_of(s).2 == 0 && glyph_of(s).1 == Tone::Bad,
        glyph_of(s).2 == 6 <==> !documented_state(s),
        glyph_of(s).2 <= 6,
        !documented_state(s) ==> glyph_of(s) == ("·"@, Tone::Muted, 6u8),
{
    reveal_strlit("downloading");
    reveal_strlit("forcedDL");
    reveal_strlit("metaDL");
    reveal_strlit("stalledDL");
    reveal_strlit("queuedDL");
    reveal_strlit("allocating");
    reveal_strlit("checkingDL");
    reveal_strlit("uploading");
    reveal_strlit("forcedUP");
    reveal_strlit("stalledUP");
    reveal_strlit("queuedUP");
    reveal_strlit("checkingUP");
    reveal_strlit("pausedDL");
    reveal_strlit("stoppedDL");
    reveal_strlit("pausedUP");
    reveal_strlit("stoppedUP");
    reveal_strlit("error");
    reveal_strlit("missingFiles");
    assert("downloading"@.len() == 11);
    assert("forcedDL"@.len() == 8);
    assert("metaDL"@.len() == 6);
    assert("stalledDL"@.len() == 9);
    assert("queuedDL"@.len() == 8);
    assert("allocating"@.len() == 10);
    assert("checkingDL"@.len() == 10);
    assert("uploading"@.len() == 9);
    assert("forcedUP"@.len() == 8);
    assert("stalledUP"@.len() == 9);
    assert("queuedUP"@.len() == 8);
    assert("checkingUP"@.len() == 10);
    assert("pausedDL"@.len() == 8);
    assert("stoppedDL"@.len() == 9);
    assert("pausedUP"@.len() == 8);
    assert("stoppedUP"@.len() == 9);
    assert("error"@.len() == 5);
    assert("missingFiles"@.len() == 12);
    assert("queuedDL"@[0] != "forcedDL"@[0]);
    assert("forcedUP"@[6] != "forcedDL"@[6]);
    assert("uploading"@[0] != "stalledDL"@[0]);
    assert("forcedUP"@[0] != "queuedDL"@[0]);
    assert("pausedDL"@[0] != "forcedDL"@[0]);
    assert("pausedDL"@[0] != "queuedDL"@[0]);
    assert("pausedDL"@[0] != "forcedUP"@[0]);
    assert("pausedDL"@[0] != "queuedUP"@[0]);
    assert("stoppedDL"@[2] != "stalledDL"@[2]);
    assert("stoppedDL"@[0] != "uploading"@[0]);
    assert("stoppedDL"@[2] != "stalledUP"@[2]);
    assert("allocating"@[0] != "checkingDL"@[0]);
}
} // verus!
