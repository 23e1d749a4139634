//! The *arr family: sonarr, radarr, lidarr (download queues) and prowlarr
//! (indexer inventory). One source, four hats. What lives here is what the
//! source decides from what the API returned; the requests are made outside.

use vstd::prelude::*;

use crate::panel::{
    action, cell, rows_view, Cell, unknown_action, unknown_action_text, ActionView, CellView, Panel,
    PanelView, RowItem, RowView, Tone,
};
use crate::text::{decimal, owned, push_decimal, same};
use crate::util::{pad2, push_pad2, trunc, trunc_text};

verus! {

/// The API version each kind speaks.
pub open spec fn api_of(kind: Seq<char>) -> Seq<char> {
    if kind == "sonarr"@ || kind == "radarr"@ { "v3"@ } else { "v1"@ }
}

pub fn api_version(kind: &str) -> (r: &'static str)
    ensures
        r@ == api_of(kind@),
{
    if same(kind, "sonarr") || same(kind, "radarr") { "v3" } else { "v1" }
}

/// The queue request, asking for the records each kind titles its rows by.
pub open spec fn queue_path_of(kind: Seq<char>) -> Seq<char> {
    "queue?pageSize=12"@ + (if kind == "sonarr"@ {
        "&includeSeries=true&includeEpisode=true"@
    } else if kind == "radarr"@ {
        "&includeMovie=true"@
    } else if kind == "lidarr"@ {
        "&includeArtist=true&includeAlbum=true"@
    } else {
        seq![]
    })
}

pub fn queue_path(kind: &str) -> (r: String)
    ensures
        r@ == queue_path_of(kind@),
{
    let mut r = owned("queue?pageSize=12");
    if same(kind, "sonarr") {
        r.append("&includeSeries=true&includeEpisode=true");
    } else if same(kind, "radarr") {
        r.append("&includeMovie=true");
    } else if same(kind, "lidarr") {
        r.append("&includeArtist=true&includeAlbum=true");
    } else {
        assert(r@ =~= queue_path_of(kind@));
    }
    r
}

/// What a queue record says about its title, per kind.
pub struct RecordFacts {
    pub title: String,
    pub series: String,
    pub season: u32,
    pub episode: u32,
    pub movie: String,
    pub year: u32,
    pub artist: String,
    pub album: String,
}

/// Best display title for a queue record, per kind: the record's own title
/// whenever the richer one is missing.
pub open spec fn record_title_of(kind: Seq<char>, r: RecordFacts) -> Seq<char> {
    if kind == "sonarr"@ {
        if r.series@.len() == 0 {
            r.title@
        } else {
            r.series@ + " S"@ + pad2(r.season as nat) + "E"@ + pad2(r.episode as nat)
        }
    } else if kind == "radarr"@ {
        if r.movie@.len() == 0 { r.title@ } else { r.movie@ + " ("@ + decimal(r.year as nat) + ")"@ }
    } else if kind == "lidarr"@ {
        if r.artist@.len() == 0 { r.title@ } else { r.artist@ + " — "@ + r.album@ }
    } else {
        r.title@
    }
}

pub fn record_title(kind: &str, r: &RecordFacts) -> (t: String)
    ensures
        t@ == record_title_of(kind@, *r),
{
    if same(kind, "sonarr") {
        if r.series.as_str().is_empty() {
            r.title.clone()
        } else {
            let mut t = r.series.clone();
            t.append(" S");
            push_pad2(&mut t, r.season as u64);
            t.append("E");
            push_pad2(&mut t, r.episode as u64);
            t
        }
    } else if same(kind, "radarr") {
        if r.movie.as_str().is_empty() {
            r.title.clone()
        } else {
            let mut t = r.movie.clone();
            t.append(" (");
            push_decimal(&mut t, r.year as u64);
            t.append(")");
            t
        }
    } else if same(kind, "lidarr") {
        if r.artist.as_str().is_empty() {
            r.title.clone()
        } else {
            let mut t = r.artist.clone();
            t.append(" — ");
            t.append(r.album.as_str());
            t
        }
    } else {
        r.title.clone()
    }
}

/// A queue record's status cell: a pending or blocked import reads
/// "import"; otherwise the status itself, toned by what it means.
pub open spec fn queue_status_of(status: Seq<char>, download_state: Seq<char>) -> (Seq<char>, Tone) {
    if download_state == "importPending"@ || download_state == "importBlocked"@ {
        ("import"@, Tone::Warn)
    } else if status == "downloading"@ {
        (status, Tone::Good)
    } else if status == "paused"@ {
        (status, Tone::Warn)
    } else if status == "warning"@ || status == "failed"@ {
        (status, Tone::Bad)
    } else {
        (status, Tone::Muted)
    }
}

pub fn queue_status(status: &str, download_state: &str) -> (r: (String, Tone))
    ensures
        r.0@ == queue_status_of(status@, download_state@).0,
        r.1 == queue_status_of(status@, download_state@).1,
{
    if same(download_state, "importPending") || same(download_state, "importBlocked") {
        (owned("import"), Tone::Warn)
    } else if same(status, "downloading") {
        (owned(status), Tone::Good)
    } else if same(status, "paused") {
        (owned(status), Tone::Warn)
    } else if same(status, "warning") || same(status, "failed") {
        (owned(status), Tone::Bad)
    } else {
        (owned(status), Tone::Muted)
    }
}

/// One queue record as the panel needs it. `progress` (a bar and percent)
/// and `left` (bytes left, humanised) arrive already rendered.
pub struct QueueRecord {
    pub key: String,
    pub title: String,
    pub progress: String,
    pub status: String,
    pub download_state: String,
    pub timeleft: String,
    pub left: String,
}

pub open spec fn remove_action() -> ActionView {
    ActionView { id: "remove"@, label: "remove from queue (and client)"@, danger: true }
}

pub open spec fn queue_row_of(q: QueueRecord) -> RowView {
    RowView {
        key: q.key@,
        cells: seq![
            CellView { text: trunc_text(q.title@, 38), tone: Tone::Default },
            CellView { text: q.progress@, tone: Tone::Info },
            CellView { text: queue_status_of(q.status@, q.download_state@).0, tone: queue_status_of(q.status@, q.download_state@).1 },
            CellView { text: if q.timeleft@.len() == 0 { q.left@ } else { q.timeleft@ }, tone: Tone::Muted },
        ],
        actions: seq![remove_action()],
    }
}

pub fn queue_row(q: &QueueRecord) -> (r: RowItem)
    ensures
        r@ == queue_row_of(*q),
{
    let (stxt, stone) = queue_status(q.status.as_str(), q.download_state.as_str());
    let last = if q.timeleft.as_str().is_empty() { q.left.as_str() } else { q.timeleft.as_str() };
    let cells = vec![
        cell(trunc(q.title.as_str(), 38).as_str(), Tone::Default),
        cell(q.progress.as_str(), Tone::Info),
        Cell { text: stxt, tone: stone },
        cell(last, Tone::Muted),
    ];
    let r = RowItem { key: q.key.clone(), cells, actions: vec![action("remove", "remove from queue (and client)", true)] };
    assert(r@.cells =~= queue_row_of(*q).cells);
    assert(r@.actions =~= queue_row_of(*q).actions);
    r
}

/// "12 queued", with the count of health warnings when there are any.
pub open spec fn health_suffix(health: nat) -> Seq<char> {
    if health > 0 { " · ⚠ "@ + decimal(health) } else { seq![] }
}

pub open spec fn queue_badge_of(total: nat, health: nat) -> Seq<char> {
    decimal(total) + " queued"@ + health_suffix(health)
}

fn push_health(b: &mut String, health: u64)
    ensures
        final(b)@ == old(b)@ + health_suffix(health as nat),
{
    if health > 0 {
        b.append(" · ⚠ ");
        push_decimal(b, health);
    } else {
        assert(final(b)@ =~= old(b)@ + health_suffix(health as nat));
    }
}

/// The queue footer: what an empty queue says, per kind, or how many of the
/// records are shown when the page holds fewer than the total.
pub open spec fn queue_footer_of(kind: Seq<char>, shown: nat, total: nat) -> Option<Seq<char>> {
    if shown == 0 {
        Some(
            if kind == "sonarr"@ {
                "no episodes in flight"@
            } else if kind == "radarr"@ {
                "no movies in flight"@
            } else {
                "queue empty"@
            },
        )
    } else if total > shown {
        Some("showing "@ + decimal(shown) + " of "@ + decimal(total))
    } else {
        None
    }
}

pub open spec fn rss_action() -> ActionView {
    ActionView { id: "rss"@, label: "trigger RSS sync"@, danger: false }
}

/// The queue panel of sonarr, radarr or lidarr.
pub open spec fn queue_panel_of(kind: Seq<char>, rows: Seq<RowView>, total: nat, health: nat) -> PanelView {
    PanelView {
        badge: Some(queue_badge_of(total, health)),
        gauges: seq![],
        spark: None,
        rows,
        footer: queue_footer_of(kind, rows.len(), total),
        panel_actions: seq![rss_action()],
    }
}

pub fn queue_panel(kind: &str, rows: Vec<RowItem>, total: u64, health: u64) -> (p: Panel)
    ensures
        p@ == queue_panel_of(kind@, rows_view(rows@), total as nat, health as nat),
{
    let mut badge = String::new();
    push_decimal(&mut badge, total);
    badge.append(" queued");
    push_health(&mut badge, health);
    let shown = rows.len();
    let footer = if shown == 0 {
        if same(kind, "sonarr") {
            Some(owned("no episodes in flight"))
        } else if same(kind, "radarr") {
            Some(owned("no movies in flight"))
        } else {
            Some(owned("queue empty"))
        }
    } else if total > shown as u64 {
        let mut f = owned("showing ");
        push_decimal(&mut f, shown as u64);
        f.append(" of ");
        push_decimal(&mut f, total);
        Some(f)
    } else {
        None
    };
    let p = Panel {
        badge: Some(badge),
        gauges: Vec::new(),
        spark: None,
        rows,
        footer,
        panel_actions: vec![action("rss", "trigger RSS sync", false)],
    };
    proof {
        let want = queue_panel_of(kind@, rows_view(rows@), total as nat, health as nat);
        assert(p@.badge == want.badge);
        assert(p@.gauges =~= want.gauges);
        assert(p@.panel_actions =~= want.panel_actions);
    }
    p
}

/// A prowlarr indexer's row: an on/off dot, its name and protocol.
pub open spec fn indexer_row_of(key: Seq<char>, on: bool, name: Seq<char>, protocol: Seq<char>) -> RowView {
    RowView {
        key,
        cells: seq![
            CellView { text: if on { "●"@ } else { "○"@ }, tone: if on { Tone::Good } else { Tone::Muted } },
            CellView { text: trunc_text(name, 30), tone: Tone::Default },
            CellView { text: protocol, tone: Tone::Muted },
        ],
        actions: seq![],
    }
}

pub fn indexer_row(key: &str, on: bool, name: &str, protocol: &str) -> (r: RowItem)
    ensures
        r@ == indexer_row_of(key@, on, name@, protocol@),
{
    let dot = if on { cell("●", Tone::Good) } else { cell("○", Tone::Muted) };
    let cells = vec![dot, cell(trunc(name, 30).as_str(), Tone::Default), cell(protocol, Tone::Muted)];
    let r = RowItem { key: owned(key), cells, actions: Vec::new() };
    assert(r@.cells =~= indexer_row_of(key@, on, name@, protocol@).cells);
    assert(r@.actions =~= indexer_row_of(key@, on, name@, protocol@).actions);
    r
}

pub open spec fn testall_action() -> ActionView {
    ActionView { id: "testall"@, label: "test all indexers"@, danger: false }
}

/// "3/4 indexers", the number enabled of the number listed, with the count
/// of health warnings when there are any.
pub open spec fn prowlarr_panel_of(rows: Seq<RowView>, enabled: nat, health: nat) -> PanelView {
    PanelView {
        badge: Some(decimal(enabled) + "/"@ + decimal(rows.len()) + " indexers"@ + health_suffix(health)),
        gauges: seq![],
        spark: None,
        rows,
        footer: None,
        panel_actions: seq![testall_action()],
    }
}

pub fn prowlarr_panel(rows: Vec<RowItem>, enabled: u64, health: u64) -> (p: Panel)
    ensures
        p@ == prowlarr_panel_of(rows_view(rows@), enabled as nat, health as nat),
{
    let mut badge = String::new();
    push_decimal(&mut badge, enabled);
    badge.append("/");
    push_decimal(&mut badge, rows.len() as u64);
    badge.append(" indexers");
    push_health(&mut badge, health);
    let p = Panel {
        badge: Some(badge),
        gauges: Vec::new(),
        spark: None,
        rows,
        footer: None,
        panel_actions: vec![action("testall", "test all indexers", false)],
    };
    proof {
        let want = prowlarr_panel_of(rows_view(rows@), enabled as nat, health as nat);
        assert(p@.badge == want.badge);
        assert(p@.gauges =~= want.gauges);
        assert(p@.panel_actions =~= want.panel_actions);
    }
    p
}

/// How an action reaches the API.
#[derive(Clone, Copy, Debug, PartialEq, Eq, Structural)]
pub enum ArrMethod {
    /// `POST /api/<version>/command` with `{"name": <command>}`.
    Command,
    Post,
    Delete,
}

/// One request: the method, the path after the base URL, the command name
/// for `Command`, and the status line once it went through.
pub struct ArrCall {
    pub method: ArrMethod,
    pub path: String,
    pub command: String,
    pub done: String,
}

pub struct ArrCallView {
    pub method: ArrMethod,
    pub path: Seq<char>,
    pub command: Seq<char>,
    pub done: Seq<char>,
}

impl View for ArrCall {
    type V = ArrCallView;

    open spec fn view(&self) -> ArrCallView {
        ArrCallView { method: self.method, path: self.path@, command: self.command@, done: self.done@ }
    }
}

pub open spec fn arr_call_of(kind: Seq<char>, action_id: Seq<char>, row_key: Seq<char>) -> Result<ArrCallView, Seq<char>> {
    if action_id == "remove"@ {
        Ok(ArrCallView {
            method: ArrMethod::Delete,
            path: "/api/"@ + api_of(kind) + "/queue/"@ + row_key + "?removeFromClient=true&blocklist=false"@,
            command: seq![],
            done: "removed from queue"@,
        })
    } else if action_id == "rss"@ {
        Ok(ArrCallView {
            method: ArrMethod::Command,
            path: "/api/"@ + api_of(kind) + "/command"@,
            command: "RssSync"@,
            done: "RSS sync started"@,
        })
    } else if action_id == "testall"@ {
        Ok(ArrCallView {
            method: ArrMethod::Post,
            path: "/api/v1/indexer/testall"@,
            command: seq![],
            done: "testing all indexers"@,
        })
    } else {
        Err(unknown_action_text(action_id))
    }
}

/// The request that carries out `action_id` on `row_key` (a queue id).
pub fn arr_call(kind: &str, action_id: &str, row_key: &str) -> (r: Result<ArrCall, String>)
    ensures
        match arr_call_of(kind@, action_id@, row_key@) {
            Ok(c) => r matches Ok(k) && k@ == c,
            Err(m) => r matches Err(x) && x@ == m,
        },
{
    if same(action_id, "remove") {
        let mut path = owned("/api/");
        path.append(api_version(kind));
        path.append("/queue/");
        path.append(row_key);
        path.append("?removeFromClient=true&blocklist=false");
        Ok(ArrCall { method: ArrMethod::Delete, path, command: String::new(), done: owned("removed from queue") })
    } else if same(action_id, "rss") {
        let mut path = owned("/api/");
        path.append(api_version(kind));
        path.append("/command");
        Ok(ArrCall { method: ArrMethod::Command, path, command: owned("RssSync"), done: owned("RSS sync started") })
    } else if same(action_id, "testall") {
        Ok(ArrCall {
            method: ArrMethod::Post,
            path: owned("/api/v1/indexer/testall"),
            command: String::new(),
            done: owned("testing all indexers"),
        })
    } else {
        Err(unknown_action(action_id))
    }
}


/// A download waiting on an import (pending or blocked) always reads
/// "import" and asks for attention, whatever its status says; any other
/// record shows its own status.
pub proof fn law_import_needs_attention(status: Seq<char>, download_state: Seq<char>)
    ensures
        (download_state == "importPending"@ || download_state == "importBlocked"@)
            ==> queue_status_of(status, download_state) == ("import"@, Tone::Warn),
        !(download_state == "importPending"@ || download_state == "importBlocked"@)
            ==> queue_status_of(status, download_state).0 == status,
{
}
} // verus!
