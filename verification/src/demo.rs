//! The demo reel: a full, plausible fake homelab, so `--demo` needs no
//! network at all. Same rooms, imaginary film; every action it offers keeps
//! the confirm policy.

use vstd::prelude::*;

use crate::panel::{action, actions_view, cell, rows_view, ActionSpec, Cell, GaugeItem, Panel, PanelView, RowItem, RowView, Tone};
use crate::policy::{all_follow, follows_policy, lemma_all_follow_small, lemma_each_action_follows};
use crate::qbit::{qbit_panel_actions, torrent_actions};
use crate::registry::{kind_name, lemma_kind_registered, registered, SourceKind};
use crate::text::{decimal, owned, push_decimal};
use crate::util::{bar_cells, bar_text};

verus! {

/// One slot of the demo reel: its source kind, its name, and the panel it
/// shows from the start.
pub struct DemoSlot {
    pub kind: String,
    pub name: String,
    pub panel: Panel,
}

/// Every row's actions keep the confirm policy.
pub open spec fn rows_follow(rows: Seq<RowView>) -> bool {
    forall|i: int| 0 <= i < rows.len() ==> all_follow(#[trigger] rows[i].actions)
}

/// Every action a panel offers, on a row or on the whole panel, keeps the
/// confirm policy.
pub open spec fn panel_follows(p: PanelView) -> bool {
    rows_follow(p.rows) && all_follow(p.panel_actions)
}

/// A demo slot is of a registered kind and its panel keeps the policy.
pub open spec fn slot_ok(d: DemoSlot) -> bool {
    registered(d.kind@) && panel_follows(d.panel@)
}

/// A demo screen has at least one slot, and each slot is sound.
pub open spec fn screen_ok(s: (String, Vec<DemoSlot>)) -> bool {
    &&& s.1@.len() > 0
    &&& forall|j: int| 0 <= j < s.1@.len() ==> slot_ok(#[trigger] s.1@[j])
}

/// The screens `--demo` boots with: the four rooms of the default reel, each
/// with at least one slot of a registered kind, and every action on offer
/// confirming exactly when it is destructive.
pub fn demo_screens() -> (v: Vec<(String, Vec<DemoSlot>)>)
    ensures
        v@.len() == 4,
        v@[0].0@ == "NOW SHOWING"@,
        v@[1].0@ == "COMING SOON"@,
        v@[2].0@ == "FREIGHT"@,
        v@[3].0@ == "BACK LOT"@,
        forall|i: int| 0 <= i < v@.len() ==> screen_ok(#[trigger] v@[i]),
{
    let mut now_showing: Vec<DemoSlot> = Vec::new();
    push_slot(&mut now_showing, demo_slot(SourceKind::Tautulli, "plex", tautulli()));

    let mut coming_soon: Vec<DemoSlot> = Vec::new();
    push_slot(&mut coming_soon, demo_slot(SourceKind::Overseerr, "overseerr", overseerr()));
    push_slot(&mut coming_soon, demo_slot(SourceKind::Sonarr, "sonarr", sonarr()));
    push_slot(&mut coming_soon, demo_slot(SourceKind::Radarr, "radarr", radarr()));
    push_slot(&mut coming_soon, demo_slot(SourceKind::Prowlarr, "prowlarr", prowlarr()));

    let mut freight: Vec<DemoSlot> = Vec::new();
    push_slot(&mut freight, demo_slot(SourceKind::Qbittorrent, "qbittorrent", qbit()));
    push_slot(&mut freight, demo_slot(SourceKind::Nzbget, "nzbget", nzbget()));

    let mut back_lot: Vec<DemoSlot> = Vec::new();
    push_slot(&mut back_lot, demo_slot(SourceKind::Glances, "media-box", glances()));
    push_slot(&mut back_lot, demo_slot(SourceKind::Ssh, "nas", ssh()));
    push_slot(&mut back_lot, demo_slot(SourceKind::Jax, "the booth", jax()));

    let mut v: Vec<(String, Vec<DemoSlot>)> = Vec::new();
    v.push(screen("NOW SHOWING", now_showing));
    v.push(screen("COMING SOON", coming_soon));
    v.push(screen("FREIGHT", freight));
    v.push(screen("BACK LOT", back_lot));
    v
}

fn demo_slot(kind: SourceKind, name: &str, panel: Panel) -> (d: DemoSlot)
    requires
        panel_follows(panel@),
    ensures
        slot_ok(d),
        d.kind@ == kind_name(kind),
        d.name@ == name@,
{
    proof {
        lemma_kind_registered(kind);
    }
    DemoSlot { kind: owned(kind.name()), name: owned(name), panel }
}

fn push_slot(v: &mut Vec<DemoSlot>, d: DemoSlot)
    requires
        forall|j: int| 0 <= j < old(v)@.len() ==> slot_ok(#[trigger] old(v)@[j]),
        slot_ok(d),
    ensures
        final(v)@.len() == old(v)@.len() + 1,
        forall|j: int| 0 <= j < final(v)@.len() ==> slot_ok(#[trigger] final(v)@[j]),
{
    v.push(d);
}

fn screen(name: &str, slots: Vec<DemoSlot>) -> (s: (String, Vec<DemoSlot>))
    requires
        slots@.len() > 0,
        forall|j: int| 0 <= j < slots@.len() ==> slot_ok(#[trigger] slots@[j]),
    ensures
        screen_ok(s),
        s.0@ == name@,
{
    (owned(name), slots)
}

fn push_row(rows: &mut Vec<RowItem>, r: RowItem)
    requires
        rows_follow(rows_view(old(rows)@)),
        all_follow(r@.actions),
    ensures
        rows_follow(rows_view(final(rows)@)),
{
    let ghost before = rows_view(rows@);
    let ghost rv = r@;
    rows.push(r);
    assert(rows_view(rows@) =~= before.push(rv));
}

fn no_actions() -> (v: Vec<ActionSpec>)
    ensures
        all_follow(actions_view(v@)),
{
    let v: Vec<ActionSpec> = Vec::new();
    assert(actions_view(v@) =~= Seq::empty());
    v
}

fn one_action(a: ActionSpec) -> (v: Vec<ActionSpec>)
    requires
        follows_policy(a@),
    ensures
        all_follow(actions_view(v@)),
{
    let ghost av = a@;
    let mut v: Vec<ActionSpec> = Vec::new();
    v.push(a);
    assert(actions_view(v@) =~= seq![av]);
    proof {
        lemma_all_follow_small(actions_view(v@));
    }
    v
}

fn two_actions(a: ActionSpec, b: ActionSpec) -> (v: Vec<ActionSpec>)
    requires
        follows_policy(a@),
        follows_policy(b@),
    ensures
        all_follow(actions_view(v@)),
{
    let ghost av = a@;
    let ghost bv = b@;
    let mut v: Vec<ActionSpec> = Vec::new();
    v.push(a);
    v.push(b);
    assert(actions_view(v@) =~= seq![av, bv]);
    proof {
        lemma_all_follow_small(actions_view(v@));
    }
    v
}

fn row(key: &str, cells: Vec<Cell>, actions: Vec<ActionSpec>) -> (r: RowItem)
    requires
        all_follow(actions_view(actions@)),
    ensures
        all_follow(r@.actions),
{
    RowItem { key: owned(key), cells, actions }
}

fn panel(
    badge: &str,
    gauges: Vec<GaugeItem>,
    spark: Option<(String, Vec<u64>)>,
    rows: Vec<RowItem>,
    footer: Option<String>,
    panel_actions: Vec<ActionSpec>,
) -> (p: Panel)
    requires
        rows_follow(rows_view(rows@)),
        all_follow(actions_view(panel_actions@)),
    ensures
        panel_follows(p@),
{
    Panel { badge: Some(owned(badge)), gauges, spark, rows, footer, panel_actions }
}

/// A progress cell's text for a whole percentage: the bar, then the
/// percentage (`███░░░░░ 42%`).
pub open spec fn progress_text(pct: nat, width: nat) -> Seq<char> {
    bar_text((pct * width + 50) / 100, width) + " "@ + decimal(pct) + "%"@
}

fn progress(pct: u64, width: usize) -> (s: String)
    requires
        pct <= 100,
        width <= 10,
    ensures
        s@ == progress_text(pct as nat, width as nat),
{
    let p = pct as usize;
    assert(p * width <= 1000) by (nonlinear_arith)
        requires
            p <= 100,
            width <= 10,
    ;
    let filled = (p * width + 50) / 100;
    let mut s = bar_cells(filled, width);
    s.append(" ");
    push_decimal(&mut s, pct);
    s.append("%");
    s
}

fn gauge(label: &str, ratio_bits: u64, note: &str) -> (g: GaugeItem) {
    GaugeItem { label: owned(label), ratio_bits, note: owned(note) }
}

fn stream(user: &str, title: &str, pct: u64, transcode: bool, rate: &str, player: &str) -> (r: RowItem)
    requires
        pct <= 100,
    ensures
        all_follow(r@.actions),
{
    proof {
        lemma_each_action_follows();
    }
    let cells = vec![
        cell("▶", Tone::Good),
        cell(user, Tone::Accent2),
        cell(title, Tone::Default),
        Cell { text: progress(pct, 10), tone: Tone::Info },
        if transcode { cell("transcode", Tone::Warn) } else { cell("direct play", Tone::Good) },
        cell(rate, Tone::Muted),
        cell(player, Tone::Muted),
    ];
    row(user, cells, one_action(action("terminate", "terminate this stream", true)))
}

fn tautulli() -> (p: Panel)
    ensures
        panel_follows(p@),
{
    let mut rows: Vec<RowItem> = Vec::new();
    assert(rows_view(rows@) =~= Seq::empty());
    push_row(&mut rows, stream("margot", "The Space Between Frames (2026)", 42, false, "18.4 Mbps", "LG OLED"));
    push_row(&mut rows, stream("dee", "Changeover · S02E07 Nine Frames Early", 87, true, "8.6 Mbps", "iPhone"));
    push_row(&mut rows, stream("harold", "Threading the Projector (1978)", 13, false, "4.2 Mbps", "Shield"));
    let series: Vec<u64> = vec![4, 6, 9, 14, 12, 18, 22, 25, 24, 28, 30, 31, 29, 31, 32, 31, 30, 31];
    panel(
        "3 on air · 31.2 Mbps",
        Vec::new(),
        Some((owned("bandwidth"), series)),
        rows,
        None,
        no_actions(),
    )
}

fn queue_row(title: &str, pct: u64, status: &str, tone: Tone, left: &str) -> (r: RowItem)
    requires
        pct <= 100,
    ensures
        all_follow(r@.actions),
{
    proof {
        lemma_each_action_follows();
    }
    let cells = vec![
        cell(title, Tone::Default),
        Cell { text: progress(pct, 8), tone: Tone::Info },
        cell(status, tone),
        cell(left, Tone::Muted),
    ];
    row(title, cells, one_action(action("remove", "remove from queue (and client)", true)))
}

fn rss_sync() -> (v: Vec<ActionSpec>)
    ensures
        all_follow(actions_view(v@)),
{
    proof {
        lemma_each_action_follows();
    }
    one_action(action("rss", "trigger RSS sync", false))
}

fn sonarr() -> (p: Panel)
    ensures
        panel_follows(p@),
{
    let mut rows: Vec<RowItem> = Vec::new();
    assert(rows_view(rows@) =~= Seq::empty());
    push_row(&mut rows, queue_row("Changeover S02E08", 72, "downloading", Tone::Good, "12m"));
    push_row(&mut rows, queue_row("The Booth S01E01", 31, "downloading", Tone::Good, "48m"));
    push_row(&mut rows, queue_row("Sprocket Holes S05E03", 100, "import", Tone::Warn, "0 B"));
    push_row(&mut rows, queue_row("Intermission S03E11", 0, "queued", Tone::Muted, "2.1 GB"));
    panel("4 queued", Vec::new(), None, rows, None, rss_sync())
}

fn radarr() -> (p: Panel)
    ensures
        panel_follows(p@),
{
    let mut rows: Vec<RowItem> = Vec::new();
    assert(rows_view(rows@) =~= Seq::empty());
    push_row(&mut rows, queue_row("Persistence of Vision (2025)", 55, "downloading", Tone::Good, "1h 02m"));
    push_row(&mut rows, queue_row("The Last Reel (1962)", 98, "import", Tone::Warn, "80 MB"));
    panel("2 queued · ⚠ 1", Vec::new(), None, rows, None, rss_sync())
}

fn indexer(on: bool, name: &str, proto: &str) -> (r: RowItem)
    ensures
        all_follow(r@.actions),
{
    let cells = vec![
        if on { cell("●", Tone::Good) } else { cell("○", Tone::Muted) },
        cell(name, Tone::Default),
        cell(proto, Tone::Muted),
    ];
    row(name, cells, no_actions())
}

fn prowlarr() -> (p: Panel)
    ensures
        panel_follows(p@),
{
    proof {
        lemma_each_action_follows();
    }
    let mut rows: Vec<RowItem> = Vec::new();
    assert(rows_view(rows@) =~= Seq::empty());
    push_row(&mut rows, indexer(true, "CinephileTracker", "torrent"));
    push_row(&mut rows, indexer(true, "UsenetExpress", "usenet"));
    push_row(&mut rows, indexer(true, "The Vault", "torrent"));
    push_row(&mut rows, indexer(false, "DustyArchive", "usenet"));
    panel("3/4 indexers", Vec::new(), None, rows, None, one_action(action("testall", "test all indexers", false)))
}

fn request(icon: &str, title: &str, by: &str, date: &str) -> (r: RowItem)
    ensures
        all_follow(r@.actions),
{
    proof {
        lemma_each_action_follows();
        assert(crate::overseerr::request_actions()[0].id == "approve"@);
        assert(crate::overseerr::request_actions()[1].id == "decline"@);
    }
    let cells = vec![cell(icon, Tone::Default), cell(title, Tone::Default), cell(by, Tone::Accent2), cell(date, Tone::Muted)];
    row(
        title,
        cells,
        two_actions(action("approve", "approve request", false), action("decline", "decline request", true)),
    )
}

fn overseerr() -> (p: Panel)
    ensures
        panel_follows(p@),
{
    let mut rows: Vec<RowItem> = Vec::new();
    assert(rows_view(rows@) =~= Seq::empty());
    push_row(&mut rows, request("🎬", "Flicker Fusion (2024)", "by margot", "2026-07-15"));
    push_row(&mut rows, request("📺", "The Projectionist's Daughter", "by harold", "2026-07-16"));
    panel("2 pending", Vec::new(), None, rows, None, no_actions())
}

fn torrent(icon: &str, tone: Tone, name: &str, pct: u64, extra: Vec<Cell>) -> (r: RowItem)
    requires
        pct <= 100,
    ensures
        all_follow(r@.actions),
{
    proof {
        lemma_each_action_follows();
    }
    let mut cells = vec![cell(icon, tone), cell(name, Tone::Default), Cell { text: progress(pct, 8), tone: Tone::Info }];
    let mut extra = extra;
    cells.append(&mut extra);
    let actions = torrent_actions();
    assert(actions_view(actions@) =~= crate::qbit::torrent_actions_view());
    row(name, cells, actions)
}

fn qbit() -> (p: Panel)
    ensures
        panel_follows(p@),
{
    proof {
        lemma_each_action_follows();
    }
    let mut rows: Vec<RowItem> = Vec::new();
    assert(rows_view(rows@) =~= Seq::empty());
    push_row(
        &mut rows,
        torrent(
            "▼",
            Tone::Good,
            "the.space.between.frames.2026.2160p",
            64,
            vec![cell("6.1 MB/s", Tone::Good), cell("14m 20s", Tone::Muted)],
        ),
    );
    push_row(
        &mut rows,
        torrent(
            "▼",
            Tone::Good,
            "changeover.s02.complete.1080p",
            22,
            vec![cell("2.3 MB/s", Tone::Good), cell("1h 08m", Tone::Muted)],
        ),
    );
    push_row(
        &mut rows,
        torrent("▲", Tone::Info, "threading.the.projector.1978.remaster", 100, vec![cell("uploading", Tone::Muted)]),
    );
    push_row(&mut rows, torrent("⏸", Tone::Warn, "intermission.s03.720p", 91, vec![cell("pausedDL", Tone::Muted)]));
    // Pausing is reversible, so it never asks first.
    let actions = qbit_panel_actions();
    assert(actions_view(actions@) =~= crate::qbit::qbit_panel_actions_view());
    panel("▼ 8.4 MB/s ▲ 420 KB/s · 42 torrents", Vec::new(), None, rows, None, actions)
}

fn nzbget() -> (p: Panel)
    ensures
        panel_follows(p@),
{
    proof {
        lemma_each_action_follows();
        assert(crate::nzbget::queue_actions()[0].id == "pause_all"@);
        assert(crate::nzbget::queue_actions()[1].id == "resume_all"@);
    }
    let mut rows: Vec<RowItem> = Vec::new();
    assert(rows_view(rows@) =~= Seq::empty());
    push_row(&mut rows, queue_row("PersistenceOfVision.2025.2160p.HDR", 44, "downloading", Tone::Good, "5.2 GB"));
    push_row(&mut rows, queue_row("TheLastReel.1962.Criterion", 0, "queued", Tone::Muted, "4.6 GB"));
    panel(
        "12.1 MB/s · 9.8 GB left",
        Vec::new(),
        None,
        rows,
        Some(owned("341 GB this month")),
        two_actions(action("pause_all", "pause the whole queue", false), action("resume_all", "resume the queue", false)),
    )
}

fn glances() -> (p: Panel)
    ensures
        panel_follows(p@),
{
    // Fill fractions 0.27, 0.61, 0.83 and 0.44, as f64 bit patterns.
    let gauges = vec![
        gauge("cpu", 0x3fd147ae147ae148, "27%"),
        gauge("mem", 0x3fe3851eb851eb85, "61%"),
        gauge("/tank", 0x3fea8f5c28f5c28f, "9.1 TB / 11 TB"),
        gauge("/", 0x3fdc28f5c28f5c29, "210 GB / 480 GB"),
    ];
    let rows: Vec<RowItem> = Vec::new();
    assert(rows_view(rows@) =~= Seq::empty());
    panel("load 34%", gauges, None, rows, Some(owned("up 117 days, 2:30:11")), no_actions())
}

fn container(on: bool, name: &str, status: &str) -> (r: RowItem)
    ensures
        all_follow(r@.actions),
{
    proof {
        lemma_each_action_follows();
        assert(crate::ssh::container_actions()[0].id == "restart"@);
        assert(crate::ssh::container_actions()[1].id == "stop"@);
    }
    let tone = if on { Tone::Good } else { Tone::Bad };
    let cells = vec![if on { cell("●", tone) } else { cell("○", tone) }, cell(name, Tone::Default), cell(status, tone)];
    row(name, cells, two_actions(action("restart", "restart container", true), action("stop", "stop container", true)))
}

fn ssh() -> (p: Panel)
    ensures
        panel_follows(p@),
{
    // Fill fractions 0.37 and 0.71, as f64 bit patterns.
    let gauges = vec![gauge("mem", 0x3fd7ae147ae147ae, "12 GB / 32 GB"), gauge("/pool", 0x3fe6b851eb851eb8, "31 TB / 44 TB")];
    let mut rows: Vec<RowItem> = Vec::new();
    assert(rows_view(rows@) =~= Seq::empty());
    push_row(&mut rows, container(true, "plex", "Up 9 days"));
    push_row(&mut rows, container(true, "tautulli", "Up 9 days"));
    push_row(&mut rows, container(false, "speedtest", "Exited (1) 3 hours ago"));
    panel("load 0.42 0.51 0.48", gauges, None, rows, Some(owned("up 1 day, 19 hours, 57 minutes")), no_actions())
}

fn log_row(line: &str) -> (r: RowItem)
    ensures
        all_follow(r@.actions),
{
    row("", vec![cell("·", Tone::Accent2), cell(line, Tone::Muted)], no_actions())
}

fn jax() -> (p: Panel)
    ensures
        panel_follows(p@),
{
    proof {
        lemma_each_action_follows();
    }
    let mut rows: Vec<RowItem> = Vec::new();
    assert(rows_view(rows@) =~= Seq::empty());
    push_row(&mut rows, log_row("practised the changeover cue — 9 frames early"));
    push_row(&mut rows, log_row("swept the booth, found a 2019 popcorn kernel"));
    panel(
        "on shift · 3 snacks",
        Vec::new(),
        None,
        rows,
        Some(owned("Jax 2.0 — now with object permanence")),
        two_actions(action("pet", "pet Jax", false), action("snack", "toss Jax a snack", false)),
    )
}

} // verus!
