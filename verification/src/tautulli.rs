//! Tautulli: who is watching what, right now. The source keeps a rolling
//! bandwidth history for the sparkline and turns each session into a row.

use std::collections::VecDeque;

use vstd::prelude::*;

use crate::panel::{
    action, cell, rows_view, unknown_action, unknown_action_text, ActionView, CellView, Panel,
    PanelView, RowItem, RowView, Tone,
};
use crate::text::{owned, same};
use crate::util::{pad2, push_pad2, trunc, trunc_text};

verus! {

/// How many bandwidth samples the sparkline keeps.
pub const HISTORY_KEEP: usize = 120;

/// The newest `n` items of `s`.
pub open spec fn keep_last(s: Seq<u64>, n: nat) -> Seq<u64> {
    if s.len() > n { s.skip(s.len() - n) } else { s }
}

/// Rolling total-bandwidth history (kbps), oldest first.
pub struct BandwidthHistory {
    samples: VecDeque<u64>,
}

impl View for BandwidthHistory {
    type V = Seq<u64>;

    closed spec fn view(&self) -> Seq<u64> {
        self.samples@
    }
}

impl BandwidthHistory {
    pub fn new() -> (h: Self)
        ensures
            h@ == Seq::<u64>::empty(),
    {
        BandwidthHistory { samples: VecDeque::new() }
    }

    /// Adds the newest sample and forgets all but the newest `HISTORY_KEEP`.
    pub fn record(&mut self, kbps: u64)
        ensures
            final(self)@ == keep_last(old(self)@.push(kbps), HISTORY_KEEP as nat),
    {
        broadcast use vstd::std_specs::vecdeque::group_vec_dequeue_axioms;
        self.samples.push_back(kbps);
        let ghost grown = old(self)@.push(kbps);
        while self.samples.len() > HISTORY_KEEP
            invariant
                grown == old(self)@.push(kbps),
                self@.len() <= grown.len(),
                grown.len() <= HISTORY_KEEP ==> self@ == grown,
                grown.len() > HISTORY_KEEP ==> self@.len() >= HISTORY_KEEP
                    && self@ == grown.skip(grown.len() - self@.len()),
            decreases self@.len(),
        {
            let ghost before = self@;
            let _ = self.samples.pop_front();
            assert(self@ =~= before.subrange(1, before.len() as int));
            assert(self@ =~= grown.skip(grown.len() - self@.len()));
        }
    }

    /// The samples, oldest first.
    pub fn series(&self) -> (v: Vec<u64>)
        ensures
            v@ == self@,
    {
        broadcast use vstd::std_specs::vecdeque::group_vec_dequeue_axioms;
        let mut v: Vec<u64> = Vec::new();
        let mut i: usize = 0;
        while i < self.samples.len()
            invariant
                i <= self@.len(),
                v@ == self@.take(i as int),
            decreases self@.len() - i,
        {
            v.push(self.samples[i]);
            i += 1;
            assert(v@ =~= self@.take(i as int));
        }
        assert(self@.take(i as int) =~= self@);
        v
    }
}

/// However many samples come in, the sparkline holds at most `HISTORY_KEEP`
/// of them and the newest is always the last; below the cap nothing is lost.
pub proof fn law_history_keeps_newest(h: Seq<u64>, kbps: u64)
    ensures
        keep_last(h.push(kbps), HISTORY_KEEP as nat).len() <= HISTORY_KEEP,
        keep_last(h.push(kbps), HISTORY_KEEP as nat).last() == kbps,
        h.len() < HISTORY_KEEP ==> keep_last(h.push(kbps), HISTORY_KEEP as nat) == h.push(kbps),
{
    let g = h.push(kbps);
    if g.len() > HISTORY_KEEP {
        let k = g.skip(g.len() - HISTORY_KEEP);
        assert(k.last() == g.last());
    }
}

/// The glyph and tone of a session's playback state.
pub open spec fn session_icon_of(state: Seq<char>) -> (Seq<char>, Tone) {
    if state == "playing"@ {
        ("▶"@, Tone::Good)
    } else if state == "paused"@ {
        ("⏸"@, Tone::Warn)
    } else {
        ("◌"@, Tone::Info)
    }
}

pub fn session_icon(state: &str) -> (r: (&'static str, Tone))
    ensures
        r.0@ == session_icon_of(state@).0,
        r.1 == session_icon_of(state@).1,
{
    if same(state, "playing") {
        ("▶", Tone::Good)
    } else if same(state, "paused") {
        ("⏸", Tone::Warn)
    } else {
        ("◌", Tone::Info)
    }
}

/// A transcode is worth a second look; direct play and stream are fine.
pub open spec fn decision_tone_of(decision: Seq<char>) -> Tone {
    if decision == "transcode"@ { Tone::Warn } else { Tone::Good }
}

pub fn decision_tone(decision: &str) -> (t: Tone)
    ensures
        t == decision_tone_of(decision@),
{
    if same(decision, "transcode") { Tone::Warn } else { Tone::Good }
}

/// "Show · S01E02 Title" for an episode, "Title (Year)" for anything else.
pub open spec fn session_title_of(
    episode: bool,
    show: Seq<char>,
    season: nat,
    number: nat,
    title: Seq<char>,
    year: Seq<char>,
) -> Seq<char> {
    if episode {
        show + " · S"@ + pad2(season) + "E"@ + pad2(number) + " "@ + title
    } else {
        title + " ("@ + year + ")"@
    }
}

pub fn session_title(episode: bool, show: &str, season: u32, number: u32, title: &str, year: &str) -> (r: String)
    ensures
        r@ == session_title_of(episode, show@, season as nat, number as nat, title@, year@),
{
    if episode {
        let mut r = owned(show);
        r.append(" · S");
        push_pad2(&mut r, season as u64);
        r.append("E");
        push_pad2(&mut r, number as u64);
        r.append(" ");
        r.append(title);
        r
    } else {
        let mut r = owned(title);
        r.append(" (");
        r.append(year);
        r.append(")");
        r
    }
}

/// What Tautulli reports of one stream, as the panel shows it.
pub struct Session {
    /// Handed back with the terminate action.
    pub key: String,
    pub state: String,
    pub user: String,
    /// The display title (see `session_title`).
    pub title: String,
    pub decision: String,
    pub player: String,
}

pub open spec fn terminate_action() -> ActionView {
    ActionView { id: "terminate"@, label: "terminate this stream"@, danger: true }
}

/// A stream's row: state glyph, user, title, progress, transcode decision,
/// bandwidth and player. `progress` and `rate` arrive already rendered.
pub open spec fn session_row_of(s: Session, progress: Seq<char>, rate: Seq<char>) -> RowView {
    RowView {
        key: s.key@,
        cells: seq![
            CellView { text: session_icon_of(s.state@).0, tone: session_icon_of(s.state@).1 },
            CellView { text: s.user@, tone: Tone::Accent2 },
            CellView { text: trunc_text(s.title@, 46), tone: Tone::Default },
            CellView { text: progress, tone: Tone::Info },
            CellView { text: s.decision@, tone: decision_tone_of(s.decision@) },
            CellView { text: rate, tone: Tone::Muted },
            CellView { text: trunc_text(s.player@, 18), tone: Tone::Muted },
        ],
        actions: seq![terminate_action()],
    }
}

pub fn session_row(s: &Session, progress: &str, rate: &str) -> (r: RowItem)
    ensures
        r@ == session_row_of(*s, progress@, rate@),
{
    let (icon, itone) = session_icon(s.state.as_str());
    let cells = vec![
        cell(icon, itone),
        cell(s.user.as_str(), Tone::Accent2),
        cell(trunc(s.title.as_str(), 46).as_str(), Tone::Default),
        cell(progress, Tone::Info),
        cell(s.decision.as_str(), decision_tone(s.decision.as_str())),
        cell(rate, Tone::Muted),
        cell(trunc(s.player.as_str(), 18).as_str(), Tone::Muted),
    ];
    let r = RowItem {
        key: s.key.clone(),
        cells,
        actions: vec![action("terminate", "terminate this stream", true)],
    };
    assert(r@.cells =~= session_row_of(*s, progress@, rate@).cells);
    assert(r@.actions =~= session_row_of(*s, progress@, rate@).actions);
    r
}

/// The Tautulli panel: the rows, the badge (rendered by the caller), the
/// bandwidth sparkline, and a footer when nobody is watching.
pub open spec fn tautulli_panel_of(rows: Seq<RowView>, badge: Seq<char>, hist: Seq<u64>) -> PanelView {
    PanelView {
        badge: Some(badge),
        gauges: seq![],
        spark: Some(("bandwidth"@, hist)),
        rows,
        footer: if rows.len() == 0 { Some("the house is dark — nobody is watching"@) } else { None },
        panel_actions: seq![],
    }
}

pub fn tautulli_panel(rows: Vec<RowItem>, badge: String, hist: &BandwidthHistory) -> (p: Panel)
    ensures
        p@ == tautulli_panel_of(rows_view(rows@), badge@, hist@),
{
    let footer = if rows.len() == 0 {
        Some(owned("the house is dark — nobody is watching"))
    } else {
        None
    };
    let p = Panel {
        badge: Some(badge),
        gauges: Vec::new(),
        spark: Some((owned("bandwidth"), hist.series())),
        rows,
        footer,
        panel_actions: Vec::new(),
    };
    assert(p@.gauges =~= tautulli_panel_of(rows_view(rows@), badge@, hist@).gauges);
    assert(p@.panel_actions =~= tautulli_panel_of(rows_view(rows@), badge@, hist@).panel_actions);
    p
}

/// The extra query parameters of `terminate_session` for a session.
pub open spec fn terminate_params_of(row_key: Seq<char>) -> Seq<char> {
    "&session_key="@ + row_key + "&message=The projectionist needs this reel back. Sorry!"@
}

/// What an action asks of Tautulli: `(cmd, extra parameters, status line)`,
/// or the error for an unknown action.
pub open spec fn tautulli_call_of(action_id: Seq<char>, row_key: Seq<char>) -> Result<
    (Seq<char>, Seq<char>, Seq<char>),
    Seq<char>,
> {
    if action_id == "terminate"@ {
        Ok(("terminate_session"@, terminate_params_of(row_key), "stream "@ + row_key + " terminated"@))
    } else {
        Err(unknown_action_text(action_id))
    }
}

pub fn tautulli_call(action_id: &str, row_key: &str) -> (r: Result<(String, String, String), String>)
    ensures
        match tautulli_call_of(action_id@, row_key@) {
            Ok((c, e, d)) => r matches Ok(t) && t.0@ == c && t.1@ == e && t.2@ == d,
            Err(m) => r matches Err(x) && x@ == m,
        },
{
    if same(action_id, "terminate") {
        let mut extra = owned("&session_key=");
        extra.append(row_key);
        extra.append("&message=The projectionist needs this reel back. Sorry!");
        let mut done = owned("stream ");
        done.append(row_key);
        done.append(" terminated");
        Ok((owned("terminate_session"), extra, done))
    } else {
        Err(unknown_action(action_id))
    }
}

/// Tautulli answers every command with a `result`; anything but `success`
/// is an error carrying its `message`.
pub fn reply_verdict(success: bool, message: &str) -> (r: Result<(), String>)
    ensures
        r is Ok <==> success,
        r matches Err(m) ==> m@ == "tautulli: "@ + message@,
{
    if success {
        Ok(())
    } else {
        let mut m = owned("tautulli: ");
        m.append(message);
        Err(m)
    }
}

} // verus!
