//! Plex: sessions straight from the server, no Tautulli required.

use vstd::prelude::*;

use crate::panel::{
    action, cell, rows_view, unknown_action, unknown_action_text, ActionView, CellView, Panel, PanelView, RowItem,
    RowView, Tone,
};
use crate::tautulli::{session_icon, session_icon_of, session_title_of};
use crate::text::{decimal, owned, push_decimal, same};
use crate::util::{push_pad2, trunc, trunc_text};

verus! {

/// "Show · S01E02 Title" for an episode, "Title (1999)" for anything else.
pub open spec fn plex_title_of(episode: bool, show: Seq<char>, season: nat, number: nat, title: Seq<char>, year: nat) -> Seq<char> {
    if episode {
        session_title_of(true, show, season, number, title, seq![])
    } else {
        title + " ("@ + decimal(year) + ")"@
    }
}

pub fn plex_title(episode: bool, show: &str, season: u32, number: u32, title: &str, year: u32) -> (r: String)
    ensures
        r@ == plex_title_of(episode, show@, season as nat, number as nat, title@, year as nat),
{
    if episode {
        let mut r = owned(show);
        r.append(" · S");
        push_pad2(&mut r, season as u64);
        r.append("E");
        push_pad2(&mut r, number as u64);
        r.append(" ");
        r.append(title);
        r
    } else {
        let mut r = owned(title);
        r.append(" (");
        push_decimal(&mut r, year as u64);
        r.append(")");
        r
    }
}

/// What Plex reports of one session, as the panel shows it.
pub struct PlexSession {
    pub key: String,
    pub state: String,
    pub user: String,
    pub title: String,
    pub transcoding: bool,
    pub product: String,
}

pub open spec fn plex_terminate_action() -> ActionView {
    ActionView { id: "terminate"@, label: "terminate this session"@, danger: true }
}

pub open spec fn plex_row_of(s: PlexSession, progress: Seq<char>) -> RowView {
    RowView {
        key: s.key@,
        cells: seq![
            CellView { text: session_icon_of(s.state@).0, tone: session_icon_of(s.state@).1 },
            CellView { text: s.user@, tone: Tone::Accent2 },
            CellView { text: trunc_text(s.title@, 46), tone: Tone::Default },
            CellView { text: progress, tone: Tone::Info },
            if s.transcoding {
                CellView { text: "transcode"@, tone: Tone::Warn }
            } else {
                CellView { text: "direct play"@, tone: Tone::Good }
            },
            CellView { text: trunc_text(s.product@, 18), tone: Tone::Muted },
        ],
        actions: seq![plex_terminate_action()],
    }
}

pub fn plex_row(s: &PlexSession, progress: &str) -> (r: RowItem)
    ensures
        r@ == plex_row_of(*s, progress@),
{
    let (icon, itone) = session_icon(s.state.as_str());
    let decision = if s.transcoding { cell("transcode", Tone::Warn) } else { cell("direct play", Tone::Good) };
    let cells = vec![
        cell(icon, itone),
        cell(s.user.as_str(), Tone::Accent2),
        cell(trunc(s.title.as_str(), 46).as_str(), Tone::Default),
        cell(progress, Tone::Info),
        decision,
        cell(trunc(s.product.as_str(), 18).as_str(), Tone::Muted),
    ];
    let r = RowItem { key: s.key.clone(), cells, actions: vec![action("terminate", "terminate this session", true)] };
    assert(r@.cells =~= plex_row_of(*s, progress@).cells);
    assert(r@.actions =~= plex_row_of(*s, progress@).actions);
    r
}

/// "1 session", "3 sessions"; an empty house gets a footer.
pub open spec fn plex_panel_of(rows: Seq<RowView>) -> PanelView {
    PanelView {
        badge: Some(decimal(rows.len()) + " session"@ + (if rows.len() == 1 { seq![] } else { "s"@ })),
        gauges: seq![],
        spark: None,
        rows,
        footer: if rows.len() == 0 { Some("the lamp is warm, the house is empty"@) } else { None },
        panel_actions: seq![],
    }
}

pub fn plex_panel(rows: Vec<RowItem>) -> (p: Panel)
    ensures
        p@ == plex_panel_of(rows_view(rows@)),
{
    let n = rows.len();
    let mut badge = String::new();
    push_decimal(&mut badge, n as u64);
    badge.append(" session");
    if n != 1 {
        badge.append("s");
    }
    let footer = if n == 0 { Some(owned("the lamp is warm, the house is empty")) } else { None };
    let ghost want = plex_panel_of(rows_view(rows@));
    let p = Panel { badge: Some(badge), gauges: Vec::new(), spark: None, rows, footer, panel_actions: Vec::new() };
    assert(p@.badge =~~= want.badge);
    assert(p@.gauges =~= want.gauges);
    assert(p@.panel_actions =~= want.panel_actions);
    p
}

/// Ending a session: the request's extra parameters and the status line, or
/// why it cannot be sent.
pub open spec fn plex_call_of(action_id: Seq<char>, row_key: Seq<char>) -> Result<(Seq<char>, Seq<char>), Seq<char>> {
    if action_id == "terminate"@ {
        if row_key.len() == 0 {
            Err("session has no id"@)
        } else {
            Ok(("&sessionId="@ + row_key + "&reason=The projectionist needs this reel back."@, "session terminated"@))
        }
    } else {
        Err(unknown_action_text(action_id))
    }
}

pub fn plex_call(action_id: &str, row_key: &str) -> (r: Result<(String, String), String>)
    ensures
        match plex_call_of(action_id@, row_key@) {
            Ok((e, d)) => r matches Ok(t) && t.0@ == e && t.1@ == d,
            Err(m) => r matches Err(x) && x@ == m,
        },
{
    if same(action_id, "terminate") {
        if row_key.is_empty() {
            Err(owned("session has no id"))
        } else {
            let mut extra = owned("&sessionId=");
            extra.append(row_key);
            extra.append("&reason=The projectionist needs this reel back.");
            Ok((extra, owned("session terminated")))
        }
    } else {
        Err(unknown_action(action_id))
    }
}

} // verus!
