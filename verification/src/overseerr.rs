//! Overseerr: pending media requests awaiting a thumbs up or down. Titles
//! are looked up by TMDB id once and remembered, so a poll does not repeat
//! the lookups.

use std::collections::HashMap;

use vstd::prelude::*;

use crate::panel::{
    action, cell, rows_view, unknown_action, unknown_action_text, ActionView, CellView, Panel,
    PanelView, RowItem, RowView, Tone,
};
use crate::text::{chars_of, decimal, owned, push_char, push_decimal, same, slice_string};
use crate::util::{trunc, trunc_text};

verus! {

/// An integer in decimal, with a leading `-` when negative.
pub open spec fn signed_decimal(n: int) -> Seq<char> {
    if n < 0 { seq!['-'] + decimal((-n) as nat) } else { decimal(n as nat) }
}

fn push_signed(s: &mut String, n: i64)
    ensures
        final(s)@ == old(s)@ + signed_decimal(n as int),
{
    if n < 0 {
        push_char(s, '-');
        let m: u64 = if n == i64::MIN { 9_223_372_036_854_775_808 } else { (0 - n) as u64 };
        push_decimal(s, m);
        assert(final(s)@ =~= old(s)@ + signed_decimal(n as int));
    } else {
        push_decimal(s, n as u64);
    }
}

/// Titles already looked up, by TMDB id.
pub struct TitleCache {
    titles: HashMap<i64, String>,
}

impl View for TitleCache {
    type V = Map<i64, Seq<char>>;

    closed spec fn view(&self) -> Map<i64, Seq<char>> {
        self.titles@.map_values(|t: String| t@)
    }
}

/// The lookup path for a TMDB id: movies and shows live apart.
pub open spec fn tmdb_path_of(movie: bool, tmdb: i64) -> Seq<char> {
    (if movie { "movie/"@ } else { "tv/"@ }) + signed_decimal(tmdb as int)
}

pub fn tmdb_path(movie: bool, tmdb: i64) -> (p: String)
    ensures
        p@ == tmdb_path_of(movie, tmdb),
{
    let mut p = if movie { owned("movie/") } else { owned("tv/") };
    push_signed(&mut p, tmdb);
    p
}

/// The title a lookup settles on: the reply's `title`, or its `name` when
/// the title is empty (shows are named, movies titled); a failed lookup
/// stands in as `tmdb:<id>`.
pub open spec fn fetched_title_of(reply: Option<(Seq<char>, Seq<char>)>, tmdb: i64) -> Seq<char> {
    match reply {
        Some((title, name)) => if title.len() == 0 { name } else { title },
        None => "tmdb:"@ + signed_decimal(tmdb as int),
    }
}

impl TitleCache {
    pub fn new() -> (c: Self)
        ensures
            c@ == Map::<i64, Seq<char>>::empty(),
    {
        let c = TitleCache { titles: HashMap::new() };
        assert(c@ =~= Map::<i64, Seq<char>>::empty());
        c
    }

    /// The remembered title for `tmdb`, if there is one.
    pub fn lookup(&self, tmdb: i64) -> (r: Option<String>)
        ensures
            r is Some <==> self@.contains_key(tmdb),
            r matches Some(t) ==> t@ == self@[tmdb],
    {
        broadcast use vstd::std_specs::hash::group_hash_axioms;
        match self.titles.get(&tmdb) {
            Some(t) => Some(t.clone()),
            None => None,
        }
    }

    /// Settles the title for `tmdb` from a lookup's reply (`(title, name)`,
    /// or `None` when the lookup failed), remembers it and returns it.
    pub fn settle(&mut self, tmdb: i64, reply: Option<(String, String)>) -> (t: String)
        ensures
            t@ == fetched_title_of(
                match reply {
                    Some((a, b)) => Some((a@, b@)),
                    None => None,
                },
                tmdb,
            ),
            final(self)@ == old(self)@.insert(tmdb, t@),
    {
        broadcast use vstd::std_specs::hash::group_hash_axioms;
        let t = match reply {
            Some((title, name)) => if title.as_str().is_empty() { name } else { title },
            None => {
                let mut s = owned("tmdb:");
                push_signed(&mut s, tmdb);
                s
            },
        };
        let _ = self.titles.insert(tmdb, t.clone());
        assert(self@ =~= old(self)@.insert(tmdb, t@));
        t
    }
}

/// A title remembered for an id is what the next lookup of that id returns,
/// and remembering it leaves every other id's title as it was.
pub proof fn law_lookup_after_settle(m: Map<i64, Seq<char>>, tmdb: i64, title: Seq<char>, other: i64)
    ensures
        m.insert(tmdb, title).contains_key(tmdb),
        m.insert(tmdb, title)[tmdb] == title,
        other != tmdb ==> (m.insert(tmdb, title).contains_key(other) <==> m.contains_key(other)),
        other != tmdb && m.contains_key(other) ==> m.insert(tmdb, title)[other] == m[other],
{
}

pub open spec fn request_actions() -> Seq<ActionView> {
    seq![
        ActionView { id: "approve"@, label: "approve request"@, danger: false },
        ActionView { id: "decline"@, label: "decline request"@, danger: true },
    ]
}

/// A pending request's row: a film or TV glyph, the title, who asked, and
/// the day they asked (the first ten characters of the timestamp).
pub open spec fn request_row_of(key: Seq<char>, movie: bool, title: Seq<char>, who: Seq<char>, created: Seq<char>) -> RowView {
    RowView {
        key,
        cells: seq![
            CellView { text: if movie { "🎬"@ } else { "📺"@ }, tone: Tone::Default },
            CellView { text: trunc_text(title, 36), tone: Tone::Default },
            CellView { text: "by "@ + who, tone: Tone::Accent2 },
            CellView { text: created.take(if created.len() < 10 { created.len() as int } else { 10 }), tone: Tone::Muted },
        ],
        actions: request_actions(),
    }
}

pub fn request_row(key: &str, movie: bool, title: &str, who: &str, created: &str) -> (r: RowItem)
    ensures
        r@ == request_row_of(key@, movie, title@, who@, created@),
{
    let icon = if movie { cell("🎬", Tone::Default) } else { cell("📺", Tone::Default) };
    let mut by = owned("by ");
    by.append(who);
    let cv = chars_of(created);
    let day_len = if cv.len() < 10 { cv.len() } else { 10 };
    let day = slice_string(&cv, 0, day_len);
    let cells = vec![
        icon,
        cell(trunc(title, 36).as_str(), Tone::Default),
        cell(by.as_str(), Tone::Accent2),
        cell(day.as_str(), Tone::Muted),
    ];
    let actions = vec![action("approve", "approve request", false), action("decline", "decline request", true)];
    let r = RowItem { key: owned(key), cells, actions };
    proof {
        let want = request_row_of(key@, movie, title@, who@, created@);
        assert(day@ =~= want.cells[3].text);
        assert(r@.cells =~= want.cells);
        assert(r@.actions =~= want.actions);
    }
    r
}

/// The Overseerr panel: how many requests wait, and a quiet footer when none do.
pub open spec fn requests_panel_of(rows: Seq<RowView>, pending: nat) -> PanelView {
    PanelView {
        badge: Some(decimal(pending) + " pending"@),
        gauges: seq![],
        spark: None,
        rows,
        footer: if rows.len() == 0 { Some("no pending requests — the lobby is quiet"@) } else { None },
        panel_actions: seq![],
    }
}

pub fn requests_panel(rows: Vec<RowItem>, pending: u64) -> (p: Panel)
    ensures
        p@ == requests_panel_of(rows_view(rows@), pending as nat),
{
    let mut badge = String::new();
    push_decimal(&mut badge, pending);
    badge.append(" pending");
    let footer = if rows.len() == 0 { Some(owned("no pending requests — the lobby is quiet")) } else { None };
    let p = Panel { badge: Some(badge), gauges: Vec::new(), spark: None, rows, footer, panel_actions: Vec::new() };
    proof {
        let want = requests_panel_of(rows_view(rows@), pending as nat);
        assert(p@.badge == want.badge);
        assert(p@.gauges =~= want.gauges);
        assert(p@.panel_actions =~= want.panel_actions);
    }
    p
}

/// What an action posts (`request/<id>/<action>`) and the status line once
/// it went through, or the error for an unknown action.
pub open spec fn request_call_of(action_id: Seq<char>, row_key: Seq<char>) -> Result<(Seq<char>, Seq<char>), Seq<char>> {
    if action_id == "approve"@ || action_id == "decline"@ {
        Ok(("/api/v1/request/"@ + row_key + "/"@ + action_id, "request "@ + row_key + " "@ + action_id + "d"@))
    } else {
        Err(unknown_action_text(action_id))
    }
}

pub fn request_call(action_id: &str, row_key: &str) -> (r: Result<(String, String), String>)
    ensures
        match request_call_of(action_id@, row_key@) {
            Ok((p, d)) => r matches Ok(t) && t.0@ == p && t.1@ == d,
            Err(m) => r matches Err(x) && x@ == m,
        },
{
    if same(action_id, "approve") || same(action_id, "decline") {
        let mut path = owned("/api/v1/request/");
        path.append(row_key);
        path.append("/");
        path.append(action_id);
        let mut done = owned("request ");
        done.append(row_key);
        done.append(" ");
        done.append(action_id);
        done.append("d");
        Ok((path, done))
    } else {
        Err(unknown_action(action_id))
    }
}

} // verus!
