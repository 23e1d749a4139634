//! Jax's mood: what the lab is doing, as the booth mascot sees it.

use vstd::prelude::*;

use crate::app::{lit, App, AppView, SlotView};
use crate::text::same;

verus! {

#[derive(Clone, Copy, PartialEq, Eq, Debug, Structural)]
pub enum Mood {
    Party,
    Alarm,
    Showtime,
    Hauling,
    Chill,
}

/// Kinds whose rows mean somebody is watching.
pub open spec fn is_show_kind(k: Seq<char>) -> bool {
    k == "tautulli"@
}

/// Kinds whose rows mean freight is moving.
pub open spec fn is_haul_kind(k: Seq<char>) -> bool {
    k == "qbittorrent"@ || k == "nzbget"@ || k == "sonarr"@ || k == "radarr"@ || k == "lidarr"@
}

pub open spec fn has_rows(s: SlotView) -> bool {
    s.panel matches Some(p) && p.rows.len() > 0
}

pub open spec fn any_error(a: AppView) -> bool {
    exists|i: int| 0 <= i < a.slots.len() && (#[trigger] a.slots[i]).error is Some
}

pub open spec fn any_show(a: AppView) -> bool {
    exists|i: int| 0 <= i < a.slots.len() && is_show_kind((#[trigger] a.slots[i]).kind) && has_rows(a.slots[i])
}

pub open spec fn any_haul(a: AppView) -> bool {
    exists|i: int| 0 <= i < a.slots.len() && is_haul_kind((#[trigger] a.slots[i]).kind) && has_rows(a.slots[i])
}

/// A success in the last six seconds is a party; otherwise any erroring
/// source raises the alarm; otherwise playing streams mean showtime, moving
/// queues mean hauling, and a quiet lab is chill.
pub open spec fn mood_of(a: AppView, now: u64) -> Mood {
    if a.last_action_ok matches Some(t) && lit(t, now) {
        Mood::Party
    } else if any_error(a) {
        Mood::Alarm
    } else if any_show(a) {
        Mood::Showtime
    } else if any_haul(a) {
        Mood::Hauling
    } else {
        Mood::Chill
    }
}

fn show_kind(k: &str) -> (r: bool)
    ensures
        r == is_show_kind(k@),
{
    same(k, "tautulli")
}

fn haul_kind(k: &str) -> (r: bool)
    ensures
        r == is_haul_kind(k@),
{
    same(k, "qbittorrent") || same(k, "nzbget") || same(k, "sonarr") || same(k, "radarr")
        || same(k, "lidarr")
}

/// What is the lab doing? Jax wants to know.
pub fn mood(app: &App, now: u64) -> (m: Mood)
    ensures
        m == mood_of(app@, now),
{
    if let Some(t) = app.last_action_ok {
        if now < t || now - t < crate::app::STATUS_MS {
            return Mood::Party;
        }
    }
    let n = app.slots.len();
    let mut err = false;
    let mut show = false;
    let mut haul = false;
    let mut i: usize = 0;
    while i < n
        invariant
            n == app.slots.len(),
            i <= n,
            err == exists|j: int| 0 <= j < i && (#[trigger] app@.slots[j]).error is Some,
            show == exists|j: int| 0 <= j < i && is_show_kind((#[trigger] app@.slots[j]).kind) && has_rows(app@.slots[j]),
            haul == exists|j: int| 0 <= j < i && is_haul_kind((#[trigger] app@.slots[j]).kind) && has_rows(app@.slots[j]),
        decreases n - i,
    {
        let s = &app.slots[i];
        assert(app@.slots[i as int] == s@);
        let rows = match &s.panel {
            Some(p) => p.rows.len() > 0,
            None => false,
        };
        if s.error.is_some() {
            err = true;
        }
        if rows && show_kind(s.kind.as_str()) {
            show = true;
        }
        if rows && haul_kind(s.kind.as_str()) {
            haul = true;
        }
        i += 1;
    }
    if err {
        Mood::Alarm
    } else if show {
        Mood::Showtime
    } else if haul {
        Mood::Hauling
    } else {
        Mood::Chill
    }
}


/// Moving freight makes Jax haul: with no recent success, no source in
/// error and nobody watching a Tautulli stream, a qBittorrent, NZBGet,
/// Sonarr, Radarr or Lidarr panel with rows means the mood is hauling, and
/// hauling means such a panel exists.
pub proof fn law_freight_means_hauling(a: AppView, now: u64)
    ensures
        ({
            let quiet = !(a.last_action_ok matches Some(t) && lit(t, now))
                && (forall|i: int| 0 <= i < a.slots.len() ==> (#[trigger] a.slots[i]).error is None)
                && (forall|i: int| 0 <= i < a.slots.len() ==> !((#[trigger] a.slots[i]).kind == "tautulli"@ && has_rows(a.slots[i])));
            let freight = exists|i: int| 0 <= i < a.slots.len() && has_rows(#[trigger] a.slots[i]) && {
                let k = a.slots[i].kind;
                k == "nzbget"@ || k == "qbittorrent"@ || k == "lidarr"@ || k == "radarr"@ || k == "sonarr"@
            };
            &&& (quiet && freight) ==> mood_of(a, now) == Mood::Hauling
            &&& mood_of(a, now) == Mood::Hauling ==> freight
        }),
{
    let freight = exists|i: int| 0 <= i < a.slots.len() && has_rows(#[trigger] a.slots[i]) && {
        let k = a.slots[i].kind;
        k == "nzbget"@ || k == "qbittorrent"@ || k == "lidarr"@ || k == "radarr"@ || k == "sonarr"@
    };
    if freight {
        let i = choose|i: int| 0 <= i < a.slots.len() && has_rows(#[trigger] a.slots[i]) && {
            let k = a.slots[i].kind;
            k == "nzbget"@ || k == "qbittorrent"@ || k == "lidarr"@ || k == "radarr"@ || k == "sonarr"@
        };
        assert(is_haul_kind(a.slots[i].kind));
    }
    if mood_of(a, now) == Mood::Hauling {
        let i = choose|i: int| 0 <= i < a.slots.len() && is_haul_kind((#[trigger] a.slots[i]).kind) && has_rows(a.slots[i]);
        assert(has_rows(a.slots[i]));
    }
}
} // verus!
