//! Jax's data side. The animation itself is drawn by the UI (the one permitted
//! special case at the plugin boundary: `Panel` stays plain data; the UI just
//! knows how to throw a party inside a panel whose kind is `jax`). This source
//! ships what data he has: his shift log, and responses to being bothered.

use std::collections::VecDeque;

use rand::seq::SliceRandom;
use vstd::prelude::*;

use crate::config::SourceCfg;
use crate::panel::{action, cell, ActionView, CellView, Panel, PanelView, RowItem, RowView, Tone};
use crate::text::{decimal, owned, push_decimal, same};

verus! {

/// What Jax gets up to between polls.
pub const LOG_LINES: [&'static str; 14] = [
    "checked the projector gate — no dust",
    "rewound reel 3 by hand, character building",
    "spliced a frame back in, nobody noticed",
    "lamp running warm; within tolerance",
    "swept the booth, found a 2019 popcorn kernel",
    "waved at the folks in NOW SHOWING",
    "carbon arc? no, we're LED now. progress",
    "labelled the reels. re-labelled the reels",
    "practised the changeover cue — 9 frames early",
    "listened to the hum. the hum is good today",
    "tightened the take-up reel, felt professional",
    "watched the bandwidth sparkline like a fish finder",
    "oiled the sprockets (metaphorically)",
    "told the disks a bedtime story",
];

/// The most shift-log entries a poll keeps.
pub const LOG_KEEP: usize = 5;

/// The booth mascot as a source.
pub struct JaxSource {
    log: VecDeque<String>,
    shift_mins: u64,
    snacks: u32,
}

pub struct JaxView {
    /// The shift log, oldest entry first.
    pub log: Seq<Seq<char>>,
    pub shift_mins: u64,
    pub snacks: u32,
}

impl View for JaxSource {
    type V = JaxView;

    closed spec fn view(&self) -> JaxView {
        JaxView {
            log: self.log@.map_values(|l: String| l@),
            shift_mins: self.shift_mins,
            snacks: self.snacks,
        }
    }
}

/// The log after a poll picked `line`: the line is appended unless it is
/// already the newest entry, then only the newest `LOG_KEEP` entries stay.
pub open spec fn log_after_poll(log: Seq<Seq<char>>, line: Seq<char>) -> Seq<Seq<char>> {
    let grown = if log.len() > 0 && log.last() == line { log } else { log.push(line) };
    if grown.len() > LOG_KEEP { grown.skip(grown.len() - LOG_KEEP) } else { grown }
}

/// After any poll the log holds at most `LOG_KEEP` entries and ends with
/// the line just picked; a line equal to the newest entry is not written
/// twice, and below the cap nothing older is lost.
pub proof fn law_poll_log(log: Seq<Seq<char>>, line: Seq<char>)
    ensures
        0 < log_after_poll(log, line).len() <= LOG_KEEP,
        log_after_poll(log, line).last() == line,
        log.len() <= LOG_KEEP && log.len() > 0 && log.last() == line ==> log_after_poll(log, line) == log,
        log.len() < LOG_KEEP && (log.len() == 0 || log.last() != line) ==> log_after_poll(log, line) == log.push(line),
{
    let grown = if log.len() > 0 && log.last() == line { log } else { log.push(line) };
    if grown.len() > LOG_KEEP {
        let k = grown.skip(grown.len() - LOG_KEEP);
        assert(k.last() == grown.last());
    }
}

pub open spec fn log_row(line: Seq<char>) -> RowView {
    RowView {
        key: seq![],
        cells: seq![
            CellView { text: "·"@, tone: Tone::Accent2 },
            CellView { text: line, tone: Tone::Muted },
        ],
        actions: seq![],
    }
}

pub open spec fn pet_action() -> ActionView {
    ActionView { id: "pet"@, label: "pet Jax"@, danger: false }
}

pub open spec fn snack_action() -> ActionView {
    ActionView { id: "snack"@, label: "toss Jax a snack"@, danger: false }
}

/// The panel Jax shows: his log newest first, his snack count, and the two
/// things one may do to him.
pub open spec fn jax_panel(v: JaxView) -> PanelView {
    PanelView {
        badge: Some("on shift · "@ + decimal(v.snacks as nat) + " snacks"@),
        gauges: seq![],
        spark: None,
        rows: Seq::new(v.log.len(), |k: int| log_row(v.log[v.log.len() - 1 - k])),
        footer: Some("Jax 2.0 — now with object permanence"@),
        panel_actions: seq![pet_action(), snack_action()],
    }
}

pub open spec fn pet_entry() -> Seq<char> {
    "received pets. morale +100"@
}

pub open spec fn snack_entry() -> Seq<char> {
    "caught a snack mid-air. still got it"@
}

pub open spec fn shrug_text(action_id: Seq<char>) -> Seq<char> {
    "Jax tilts his head at '"@ + action_id + "'"@
}

/// One line picked at random, by `rand`'s `SliceRandom::choose` with the
/// thread-local generator: `None` exactly when the slice is empty, else one
/// of its elements. Which one is left to chance.
#[verifier::external_body]
fn choose_line(lines: &[&'static str]) -> (r: Option<&'static str>)
    ensures
        r is None <==> lines@.len() == 0,
        r matches Some(l) ==> exists|i: int| 0 <= i < lines@.len() && #[trigger] lines@[i] == l,
{
    lines.choose(&mut rand::thread_rng()).copied()
}

impl JaxSource {
    /// A fresh shift: empty log, no minutes, no snacks.
    pub fn new(_cfg: &SourceCfg) -> (j: Self)
        ensures
            j@.log.len() == 0,
            j@.shift_mins == 0,
            j@.snacks == 0,
    {
        JaxSource { log: VecDeque::new(), shift_mins: 0, snacks: 0 }
    }

    /// Minutes on shift so far (one per poll).
    pub fn shift_mins(&self) -> (m: u64)
        ensures
            m == self@.shift_mins,
    {
        self.shift_mins
    }

    /// Snacks caught so far.
    pub fn snacks(&self) -> (n: u32)
        ensures
            n == self@.snacks,
    {
        self.snacks
    }

    /// One poll: a minute passes, a random line from `LOG_LINES` joins the log,
    /// and the panel is built.
    pub fn poll(&mut self) -> (p: Panel)
        requires
            old(self)@.shift_mins < u64::MAX,
        ensures
            exists|i: int| 0 <= i < LOG_LINES@.len()
                && final(self)@.log == log_after_poll(old(self)@.log, (#[trigger] LOG_LINES@[i])@),
            final(self)@.shift_mins == old(self)@.shift_mins + 1,
            final(self)@.snacks == old(self)@.snacks,
            p@ == jax_panel(final(self)@),
    {
        let picked = choose_line(LOG_LINES.as_slice());
        let line = match picked {
            Some(l) => l,
            None => "stared into the beam",
        };
        self.poll_with(line)
    }

    /// A poll in which `line` was picked.
    pub fn poll_with(&mut self, line: &str) -> (p: Panel)
        requires
            old(self)@.shift_mins < u64::MAX,
        ensures
            final(self)@.log == log_after_poll(old(self)@.log, line@),
            final(self)@.shift_mins == old(self)@.shift_mins + 1,
            final(self)@.snacks == old(self)@.snacks,
            p@ == jax_panel(final(self)@),
    {
        broadcast use vstd::std_specs::vecdeque::group_vec_dequeue_axioms;
        let ghost old_log = self@.log;
        self.shift_mins = self.shift_mins + 1;
        let n = self.log.len();
        let repeat = n > 0 && same(self.log[n - 1].as_str(), line);
        if !repeat {
            self.log.push_back(owned(line));
        }
        let ghost grown = if old_log.len() > 0 && old_log.last() == line@ {
            old_log
        } else {
            old_log.push(line@)
        };
        assert(self@.log =~= grown);
        while self.log.len() > LOG_KEEP
            invariant
                grown.len() <= LOG_KEEP ==> self@.log == grown,
                self@.log.len() <= grown.len(),
                grown.len() > LOG_KEEP ==> self@.log.len() >= LOG_KEEP
                    && self@.log == grown.skip(grown.len() - self@.log.len()),
                self@.shift_mins == old(self)@.shift_mins + 1,
                self@.snacks == old(self)@.snacks,
            decreases self@.log.len(),
        {
            let ghost before = self@.log;
            assert(grown.len() > LOG_KEEP);
            assert(before == grown.skip(grown.len() - before.len()));
            let _ = self.log.pop_front();
            assert(self@.log =~= before.subrange(1, before.len() as int));
            assert(self@.log =~= grown.skip(grown.len() - self@.log.len()));
        }
        assert(grown.len() <= LOG_KEEP ==> self@.log =~= grown);
        self.panel()
    }

    /// The panel for the current state.
    fn panel(&self) -> (p: Panel)
        ensures
            p@ == jax_panel(self@),
    {
        broadcast use vstd::std_specs::vecdeque::group_vec_dequeue_axioms;
        let n = self.log.len();
        let mut rows: Vec<RowItem> = Vec::new();
        let mut k: usize = 0;
        while k < n
            invariant
                n == self@.log.len(),
                k <= n,
                rows@.len() == k,
                forall|j: int| 0 <= j < k ==> (#[trigger] rows@[j])@ == log_row(self@.log[n - 1 - j]),
            decreases n - k,
        {
            let l = &self.log[n - 1 - k];
            let cells = vec![cell("·", Tone::Accent2), cell(l.as_str(), Tone::Muted)];
            let row = RowItem { key: String::new(), cells, actions: Vec::new() };
            assert(row@.cells =~= log_row(self@.log[n - 1 - k]).cells);
            assert(row@.actions =~= log_row(self@.log[n - 1 - k]).actions);
            assert(row@.key =~= log_row(self@.log[n - 1 - k]).key);
            rows.push(row);
            k += 1;
        }
        let mut badge = owned("on shift · ");
        push_decimal(&mut badge, self.snacks as u64);
        badge.append(" snacks");
        let p = Panel {
            badge: Some(badge),
            gauges: Vec::new(),
            spark: None,
            rows,
            footer: Some(owned("Jax 2.0 — now with object permanence")),
            panel_actions: vec![action("pet", "pet Jax", false), action("snack", "toss Jax a snack", false)],
        };
        assert(p@.rows =~= jax_panel(self@).rows);
        assert(p@.panel_actions =~= jax_panel(self@).panel_actions);
        assert(p@.badge == jax_panel(self@).badge);
        assert(p@.gauges =~= jax_panel(self@).gauges);
        assert(p@.footer == jax_panel(self@).footer);
        assert(p@.spark == jax_panel(self@).spark);
        p
    }

    /// Bother Jax: `pet` and `snack` each leave a log entry (a snack is also
    /// counted); anything else gets a puzzled look.
    pub fn execute(&mut self, action_id: &str, _row_key: &str) -> (r: Result<String, String>)
        requires
            action_id@ == "snack"@ ==> old(self)@.snacks < u32::MAX,
        ensures
            action_id@ == "pet"@ ==> {
                &&& r matches Ok(m) && m@ == "Jax chirps happily 🦦"@
                &&& final(self)@.log == old(self)@.log.push(pet_entry())
                &&& final(self)@.snacks == old(self)@.snacks
            },
            action_id@ == "snack"@ ==> {
                &&& r matches Ok(m) && m@ == "Jax catches it without looking 🍿"@
                &&& final(self)@.log == old(self)@.log.push(snack_entry())
                &&& final(self)@.snacks == old(self)@.snacks + 1
            },
            action_id@ != "pet"@ && action_id@ != "snack"@ ==> {
                &&& r matches Err(m) && m@ == shrug_text(action_id@)
                &&& final(self)@.log == old(self)@.log
                &&& final(self)@.snacks == old(self)@.snacks
            },
            final(self)@.shift_mins == old(self)@.shift_mins,
    {
        proof {
            reveal_strlit("pet");
            reveal_strlit("snack");
            assert("pet"@.len() == 3);
            assert("snack"@.len() == 5);
        }
        if same(action_id, "pet") {
            self.log.push_back(owned("received pets. morale +100"));
            assert(self@.log =~= old(self)@.log.push(pet_entry()));
            Ok(owned("Jax chirps happily 🦦"))
        } else if same(action_id, "snack") {
            self.snacks = self.snacks + 1;
            self.log.push_back(owned("caught a snack mid-air. still got it"));
            assert(self@.log =~= old(self)@.log.push(snack_entry()));
            Ok(owned("Jax catches it without looking 🍿"))
        } else {
            let mut m = owned("Jax tilts his head at '");
            m.append(action_id);
            m.append("'");
            Err(m)
        }
    }
}

} // verus!
