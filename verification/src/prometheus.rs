//! The Prometheus source's decisions: the queries a config asks for, the
//! rows for scrape targets that are down and for each query's answer, and
//! the badge that counts the live targets.

use vstd::prelude::*;

use crate::config::SourceCfg;
use crate::panel::{cell, Cell, CellView, Panel, PanelView, RowItem, RowView, Tone, rows_view};
use crate::text::{chars_of, decimal, find_char, find_in, owned, push_decimal, slice_string, texts, trim, trimmed};
use crate::util::{trunc, trunc_text};

verus! {

/// A configured query: `label|expr` splits at the first `|`, both sides
/// trimmed; without a `|` the whole text is both label and expression.
pub open spec fn query_of(q: Seq<char>) -> (Seq<char>, Seq<char>) {
    let i = find_char(q, '|');
    if i < q.len() {
        (trimmed(q.take(i)), trimmed(q.skip(i + 1)))
    } else {
        (q, q)
    }
}

/// Splits one configured query into its label and its expression.
pub fn split_query(q: &str) -> (r: (String, String))
    ensures
        r.0@ == query_of(q@).0,
        r.1@ == query_of(q@).1,
{
    let v = chars_of(q);
    let i = find_in(&v, '|', 0);
    if i < v.len() {
        let l = slice_string(&v, 0, i);
        let e = slice_string(&v, i + 1, v.len());
        proof {
            assert(v@.subrange(0, i as int) =~= v@.take(i as int));
            assert(v@.subrange(i + 1, v@.len() as int) =~= v@.skip(i + 1));
        }
        (trim(l.as_str()), trim(e.as_str()))
    } else {
        (owned(q), owned(q))
    }
}

pub open spec fn pair_texts(v: Seq<(String, String)>) -> Seq<(Seq<char>, Seq<char>)> {
    v.map_values(|p: (String, String)| (p.0@, p.1@))
}

/// The queries a source's config asks for, in order (none when unset).
pub open spec fn queries_of(qs: Option<Vec<String>>) -> Seq<(Seq<char>, Seq<char>)> {
    match qs {
        Some(v) => texts(v@).map_values(|q: Seq<char>| query_of(q)),
        None => seq![],
    }
}

/// The `(label, expression)` pairs a Prometheus source runs besides `up`.
pub fn queries(cfg: &SourceCfg) -> (r: Vec<(String, String)>)
    ensures
        pair_texts(r@) == queries_of(cfg.queries),
{
    let mut out: Vec<(String, String)> = Vec::new();
    match &cfg.queries {
        Some(qs) => {
            let ghost want = texts(qs@).map_values(|q: Seq<char>| query_of(q));
            let mut i: usize = 0;
            while i < qs.len()
                invariant
                    i <= qs.len(),
                    want == texts(qs@).map_values(|q: Seq<char>| query_of(q)),
                    pair_texts(out@) == want.take(i as int),
                decreases qs.len() - i,
            {
                let p = split_query(qs[i].as_str());
                let ghost before = pair_texts(out@);
                assert(want[i as int] == query_of(qs@[i as int]@));
                out.push(p);
                assert(pair_texts(out@) =~= before.push((p.0@, p.1@)));
                i += 1;
                assert(pair_texts(out@) =~= want.take(i as int));
            }
            assert(want.take(i as int) =~= want);
        },
        None => {
            assert(pair_texts(out@) =~= Seq::<(Seq<char>, Seq<char>)>::empty());
        },
    }
    out
}

/// One scrape target's `up` sample as the panel reads it: the target's job
/// and instance, whether the sample's value is above zero (the target
/// counts as alive) and whether it is below one (the target is listed as
/// down). The caller compares the value; the library decides the rest.
pub struct Target {
    pub job: String,
    pub instance: String,
    pub alive: bool,
    pub down: bool,
}

pub struct TargetView {
    pub job: Seq<char>,
    pub instance: Seq<char>,
    pub alive: bool,
    pub down: bool,
}

impl View for Target {
    type V = TargetView;

    open spec fn view(&self) -> TargetView {
        TargetView { job: self.job@, instance: self.instance@, alive: self.alive, down: self.down }
    }
}

pub open spec fn targets_view(ts: Seq<Target>) -> Seq<TargetView> {
    ts.map_values(|t: Target| t@)
}

/// What one extra query came back with: the first sample's value, as the
/// caller rendered it; no sample at all; or the query's error.
pub enum QueryOutcome {
    Value(String),
    NoData,
    Failed(String),
}

pub enum QueryOutcomeView {
    Value(Seq<char>),
    NoData,
    Failed(Seq<char>),
}

impl View for QueryOutcome {
    type V = QueryOutcomeView;

    open spec fn view(&self) -> QueryOutcomeView {
        match self {
            QueryOutcome::Value(v) => QueryOutcomeView::Value(v@),
            QueryOutcome::NoData => QueryOutcomeView::NoData,
            QueryOutcome::Failed(e) => QueryOutcomeView::Failed(e@),
        }
    }
}

pub open spec fn answers_view(rs: Seq<(String, QueryOutcome)>) -> Seq<(Seq<char>, QueryOutcomeView)> {
    rs.map_values(|r: (String, QueryOutcome)| (r.0@, r.1@))
}

/// A target that is down: hollow dot, job, instance, "down".
pub open spec fn down_row_of(t: TargetView) -> RowView {
    RowView {
        key: seq![],
        cells: seq![
            CellView { text: "○"@, tone: Tone::Bad },
            CellView { text: t.job, tone: Tone::Default },
            CellView { text: trunc_text(t.instance, 30), tone: Tone::Muted },
            CellView { text: "down"@, tone: Tone::Bad },
        ],
        actions: seq![],
    }
}

/// A query's row: its label with the value, "no data", or the error.
pub open spec fn answer_row_of(label: Seq<char>, o: QueryOutcomeView) -> RowView {
    RowView {
        key: seq![],
        cells: match o {
            QueryOutcomeView::Value(v) => seq![
                CellView { text: "·"@, tone: Tone::Info },
                CellView { text: label, tone: Tone::Default },
                CellView { text: v, tone: Tone::Info },
            ],
            QueryOutcomeView::NoData => seq![
                CellView { text: "·"@, tone: Tone::Muted },
                CellView { text: label, tone: Tone::Default },
                CellView { text: "no data"@, tone: Tone::Muted },
            ],
            QueryOutcomeView::Failed(e) => seq![
                CellView { text: "✗"@, tone: Tone::Bad },
                CellView { text: label, tone: Tone::Default },
                CellView { text: trunc_text(e, 40), tone: Tone::Bad },
            ],
        },
        actions: seq![],
    }
}

/// How many targets are alive.
pub open spec fn alive_count(ts: Seq<TargetView>) -> nat
    decreases ts.len(),
{
    if ts.len() == 0 {
        0
    } else {
        alive_count(ts.drop_last()) + if ts.last().alive { 1nat } else { 0nat }
    }
}

/// The rows of the targets that are down, in order.
pub open spec fn down_rows(ts: Seq<TargetView>) -> Seq<RowView>
    decreases ts.len(),
{
    if ts.len() == 0 {
        seq![]
    } else {
        let r = down_rows(ts.drop_last());
        if ts.last().down {
            r.push(down_row_of(ts.last()))
        } else {
            r
        }
    }
}

pub open spec fn answer_rows(rs: Seq<(Seq<char>, QueryOutcomeView)>) -> Seq<RowView> {
    rs.map_values(|r: (Seq<char>, QueryOutcomeView)| answer_row_of(r.0, r.1))
}

/// The Prometheus panel: "alive/total targets up", the down targets, then one
/// row per extra query; a quiet footer when every target answers and no
/// query was asked.
pub open spec fn prometheus_panel_of(ts: Seq<TargetView>, rs: Seq<(Seq<char>, QueryOutcomeView)>) -> PanelView {
    PanelView {
        badge: Some(decimal(alive_count(ts)) + "/"@ + decimal(ts.len()) + " targets up"@),
        gauges: seq![],
        spark: None,
        rows: down_rows(ts) + answer_rows(rs),
        footer: if alive_count(ts) == ts.len() && rs.len() == 0 {
            Some("every scrape target answering the roll call"@)
        } else {
            None
        },
        panel_actions: seq![],
    }
}

proof fn lemma_alive_at_most(ts: Seq<TargetView>)
    ensures
        alive_count(ts) <= ts.len(),
    decreases ts.len(),
{
    if ts.len() > 0 {
        lemma_alive_at_most(ts.drop_last());
    }
}

fn down_row(t: &Target) -> (r: RowItem)
    ensures
        r@ == down_row_of(t@),
{
    let cells: Vec<Cell> = vec![
        cell("○", Tone::Bad),
        cell(t.job.as_str(), Tone::Default),
        Cell { text: trunc(t.instance.as_str(), 30), tone: Tone::Muted },
        cell("down", Tone::Bad),
    ];
    let r = RowItem { key: String::new(), cells, actions: Vec::new() };
    assert(r@.cells =~= down_row_of(t@).cells);
    assert(r@.actions =~= down_row_of(t@).actions);
    r
}

fn answer_row(label: &str, o: &QueryOutcome) -> (r: RowItem)
    ensures
        r@ == answer_row_of(label@, o@),
{
    let cells: Vec<Cell> = match o {
        QueryOutcome::Value(v) => vec![cell("·", Tone::Info), cell(label, Tone::Default), cell(v.as_str(), Tone::Info)],
        QueryOutcome::NoData => vec![cell("·", Tone::Muted), cell(label, Tone::Default), cell("no data", Tone::Muted)],
        QueryOutcome::Failed(e) => vec![
            cell("✗", Tone::Bad),
            cell(label, Tone::Default),
            Cell { text: trunc(e.as_str(), 40), tone: Tone::Bad },
        ],
    };
    let r = RowItem { key: String::new(), cells, actions: Vec::new() };
    assert(r@.cells =~= answer_row_of(label@, o@).cells);
    assert(r@.actions =~= answer_row_of(label@, o@).actions);
    r
}

/// The Prometheus panel from the `up` samples and the extra queries'
/// answers, in the order they were configured.
pub fn prometheus_panel(targets: &Vec<Target>, answers: &Vec<(String, QueryOutcome)>) -> (p: Panel)
    ensures
        p@ == prometheus_panel_of(targets_view(targets@), answers_view(answers@)),
{
    let ghost tv = targets_view(targets@);
    let ghost av = answers_view(answers@);
    let mut rows: Vec<RowItem> = Vec::new();
    let mut alive: usize = 0;
    let mut i: usize = 0;
    while i < targets.len()
        invariant
            i <= targets.len(),
            tv == targets_view(targets@),
            alive == alive_count(tv.take(i as int)),
            alive <= i,
            rows_view(rows@) == down_rows(tv.take(i as int)),
        decreases targets.len() - i,
    {
        let t = &targets[i];
        proof {
            assert(tv.take(i + 1).drop_last() =~= tv.take(i as int));
            assert(tv.take(i + 1).last() == t@);
        }
        if t.alive {
            alive += 1;
        }
        if t.down {
            let r = down_row(t);
            let ghost before = rows_view(rows@);
            rows.push(r);
            assert(rows_view(rows@) =~= before.push(r@));
        }
        i += 1;
    }
    assert(tv.take(i as int) =~= tv);
    let ghost downs = rows_view(rows@);
    let mut j: usize = 0;
    while j < answers.len()
        invariant
            j <= answers.len(),
            av == answers_view(answers@),
            rows_view(rows@) == downs + answer_rows(av.take(j as int)),
        decreases answers.len() - j,
    {
        let r = answer_row(answers[j].0.as_str(), &answers[j].1);
        let ghost before = rows_view(rows@);
        assert(av[j as int] == (answers@[j as int].0@, answers@[j as int].1@));
        rows.push(r);
        assert(rows_view(rows@) =~= before.push(r@));
        j += 1;
        assert(answer_rows(av.take(j as int)) =~= answer_rows(av.take(j - 1)).push(r@));
    }
    assert(av.take(j as int) =~= av);
    let mut badge = String::new();
    push_decimal(&mut badge, alive as u64);
    badge.append("/");
    push_decimal(&mut badge, targets.len() as u64);
    badge.append(" targets up");
    let footer = if alive == targets.len() && answers.len() == 0 {
        Some(owned("every scrape target answering the roll call"))
    } else {
        None
    };
    let ghost want = prometheus_panel_of(tv, av);
    let p = Panel { badge: Some(badge), gauges: Vec::new(), spark: None, rows, footer, panel_actions: Vec::new() };
    assert(p@.badge =~~= want.badge);
    assert(p@.gauges =~= want.gauges);
    assert(p@.panel_actions =~= want.panel_actions);
    p
}

/// Prometheus only reports; every action is refused.
pub fn prometheus_refusal(action_id: &str) -> (m: String)
    ensures
        m@ == "prometheus has no actions (tried "@ + action_id@ + ")"@,
{
    let mut m = owned("prometheus has no actions (tried ");
    m.append(action_id);
    m.append(")");
    m
}

} // verus!
