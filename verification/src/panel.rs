//! The plugin boundary: sources produce plain-data `Panel`s with semantic
//! `Tone`s and never touch the terminal. The UI decides what a tone looks like.

use vstd::prelude::*;

verus! {

/// Semantic colour intent. The theme maps these to actual colours.
/// `Accent` is part of the palette contract even while no built-in source
/// uses it; third-party sources may.
#[derive(Clone, Copy, Debug, PartialEq, Eq, Structural)]
pub enum Tone {
    Default,
    Accent,
    Accent2,
    Info,
    Good,
    Warn,
    Bad,
    Muted,
}

/// One piece of text in a row, with its tone.
#[derive(Clone, Debug)]
pub struct Cell {
    pub text: String,
    pub tone: Tone,
}

pub struct CellView {
    pub text: Seq<char>,
    pub tone: Tone,
}

impl View for Cell {
    type V = CellView;

    open spec fn view(&self) -> CellView {
        CellView { text: self.text@, tone: self.tone }
    }
}

/// Builds a cell.
pub fn cell(text: &str, tone: Tone) -> (c: Cell)
    ensures
        c@ == (CellView { text: text@, tone }),
{
    Cell { text: String::from_str(text), tone }
}

impl Cell {
    /// A field-for-field copy.
    pub fn copied(&self) -> (c: Cell)
        ensures
            c@ == self@,
    {
        Cell { text: self.text.clone(), tone: self.tone }
    }
}

/// Something the user can ask a source to do.
#[derive(Clone, Debug)]
pub struct ActionSpec {
    pub id: String,
    pub label: String,
    /// Destructive actions are always confirmed before they are sent.
    pub danger: bool,
}

pub struct ActionView {
    pub id: Seq<char>,
    pub label: Seq<char>,
    pub danger: bool,
}

impl View for ActionSpec {
    type V = ActionView;

    open spec fn view(&self) -> ActionView {
        ActionView { id: self.id@, label: self.label@, danger: self.danger }
    }
}

/// Builds an action.
pub fn action(id: &str, label: &str, danger: bool) -> (a: ActionSpec)
    ensures
        a@ == (ActionView { id: id@, label: label@, danger }),
{
    ActionSpec { id: String::from_str(id), label: String::from_str(label), danger }
}

impl ActionSpec {
    /// A field-for-field copy.
    pub fn copied(&self) -> (a: ActionSpec)
        ensures
            a@ == self@,
    {
        ActionSpec { id: self.id.clone(), label: self.label.clone(), danger: self.danger }
    }
}

/// One row of a panel.
#[derive(Clone, Debug)]
pub struct RowItem {
    /// Opaque key handed back to the source with an action (session id, hash, name).
    pub key: String,
    pub cells: Vec<Cell>,
    pub actions: Vec<ActionSpec>,
}

pub struct RowView {
    pub key: Seq<char>,
    pub cells: Seq<CellView>,
    pub actions: Seq<ActionView>,
}

pub open spec fn cells_view(cells: Seq<Cell>) -> Seq<CellView> {
    cells.map_values(|c: Cell| c@)
}

pub open spec fn actions_view(actions: Seq<ActionSpec>) -> Seq<ActionView> {
    actions.map_values(|a: ActionSpec| a@)
}

impl View for RowItem {
    type V = RowView;

    open spec fn view(&self) -> RowView {
        RowView { key: self.key@, cells: cells_view(self.cells@), actions: actions_view(self.actions@) }
    }
}

pub open spec fn rows_view(rows: Seq<RowItem>) -> Seq<RowView> {
    rows.map_values(|r: RowItem| r@)
}

/// The first `n` rows (all of them when there are fewer): the slice a
/// bounded panel shows.
pub open spec fn first_rows(rows: Seq<RowView>, n: nat) -> Seq<RowView> {
    if rows.len() <= n { rows } else { rows.take(n as int) }
}

/// Keeps the first `n` rows.
pub fn cap_rows(rows: &mut Vec<RowItem>, n: usize)
    ensures
        rows_view(final(rows)@) == first_rows(rows_view(old(rows)@), n as nat),
        final(rows)@.len() <= n,
{
    let ghost before = rows_view(rows@);
    rows.truncate(n);
    assert(rows_view(rows@) =~= first_rows(before, n as nat));
}

/// A labelled gauge. The fill ratio (0.0..=1.0) is carried as the IEEE-754
/// bit pattern of an `f64`: the library moves it along and never reads it.
#[derive(Clone, Debug)]
pub struct GaugeItem {
    pub label: String,
    pub ratio_bits: u64,
    pub note: String,
}

pub struct GaugeView {
    pub label: Seq<char>,
    pub ratio_bits: u64,
    pub note: Seq<char>,
}

impl View for GaugeItem {
    type V = GaugeView;

    open spec fn view(&self) -> GaugeView {
        GaugeView { label: self.label@, ratio_bits: self.ratio_bits, note: self.note@ }
    }
}

pub open spec fn gauges_view(gauges: Seq<GaugeItem>) -> Seq<GaugeView> {
    gauges.map_values(|g: GaugeItem| g@)
}

pub open spec fn opt_text(o: Option<String>) -> Option<Seq<char>> {
    match o {
        Some(s) => Some(s@),
        None => None,
    }
}

/// Everything a source knows, as plain data.
#[derive(Clone, Debug)]
pub struct Panel {
    /// Short status shown in the panel's top-right corner.
    pub badge: Option<String>,
    pub gauges: Vec<GaugeItem>,
    /// Optional sparkline: (label, series).
    pub spark: Option<(String, Vec<u64>)>,
    pub rows: Vec<RowItem>,
    /// One quiet line at the bottom.
    pub footer: Option<String>,
    /// Actions that apply to the whole panel, not one row.
    pub panel_actions: Vec<ActionSpec>,
}

pub struct PanelView {
    pub badge: Option<Seq<char>>,
    pub gauges: Seq<GaugeView>,
    pub spark: Option<(Seq<char>, Seq<u64>)>,
    pub rows: Seq<RowView>,
    pub footer: Option<Seq<char>>,
    pub panel_actions: Seq<ActionView>,
}

impl View for Panel {
    type V = PanelView;

    open spec fn view(&self) -> PanelView {
        PanelView {
            badge: opt_text(self.badge),
            gauges: gauges_view(self.gauges@),
            spark: match self.spark {
                Some((l, s)) => Some((l@, s@)),
                None => None,
            },
            rows: rows_view(self.rows@),
            footer: opt_text(self.footer),
            panel_actions: actions_view(self.panel_actions@),
        }
    }
}

impl Panel {
    /// A panel with nothing in it.
    pub fn empty() -> (p: Panel)
        ensures
            p@.badge is None,
            p@.gauges.len() == 0,
            p@.spark is None,
            p@.rows.len() == 0,
            p@.footer is None,
            p@.panel_actions.len() == 0,
    {
        Panel {
            badge: None,
            gauges: Vec::new(),
            spark: None,
            rows: Vec::new(),
            footer: None,
            panel_actions: Vec::new(),
        }
    }
}

/// The error a source gives for an action it does not have.
pub open spec fn unknown_action_text(action_id: Seq<char>) -> Seq<char> {
    "unknown action "@ + action_id
}

pub fn unknown_action(action_id: &str) -> (m: String)
    ensures
        m@ == unknown_action_text(action_id@),
{
    let mut m = String::from_str("unknown action ");
    m.append(action_id);
    m
}

/// What the console asks of a source's worker.
pub enum SourceCmd {
    Refresh,
    Execute { action_id: String, row_key: String },
}

pub enum CmdView {
    Refresh,
    Execute { action_id: Seq<char>, row_key: Seq<char> },
}

impl View for SourceCmd {
    type V = CmdView;

    open spec fn view(&self) -> CmdView {
        match self {
            SourceCmd::Refresh => CmdView::Refresh,
            SourceCmd::Execute { action_id, row_key } => CmdView::Execute {
                action_id: action_id@,
                row_key: row_key@,
            },
        }
    }
}

/// What a source's worker reports back.
#[allow(inconsistent_fields)]
pub enum AppEvent {
    Panel { id: usize, result: Result<Panel, String> },
    ActionDone { id: usize, result: Result<String, String> },
}

} // verus!
