//! The console's state: screens, slots, focus, overlays, and the key-event
//! state machine. Every decision the console makes lives here; the terminal
//! loop hands in keys, worker reports and the clock, and sends out the
//! commands this module returns.
//!
//! Time is a millisecond counter supplied by the caller (`now`).

use vstd::prelude::*;

use crate::panel::{
    cells_view, opt_text, ActionSpec, ActionView, AppEvent, CellView, CmdView, Panel, PanelView, RowView,
    SourceCmd,
};
use crate::text::{contains_sub, has_sub, lowercase, owned, pop_char, push_char, to_lowercase};

verus! {

/// How long a status line stays lit, in milliseconds.
pub const STATUS_MS: u64 = 6000;

/// One configured source instance on one screen.
pub struct Slot {
    pub name: String,
    pub kind: String,
    pub screen: usize,
    pub panel: Option<Panel>,
    pub error: Option<String>,
    /// When the last report arrived (clock milliseconds).
    pub updated: Option<u64>,
    pub selected: usize,
    /// Whether a worker serves this slot. In demo mode, or when the source
    /// could not be built, nobody does and actions are pantomimed.
    pub wired: bool,
}

#[verifier::ext_equal]
pub struct SlotView {
    pub name: Seq<char>,
    pub kind: Seq<char>,
    pub screen: usize,
    pub panel: Option<PanelView>,
    pub error: Option<Seq<char>>,
    pub updated: Option<u64>,
    pub selected: usize,
    pub wired: bool,
}

pub open spec fn opt_panel(p: Option<Panel>) -> Option<PanelView> {
    match p {
        Some(p) => Some(p@),
        None => None,
    }
}

impl View for Slot {
    type V = SlotView;

    open spec fn view(&self) -> SlotView {
        SlotView {
            name: self.name@,
            kind: self.kind@,
            screen: self.screen,
            panel: opt_panel(self.panel),
            error: opt_text(self.error),
            updated: self.updated,
            selected: self.selected,
            wired: self.wired,
        }
    }
}

pub open spec fn slots_view(slots: Seq<Slot>) -> Seq<SlotView> {
    slots.map_values(|s: Slot| s@)
}

pub struct Status {
    pub msg: String,
    pub ok: bool,
    /// When the status was set (clock milliseconds).
    pub at: u64,
}

pub struct StatusView {
    pub msg: Seq<char>,
    pub ok: bool,
    pub at: u64,
}

impl View for Status {
    type V = StatusView;

    open spec fn view(&self) -> StatusView {
        StatusView { msg: self.msg@, ok: self.ok, at: self.at }
    }
}

pub open spec fn items_view(items: Seq<(ActionSpec, String)>) -> Seq<(ActionView, Seq<char>)> {
    items.map_values(|it: (ActionSpec, String)| (it.0@, it.1@))
}

pub enum Overlay {
    /// No overlay is open.
    Nothing,
    Help,
    Menu { slot: usize, items: Vec<(ActionSpec, String)>, sel: usize },
    Confirm { slot: usize, action: ActionSpec, row_key: String, context: String },
    Palette { input: String, sel: usize },
}

#[verifier::ext_equal]
pub enum OverlayView {
    Nothing,
    Help,
    Menu { slot: usize, items: Seq<(ActionView, Seq<char>)>, sel: usize },
    Confirm { slot: usize, action: ActionView, row_key: Seq<char>, context: Seq<char> },
    Palette { input: Seq<char>, sel: usize },
}

impl View for Overlay {
    type V = OverlayView;

    open spec fn view(&self) -> OverlayView {
        match self {
            Overlay::Nothing => OverlayView::Nothing,
            Overlay::Help => OverlayView::Help,
            Overlay::Menu { slot, items, sel } => OverlayView::Menu {
                slot: *slot,
                items: items_view(items@),
                sel: *sel,
            },
            Overlay::Confirm { slot, action, row_key, context } => OverlayView::Confirm {
                slot: *slot,
                action: action@,
                row_key: row_key@,
                context: context@,
            },
            Overlay::Palette { input, sel } => OverlayView::Palette { input: input@, sel: *sel },
        }
    }
}

pub enum PalCmd {
    Screen(usize),
    RefreshAll,
    ToggleJax,
    Help,
    Quit,
    Slot { slot: usize, action: ActionSpec, row_key: String },
}

pub enum PalCmdView {
    Screen(usize),
    RefreshAll,
    ToggleJax,
    Help,
    Quit,
    Slot { slot: usize, action: ActionView, row_key: Seq<char> },
}

impl View for PalCmd {
    type V = PalCmdView;

    open spec fn view(&self) -> PalCmdView {
        match self {
            PalCmd::Screen(i) => PalCmdView::Screen(*i),
            PalCmd::RefreshAll => PalCmdView::RefreshAll,
            PalCmd::ToggleJax => PalCmdView::ToggleJax,
            PalCmd::Help => PalCmdView::Help,
            PalCmd::Quit => PalCmdView::Quit,
            PalCmd::Slot { slot, action, row_key } => PalCmdView::Slot {
                slot: *slot,
                action: action@,
                row_key: row_key@,
            },
        }
    }
}

pub struct PaletteItem {
    pub label: String,
    pub cmd: PalCmd,
}

pub struct PaletteItemView {
    pub label: Seq<char>,
    pub cmd: PalCmdView,
}

impl View for PaletteItem {
    type V = PaletteItemView;

    open spec fn view(&self) -> PaletteItemView {
        PaletteItemView { label: self.label@, cmd: self.cmd@ }
    }
}

pub open spec fn palette_view(items: Seq<PaletteItem>) -> Seq<PaletteItemView> {
    items.map_values(|i: PaletteItem| i@)
}

/// A command the console wants delivered to one slot's worker.
pub struct Outgoing {
    pub slot: usize,
    pub cmd: SourceCmd,
}

pub struct OutgoingView {
    pub slot: usize,
    pub cmd: CmdView,
}

impl View for Outgoing {
    type V = OutgoingView;

    open spec fn view(&self) -> OutgoingView {
        OutgoingView { slot: self.slot, cmd: self.cmd@ }
    }
}

pub open spec fn outgoing_view(out: Seq<Outgoing>) -> Seq<OutgoingView> {
    out.map_values(|o: Outgoing| o@)
}

/// The keys the console understands; anything else is `Other`.
#[derive(Clone, Copy, Debug, PartialEq, Eq, Structural)]
pub enum KeyCode {
    Char(char),
    Enter,
    Esc,
    Backspace,
    Tab,
    BackTab,
    Up,
    Down,
    Left,
    Right,
    Other,
}

/// One key press, with whether Control was held.
#[derive(Clone, Copy, Debug, PartialEq, Eq, Structural)]
pub struct Key {
    pub code: KeyCode,
    pub ctrl: bool,
}

pub struct App {
    pub screens: Vec<String>,
    pub slots: Vec<Slot>,
    pub screen_idx: usize,
    /// Focused slot index per screen (an index into `slots_in`'s result).
    pub focus: Vec<usize>,
    pub tick: u64,
    pub jax: bool,
    pub overlay: Overlay,
    pub status: Option<Status>,
    /// When an action last succeeded (clock milliseconds).
    pub last_action_ok: Option<u64>,
    pub demo: bool,
    pub quit: bool,
}

#[verifier::ext_equal]
pub struct AppView {
    pub screens: Seq<Seq<char>>,
    pub slots: Seq<SlotView>,
    pub screen_idx: usize,
    pub focus: Seq<usize>,
    pub tick: u64,
    pub jax: bool,
    pub overlay: OverlayView,
    pub status: Option<StatusView>,
    pub last_action_ok: Option<u64>,
    pub demo: bool,
    pub quit: bool,
}

pub open spec fn texts_view(v: Seq<String>) -> Seq<Seq<char>> {
    v.map_values(|s: String| s@)
}

impl View for App {
    type V = AppView;

    open spec fn view(&self) -> AppView {
        AppView {
            screens: texts_view(self.screens@),
            slots: slots_view(self.slots@),
            screen_idx: self.screen_idx,
            focus: self.focus@,
            tick: self.tick,
            jax: self.jax,
            overlay: self.overlay@,
            status: match self.status {
                Some(s) => Some(s@),
                None => None,
            },
            last_action_ok: self.last_action_ok,
            demo: self.demo,
            quit: self.quit,
        }
    }
}

// ---------------------------------------------------------------------------
// The model.

/// Well-formedness: there is a screen, the focus table covers the screens,
/// the current screen exists, and overlays point at existing slots.
pub open spec fn app_wf(a: AppView) -> bool {
    &&& a.screens.len() > 0
    &&& a.focus.len() == a.screens.len()
    &&& a.screen_idx < a.screens.len()
    &&& a.screens.len() <= usize::MAX
    &&& a.slots.len() <= usize::MAX
    &&& match a.overlay {
        OverlayView::Menu { slot, .. } => slot < a.slots.len(),
        OverlayView::Confirm { slot, .. } => slot < a.slots.len(),
        _ => true,
    }
}

/// Indices of the first `n` slots that sit on `screen`, in order.
pub open spec fn slots_on_prefix(slots: Seq<SlotView>, screen: usize, n: int) -> Seq<usize>
    decreases n,
{
    if n <= 0 {
        seq![]
    } else {
        let r = slots_on_prefix(slots, screen, n - 1);
        if slots[n - 1].screen == screen {
            r.push((n - 1) as usize)
        } else {
            r
        }
    }
}

/// Indices of the slots that sit on `screen`, in order.
pub open spec fn slots_on(slots: Seq<SlotView>, screen: usize) -> Seq<usize> {
    slots_on_prefix(slots, screen, slots.len() as int)
}

/// The focused slot of the current screen: the focus index clamped to the
/// screen's slots, or nothing on an empty screen.
pub open spec fn focused_of(a: AppView) -> Option<usize> {
    let ids = slots_on(a.slots, a.screen_idx);
    let f = a.focus[a.screen_idx as int];
    if ids.len() == 0 {
        None
    } else if f < ids.len() {
        Some(ids[f as int])
    } else {
        Some(ids[ids.len() - 1])
    }
}

pub open spec fn with_status(a: AppView, msg: Seq<char>, ok: bool, now: u64) -> AppView {
    AppView {
        status: Some(StatusView { msg, ok, at: now }),
        last_action_ok: if ok { Some(now) } else { a.last_action_ok },
        ..a
    }
}

/// A status set at `at` is still lit at `now` for the first six seconds
/// (a clock that reads earlier than `at` counts as no time passed).
pub open spec fn lit(at: u64, now: u64) -> bool {
    (now as int) - (at as int) < STATUS_MS as int
}

/// A slot is loading until its first panel arrives; an error before that
/// leaves it loading.
pub open spec fn loading(s: SlotView) -> bool {
    s.panel is None
}

/// The effect of one worker report.
pub open spec fn event_step(a: AppView, id: usize, result: Result<PanelView, Seq<char>>, now: u64) -> AppView {
    if id < a.slots.len() {
        let s = a.slots[id as int];
        let s2 = match result {
            Ok(p) => SlotView {
                selected: if s.selected < p.rows.len() { s.selected } else if p.rows.len() == 0 { 0 } else { (p.rows.len() - 1) as usize },
                panel: Some(p),
                error: None,
                updated: Some(now),
                ..s
            },
            Err(e) => SlotView { error: Some(e), updated: Some(now), ..s },
        };
        AppView { slots: a.slots.update(id as int, s2), ..a }
    } else {
        a
    }
}

pub open spec fn slot_name_or_empty(a: AppView, id: usize) -> Seq<char> {
    if id < a.slots.len() { a.slots[id as int].name } else { seq![] }
}

/// The effect of an action's outcome: the status line reports it, under the
/// slot's name.
pub open spec fn done_step(a: AppView, id: usize, result: Result<Seq<char>, Seq<char>>, now: u64) -> AppView {
    match result {
        Ok(m) => with_status(a, slot_name_or_empty(a, id) + ": "@ + m, true, now),
        Err(e) => with_status(a, slot_name_or_empty(a, id) + ": "@ + e, false, now),
    }
}


/// The actions a slot offers right now: the selected row's, each with the
/// row's key, then the panel's own, with an empty key.
pub open spec fn row_actions(r: RowView) -> Seq<(ActionView, Seq<char>)> {
    r.actions.map_values(|a: ActionView| (a, r.key))
}

pub open spec fn panel_wide_actions(p: PanelView) -> Seq<(ActionView, Seq<char>)> {
    p.panel_actions.map_values(|a: ActionView| (a, Seq::<char>::empty()))
}

pub open spec fn slot_actions_of(s: SlotView) -> Seq<(ActionView, Seq<char>)> {
    match s.panel {
        Some(p) => (if s.selected < p.rows.len() {
            row_actions(p.rows[s.selected as int])
        } else {
            Seq::empty()
        }) + panel_wide_actions(p),
        None => Seq::empty(),
    }
}

/// The texts of the cells longer than two characters, in order.
pub open spec fn meaty_texts(cells: Seq<CellView>) -> Seq<Seq<char>>
    decreases cells.len(),
{
    if cells.len() == 0 {
        seq![]
    } else {
        let r = meaty_texts(cells.drop_last());
        if cells.last().text.len() > 2 {
            r.push(cells.last().text)
        } else {
            r
        }
    }
}

/// The first of the texts, or nothing.
pub open spec fn first_or_empty(ts: Seq<Seq<char>>) -> Seq<char> {
    if ts.len() == 0 {
        seq![]
    } else {
        ts[0]
    }
}

/// The human context shown in a confirm: the selected row's first meaty
/// cell.
pub open spec fn context_of(s: SlotView) -> Seq<char> {
    match s.panel {
        Some(p) => if s.selected < p.rows.len() {
            first_or_empty(meaty_texts(p.rows[s.selected as int].cells))
        } else {
            seq![]
        },
        None => seq![],
    }
}

pub open spec fn screen_items(screens: Seq<Seq<char>>) -> Seq<PaletteItemView> {
    Seq::new(
        screens.len(),
        |i: int| PaletteItemView { label: "go to "@ + screens[i], cmd: PalCmdView::Screen(i as usize) },
    )
}

pub open spec fn fixed_items() -> Seq<PaletteItemView> {
    seq![
        PaletteItemView { label: "refresh everything"@, cmd: PalCmdView::RefreshAll },
        PaletteItemView { label: "toggle Jax"@, cmd: PalCmdView::ToggleJax },
        PaletteItemView { label: "help"@, cmd: PalCmdView::Help },
        PaletteItemView { label: "quit flicker"@, cmd: PalCmdView::Quit },
    ]
}

/// `"{slot name}: {action label}"`, with `" ⚠"` after a destructive one.
pub open spec fn action_label(name: Seq<char>, a: ActionView) -> Seq<char> {
    name + ": "@ + a.label + (if a.danger { " ⚠"@ } else { Seq::<char>::empty() })
}

pub open spec fn slot_items_of(a: AppView, slot: usize) -> Seq<PaletteItemView> {
    slot_actions_of(a.slots[slot as int]).map_values(
        |it: (ActionView, Seq<char>)|
            PaletteItemView {
                label: action_label(a.slots[slot as int].name, it.0),
                cmd: PalCmdView::Slot { slot, action: it.0, row_key: it.1 },
            },
    )
}

pub open spec fn slot_items(a: AppView) -> Seq<PaletteItemView> {
    match focused_of(a) {
        Some(slot) => slot_items_of(a, slot),
        None => seq![],
    }
}

/// Every palette entry before filtering: one per screen, the four fixed
/// commands, then the focused slot's actions.
pub open spec fn all_items(a: AppView) -> Seq<PaletteItemView> {
    screen_items(a.screens) + fixed_items() + slot_items(a)
}

/// An entry survives the (already lower-cased) filter when the filter is
/// empty or occurs in the entry's lower-cased label.
pub open spec fn item_matches(it: PaletteItemView, f: Seq<char>) -> bool {
    f.len() == 0 || has_sub(lowercase(it.label), f)
}

pub open spec fn keep_matching(items: Seq<PaletteItemView>, f: Seq<char>) -> Seq<PaletteItemView>
    decreases items.len(),
{
    if items.len() == 0 {
        seq![]
    } else {
        let r = keep_matching(items.drop_last(), f);
        if item_matches(items.last(), f) {
            r.push(items.last())
        } else {
            r
        }
    }
}

/// The command palette for a filter string.
pub open spec fn palette_of(a: AppView, filter: Seq<char>) -> Seq<PaletteItemView> {
    keep_matching(all_items(a), lowercase(filter))
}

pub open spec fn cmd_valid(a: AppView, c: PalCmdView) -> bool {
    match c {
        PalCmdView::Screen(i) => i < a.screens.len(),
        PalCmdView::Slot { slot, .. } => slot < a.slots.len(),
        _ => true,
    }
}

/// Sends an action to a slot's worker, or pantomimes it when nobody serves
/// the slot; either way the status line says so.
pub open spec fn dispatch_step(a: AppView, slot: usize, act: ActionView, row_key: Seq<char>, now: u64) -> (AppView, Seq<OutgoingView>) {
    let s = a.slots[slot as int];
    if s.wired {
        (
            with_status(a, s.name + ": "@ + act.label + "…"@, true, now),
            seq![OutgoingView { slot, cmd: CmdView::Execute { action_id: act.id, row_key } }],
        )
    } else {
        (with_status(a, "demo: pretended to "@ + act.label + " ✓"@, true, now), seq![])
    }
}

pub open spec fn refresh_of(slots: Seq<SlotView>, i: usize) -> Seq<OutgoingView> {
    if slots[i as int].wired {
        seq![OutgoingView { slot: i, cmd: CmdView::Refresh }]
    } else {
        seq![]
    }
}

/// Refresh requests for the first `n` slots that have a worker, in order.
pub open spec fn refresh_all_prefix(slots: Seq<SlotView>, n: int) -> Seq<OutgoingView>
    decreases n,
{
    if n <= 0 {
        seq![]
    } else {
        refresh_all_prefix(slots, n - 1) + refresh_of(slots, (n - 1) as usize)
    }
}

/// What a palette command (or a chosen menu entry) does. A destructive
/// action never goes out from here: it opens the confirm.
pub open spec fn pal_step(a: AppView, c: PalCmdView, now: u64) -> (AppView, Seq<OutgoingView>) {
    match c {
        PalCmdView::Screen(i) => (AppView { screen_idx: i, ..a }, seq![]),
        PalCmdView::RefreshAll => (
            with_status(a, "refreshing everything"@, true, now),
            refresh_all_prefix(a.slots, a.slots.len() as int),
        ),
        PalCmdView::ToggleJax => (AppView { jax: !a.jax, ..a }, seq![]),
        PalCmdView::Help => (AppView { overlay: OverlayView::Help, ..a }, seq![]),
        PalCmdView::Quit => (AppView { quit: true, ..a }, seq![]),
        PalCmdView::Slot { slot, action, row_key } => if action.danger {
            (
                AppView {
                    overlay: OverlayView::Confirm { slot, action, row_key, context: context_of(a.slots[slot as int]) },
                    ..a
                },
                seq![],
            )
        } else {
            dispatch_step(a, slot, action, row_key, now)
        },
    }
}

pub open spec fn rows_in(s: SlotView) -> nat {
    match s.panel {
        Some(p) => p.rows.len(),
        None => 0,
    }
}

pub open spec fn with_selected(a: AppView, i: usize, sel: usize) -> AppView {
    AppView { slots: a.slots.update(i as int, SlotView { selected: sel, ..a.slots[i as int] }), ..a }
}

pub open spec fn with_focus(a: AppView, f: usize) -> AppView {
    AppView { focus: a.focus.update(a.screen_idx as int, f), ..a }
}

pub open spec fn one_or(n: nat) -> nat {
    if n == 0 { 1 } else { n }
}

/// A key with no overlay open.
pub open spec fn normal_step(a: AppView, k: Key, now: u64) -> (AppView, Seq<OutgoingView>) {
    let n_screens = a.screens.len();
    let n_here = one_or(slots_on(a.slots, a.screen_idx).len());
    let f = a.focus[a.screen_idx as int];
    match k.code {
        KeyCode::Char('q') => (AppView { quit: true, ..a }, seq![]),
        KeyCode::Char('?') => (AppView { overlay: OverlayView::Help, ..a }, seq![]),
        KeyCode::Char(':') | KeyCode::Char('p') => (
            AppView { overlay: OverlayView::Palette { input: seq![], sel: 0 }, ..a },
            seq![],
        ),
        KeyCode::Char('J') => (AppView { jax: !a.jax, ..a }, seq![]),
        KeyCode::Char('[') | KeyCode::Char('h') | KeyCode::Left => (
            AppView { screen_idx: if a.screen_idx > 0 { (a.screen_idx - 1) as usize } else { (n_screens - 1) as usize }, ..a },
            seq![],
        ),
        KeyCode::Char(']') | KeyCode::Char('l') | KeyCode::Right => (
            AppView { screen_idx: ((a.screen_idx + 1) % n_screens as int) as usize, ..a },
            seq![],
        ),
        KeyCode::Tab => (with_focus(a, ((f + 1) % n_here as int) as usize), seq![]),
        KeyCode::BackTab => (with_focus(a, if f > 0 { (f - 1) as usize } else { (n_here - 1) as usize }), seq![]),
        KeyCode::Char('j') | KeyCode::Down => match focused_of(a) {
            Some(i) => {
                let n = rows_in(a.slots[i as int]);
                if n > 0 {
                    (with_selected(a, i, ((a.slots[i as int].selected + 1) % n as int) as usize), seq![])
                } else {
                    (a, seq![])
                }
            },
            None => (a, seq![]),
        },
        KeyCode::Char('k') | KeyCode::Up => match focused_of(a) {
            Some(i) => {
                let n = rows_in(a.slots[i as int]);
                let cur = a.slots[i as int].selected;
                if n > 0 {
                    (with_selected(a, i, if cur > 0 { (cur - 1) as usize } else { (n - 1) as usize }), seq![])
                } else {
                    (a, seq![])
                }
            },
            None => (a, seq![]),
        },
        KeyCode::Char('r') => match focused_of(a) {
            Some(i) => (
                with_status(a, "refreshing "@ + a.slots[i as int].name, true, now),
                refresh_of(a.slots, i),
            ),
            None => (a, seq![]),
        },
        KeyCode::Char('R') => pal_step(a, PalCmdView::RefreshAll, now),
        KeyCode::Enter | KeyCode::Char('a') => match focused_of(a) {
            Some(slot) => {
                let items = slot_actions_of(a.slots[slot as int]);
                if items.len() == 0 {
                    (with_status(a, "no actions here"@, false, now), seq![])
                } else {
                    (AppView { overlay: OverlayView::Menu { slot, items, sel: 0 }, ..a }, seq![])
                }
            },
            None => (a, seq![]),
        },
        KeyCode::Char(c) => if '1' <= c && c <= '9' && (c as int) - ('1' as int) < n_screens {
            (AppView { screen_idx: ((c as int) - ('1' as int)) as usize, ..a }, seq![])
        } else {
            (a, seq![])
        },
        _ => (a, seq![]),
    }
}

/// One key press. Control-C quits from anywhere. Otherwise the open overlay
/// (if any) is closed first and then the key decides what happens: in the
/// confirm only `y` sends the action, while Enter, Esc, `n` and `q` take
/// the default "no".
pub open spec fn key_step(a: AppView, k: Key, now: u64) -> (AppView, Seq<OutgoingView>) {
    if k.code == KeyCode::Char('c') && k.ctrl {
        (AppView { quit: true, ..a }, seq![])
    } else {
        let b = AppView { overlay: OverlayView::Nothing, ..a };
        match a.overlay {
            OverlayView::Nothing => normal_step(b, k, now),
            OverlayView::Help => match k.code {
                KeyCode::Esc | KeyCode::Char('q') | KeyCode::Char('?') | KeyCode::Enter => (b, seq![]),
                _ => (a, seq![]),
            },
            OverlayView::Menu { slot, items, sel } => match k.code {
                KeyCode::Esc | KeyCode::Char('q') => (b, seq![]),
                KeyCode::Char('j') | KeyCode::Down => (
                    AppView { overlay: OverlayView::Menu { slot, items, sel: ((sel + 1) % one_or(items.len()) as int) as usize }, ..b },
                    seq![],
                ),
                KeyCode::Char('k') | KeyCode::Up => (
                    AppView {
                        overlay: OverlayView::Menu {
                            slot,
                            items,
                            sel: if sel > 0 { (sel - 1) as usize } else if items.len() > 0 { (items.len() - 1) as usize } else { 0 },
                        },
                        ..b
                    },
                    seq![],
                ),
                KeyCode::Enter => if sel < items.len() {
                    pal_step(b, PalCmdView::Slot { slot, action: items[sel as int].0, row_key: items[sel as int].1 }, now)
                } else {
                    (b, seq![])
                },
                _ => (a, seq![]),
            },
            OverlayView::Confirm { slot, action, row_key, context } => match k.code {
                KeyCode::Char('y') => dispatch_step(b, slot, action, row_key, now),
                KeyCode::Esc | KeyCode::Char('n') | KeyCode::Char('q') | KeyCode::Enter => (
                    with_status(b, "cancelled — nothing touched"@, true, now),
                    seq![],
                ),
                _ => (a, seq![]),
            },
            OverlayView::Palette { input, sel } => {
                let items = palette_of(b, input);
                match k.code {
                    KeyCode::Esc => (b, seq![]),
                    KeyCode::Enter => if sel < items.len() {
                        pal_step(b, items[sel as int].cmd, now)
                    } else {
                        (b, seq![])
                    },
                    KeyCode::Backspace => (
                        AppView {
                            overlay: OverlayView::Palette {
                                input: if input.len() > 0 { input.drop_last() } else { input },
                                sel: 0,
                            },
                            ..b
                        },
                        seq![],
                    ),
                    KeyCode::Down => (
                        AppView { overlay: OverlayView::Palette { input, sel: ((sel + 1) % one_or(items.len()) as int) as usize }, ..b },
                        seq![],
                    ),
                    KeyCode::Up => (
                        AppView {
                            overlay: OverlayView::Palette {
                                input,
                                sel: if sel > 0 { (sel - 1) as usize } else { (one_or(items.len()) - 1) as usize },
                            },
                            ..b
                        },
                        seq![],
                    ),
                    KeyCode::Char(c) => (
                        AppView { overlay: OverlayView::Palette { input: input.push(c), sel: 0 }, ..b },
                        seq![],
                    ),
                    _ => (a, seq![]),
                }
            },
        }
    }
}


proof fn lemma_slots_on_bounded(slots: Seq<SlotView>, screen: usize, n: int)
    requires
        0 <= n <= slots.len(),
    ensures
        forall|k: int| 0 <= k < slots_on_prefix(slots, screen, n).len()
            ==> #[trigger] slots_on_prefix(slots, screen, n)[k] < n,
        slots_on_prefix(slots, screen, n).len() <= n,
    decreases n,
{
    if n > 0 {
        lemma_slots_on_bounded(slots, screen, n - 1);
    }
}

/// The focused slot, when there is one, exists.
pub proof fn lemma_focused_exists(a: AppView)
    requires
        app_wf(a),
    ensures
        focused_of(a) matches Some(i) ==> i < a.slots.len(),
{
    lemma_slots_on_bounded(a.slots, a.screen_idx, a.slots.len() as int);
}

proof fn lemma_keep_valid(a: AppView, items: Seq<PaletteItemView>, f: Seq<char>)
    requires
        forall|j: int| 0 <= j < items.len() ==> cmd_valid(a, #[trigger] items[j].cmd),
    ensures
        forall|k: int| 0 <= k < keep_matching(items, f).len() ==> cmd_valid(a, #[trigger] keep_matching(items, f)[k].cmd),
    decreases items.len(),
{
    if items.len() > 0 {
        let d = items.drop_last();
        assert forall|j: int| 0 <= j < d.len() implies cmd_valid(a, #[trigger] d[j].cmd) by {
            assert(d[j] == items[j]);
        }
        lemma_keep_valid(a, d, f);
        assert(cmd_valid(a, items[items.len() - 1].cmd));
    }
}

/// Every entry of the palette names an existing screen or slot.
pub proof fn lemma_palette_valid(a: AppView, filter: Seq<char>)
    requires
        app_wf(a),
    ensures
        forall|k: int| 0 <= k < palette_of(a, filter).len() ==> cmd_valid(a, #[trigger] palette_of(a, filter)[k].cmd),
{
    lemma_focused_exists(a);
    let all = all_items(a);
    let n1 = screen_items(a.screens).len();
    let n2 = n1 + fixed_items().len();
    assert forall|j: int| 0 <= j < all.len() implies cmd_valid(a, #[trigger] all[j].cmd) by {
        if j < n1 {
            assert(all[j] == screen_items(a.screens)[j]);
        } else if j < n2 {
            assert(all[j] == fixed_items()[j - n1]);
        } else {
            assert(all[j] == slot_items(a)[j - n2]);
        }
    }
    lemma_keep_valid(a, all, lowercase(filter));
}


/// Every step of the model keeps the console well-formed.
pub proof fn lemma_pal_step_wf(a: AppView, c: PalCmdView, now: u64)
    requires
        app_wf(a),
        cmd_valid(a, c),
    ensures
        app_wf(pal_step(a, c, now).0),
{
}

pub proof fn lemma_normal_step_wf(a: AppView, k: Key, now: u64)
    requires
        app_wf(a),
    ensures
        app_wf(normal_step(a, k, now).0),
{
    lemma_focused_exists(a);
}

/// Every key keeps the console well-formed.
pub proof fn lemma_key_step_wf(a: AppView, k: Key, now: u64)
    requires
        app_wf(a),
    ensures
        app_wf(key_step(a, k, now).0),
{
    let b = AppView { overlay: OverlayView::Nothing, ..a };
    assert(app_wf(b));
    lemma_normal_step_wf(b, k, now);
    match a.overlay {
        OverlayView::Menu { slot, items, sel } => {
            if sel < items.len() {
                lemma_pal_step_wf(b, PalCmdView::Slot { slot, action: items[sel as int].0, row_key: items[sel as int].1 }, now);
            }
        },
        OverlayView::Palette { input, sel } => {
            lemma_palette_valid(b, input);
            let items = palette_of(b, input);
            if sel < items.len() {
                assert(cmd_valid(b, items[sel as int].cmd));
                lemma_pal_step_wf(b, items[sel as int].cmd, now);
            }
        },
        _ => {},
    }
}


/// `(x + 1) % n`, computed without overflow.
fn wrap_next(x: usize, n: usize) -> (r: usize)
    requires
        n > 0,
    ensures
        r as int == (x + 1) % (n as int),
{
    if n == 1 {
        proof {
            vstd::arithmetic::div_mod::lemma_small_mod(0, 1);
            vstd::arithmetic::div_mod::lemma_mod_bound((x + 1) as int, 1);
        }
        0
    } else {
        proof {
            vstd::arithmetic::div_mod::lemma_add_mod_noop(x as int, 1, n as int);
            vstd::arithmetic::div_mod::lemma_small_mod(1, n as nat);
        }
        (x % n + 1) % n
    }
}

// ---------------------------------------------------------------------------

impl App {
    pub fn new(screens: Vec<String>, slots: Vec<Slot>, demo: bool) -> (app: App)
        requires
            screens.len() > 0,
        ensures
            app_wf(app@),
            app@.screens == texts_view(screens@),
            app@.slots == slots_view(slots@),
            app@.screen_idx == 0,
            app@.focus == Seq::new(screens.len() as nat, |i: int| 0usize),
            app@.tick == 0,
            app@.jax,
            app@.overlay == OverlayView::Nothing,
            app@.status is None,
            app@.last_action_ok is None,
            app@.demo == demo,
            !app@.quit,
    {
        let n = screens.len();
        let mut focus: Vec<usize> = Vec::new();
        let mut i: usize = 0;
        while i < n
            invariant
                i <= n,
                focus@ == Seq::new(i as nat, |j: int| 0usize),
            decreases n - i,
        {
            focus.push(0);
            i += 1;
            assert(focus@ =~= Seq::new(i as nat, |j: int| 0usize));
        }
        assert(texts_view(screens@).len() == screens@.len());
        let m = slots.len();
        assert(slots_view(slots@).len() == m);
        App {
            screens,
            slots,
            screen_idx: 0,
            focus,
            tick: 0,
            jax: true,
            overlay: Overlay::Nothing,
            status: None,
            last_action_ok: None,
            demo,
            quit: false,
        }
    }

    /// Indices of the slots on `screen`, in order.
    pub fn slots_in(&self, screen: usize) -> (ids: Vec<usize>)
        ensures
            ids@ == slots_on(self@.slots, screen),
    {
        let mut ids: Vec<usize> = Vec::new();
        let mut i: usize = 0;
        while i < self.slots.len()
            invariant
                i <= self.slots.len(),
                ids@ == slots_on_prefix(self@.slots, screen, i as int),
            decreases self.slots.len() - i,
        {
            if self.slots[i].screen == screen {
                ids.push(i);
            }
            i += 1;
        }
        ids
    }

    pub fn focused_slot(&self) -> (r: Option<usize>)
        requires
            app_wf(self@),
        ensures
            r == focused_of(self@),
    {
        let ids = self.slots_in(self.screen_idx);
        if ids.len() == 0 {
            None
        } else {
            let f = self.focus[self.screen_idx];
            if f < ids.len() {
                Some(ids[f])
            } else {
                Some(ids[ids.len() - 1])
            }
        }
    }

    pub fn set_status(&mut self, msg: String, ok: bool, now: u64)
        ensures
            final(self)@ == with_status(old(self)@, msg@, ok, now),
    {
        self.status = Some(Status { msg, ok, at: now });
        if ok {
            self.last_action_ok = Some(now);
        }
    }

    /// The status line, while it is still lit.
    pub fn status_line(&self, now: u64) -> (r: Option<(&str, bool)>)
        ensures
            match self@.status {
                Some(s) => if lit(s.at, now) {
                    r matches Some((m, ok)) && m@ == s.msg && ok == s.ok
                } else {
                    r is None
                },
                None => r is None,
            },
    {
        match &self.status {
            Some(s) => {
                if now < s.at || now - s.at < STATUS_MS {
                    Some((s.msg.as_str(), s.ok))
                } else {
                    None
                }
            },
            None => None,
        }
    }

    /// True while any slot has never delivered a panel.
    pub fn any_loading(&self) -> (r: bool)
        ensures
            r == exists|i: int| 0 <= i < self@.slots.len() && loading(#[trigger] self@.slots[i]),
    {
        let mut i: usize = 0;
        while i < self.slots.len()
            invariant
                i <= self.slots.len(),
                forall|j: int| 0 <= j < i ==> !loading(#[trigger] self@.slots[j]),
            decreases self.slots.len() - i,
        {
            if self.slots[i].panel.is_none() {
                assert(loading(self@.slots[i as int]));
                return true;
            }
            i += 1;
        }
        false
    }


    /// All actions available on a slot right now: the selected row's, then
    /// the panel's.
    pub fn slot_actions(&self, slot: usize) -> (items: Vec<(ActionSpec, String)>)
        requires
            slot < self@.slots.len(),
        ensures
            items_view(items@) == slot_actions_of(self@.slots[slot as int]),
    {
        let mut items: Vec<(ActionSpec, String)> = Vec::new();
        let ghost sv = self@.slots[slot as int];
        match &self.slots[slot].panel {
            Some(p) => {
                let sel = self.slots[slot].selected;
                if sel < p.rows.len() {
                    let row = &p.rows[sel];
                    assert(sv.panel->0.rows[sel as int] == row@);
                    let mut i: usize = 0;
                    while i < row.actions.len()
                        invariant
                            i <= row.actions.len(),
                            items@.len() == i,
                            row_actions(row@).len() == row.actions@.len(),
                            items_view(items@) == row_actions(row@).take(i as int),
                        decreases row.actions.len() - i,
                    {
                        let a = row.actions[i].copied();
                        let k = row.key.clone();
                        proof {
                            assert(row@.actions[i as int] == row.actions@[i as int]@);
                            assert(row_actions(row@)[i as int] == (a@, k@));
                        }
                        let pair = (a, k);
                        let ghost pv = (pair.0@, pair.1@);
                        let ghost before = items@;
                        items.push(pair);
                        proof {
                            assert(items@ == before.push(pair));
                            assert(items@[i as int] == pair);
                            assert(items_view(items@)[i as int] == pv);
                        }
                        i += 1;
                        assert(items_view(items@) =~= row_actions(row@).take(i as int));
                    }
                    assert(row_actions(row@).take(i as int) =~= row_actions(row@));
                } else {
                    assert(items_view(items@) =~= Seq::<(ActionView, Seq<char>)>::empty());
                }
                let ghost pre = items_view(items@);
                assert(pre.len() == items@.len());
                let mut j: usize = 0;
                while j < p.panel_actions.len()
                    invariant
                        j <= p.panel_actions.len(),
                        items@.len() == pre.len() + j,
                        panel_wide_actions(p@).len() == p.panel_actions@.len(),
                        items_view(items@) == pre + panel_wide_actions(p@).take(j as int),
                    decreases p.panel_actions.len() - j,
                {
                    let a = p.panel_actions[j].copied();
                    let k = String::new();
                    proof {
                        assert(p@.panel_actions[j as int] == p.panel_actions@[j as int]@);
                        assert(panel_wide_actions(p@)[j as int] == (a@, k@));
                    }
                    let pair = (a, k);
                    let ghost pv = (pair.0@, pair.1@);
                    let ghost before = items@;
                    items.push(pair);
                    proof {
                        assert(items@ == before.push(pair));
                        assert(items_view(items@)[before.len() as int] == pv);
                        assert(items_view(items@) =~= items_view(before).push(pv));
                        assert((pre + panel_wide_actions(p@).take(j as int)).push(pv)
                            =~= pre + panel_wide_actions(p@).take(j + 1));
                    }
                    j += 1;
                }
                assert(panel_wide_actions(p@).take(j as int) =~= panel_wide_actions(p@));
            },
            None => {
                assert(items_view(items@) =~= Seq::<(ActionView, Seq<char>)>::empty());
            },
        }
        items
    }

    /// Human context for a confirm: the selected row's first meaty cell.
    pub fn row_context(&self, slot: usize) -> (ctx: String)
        requires
            slot < self@.slots.len(),
        ensures
            ctx@ == context_of(self@.slots[slot as int]),
    {
        let ghost sv = self@.slots[slot as int];
        match &self.slots[slot].panel {
            Some(p) => {
                let sel = self.slots[slot].selected;
                if sel < p.rows.len() {
                    let row = &p.rows[sel];
                    assert(sv.panel->0.rows[sel as int] == row@);
                    let ghost cv = cells_view(row.cells@);
                    let mut found: Vec<usize> = Vec::new();
                    let mut i: usize = 0;
                    while i < row.cells.len()
                        invariant
                            i <= row.cells.len(),
                            cv == cells_view(row.cells@),
                            found@.len() == meaty_texts(cv.take(i as int)).len(),
                            forall|k: int| 0 <= k < found@.len() ==> #[trigger] found@[k] < row.cells.len()
                                && cv[found@[k] as int].text == meaty_texts(cv.take(i as int))[k],
                        decreases row.cells.len() - i,
                    {
                        assert(cv.take(i + 1).drop_last() =~= cv.take(i as int));
                        assert(cv.take(i + 1).last() == cv[i as int]);
                        if row.cells[i].text.as_str().unicode_len() > 2 {
                            found.push(i);
                        }
                        i += 1;
                    }
                    assert(cv.take(i as int) =~= cv);
                    let mut out = String::new();
                    if found.len() >= 1 {
                        out.append(row.cells[found[0]].text.as_str());
                    }
                    assert(out@ =~= first_or_empty(meaty_texts(cv)));
                    out
                } else {
                    String::new()
                }
            },
            None => String::new(),
        }
    }

    /// The command palette, filtered by case-insensitive substring.
    pub fn palette_items(&self, filter: &str) -> (items: Vec<PaletteItem>)
        requires
            app_wf(self@),
        ensures
            palette_view(items@) == palette_of(self@, filter@),
            filter@.len() == 0 ==> palette_view(items@) == all_items(self@),
    {
        let f = to_lowercase(filter);
        let ghost fv = f@;
        let ghost all = all_items(self@);
        let mut out: Vec<PaletteItem> = Vec::new();
        let ghost mut seen: Seq<PaletteItemView> = seq![];
        let mut i: usize = 0;
        while i < self.screens.len()
            invariant
                i <= self.screens.len(),
                fv == f@,
                seen == screen_items(self@.screens).take(i as int),
                palette_view(out@) == keep_matching(seen, fv),
            decreases self.screens.len() - i,
        {
            let mut label = owned("go to ");
            label.append(self.screens[i].as_str());
            let item = PaletteItem { label, cmd: PalCmd::Screen(i) };
            proof {
                assert(item@ == screen_items(self@.screens)[i as int]);
            }
            Self::keep_if(&mut out, item, &f, Ghost(seen));
            proof {
                seen = seen.push(screen_items(self@.screens)[i as int]);
            }
            i += 1;
            assert(seen =~= screen_items(self@.screens).take(i as int));
        }
        assert(seen =~= screen_items(self@.screens));
        let it = PaletteItem { label: owned("refresh everything"), cmd: PalCmd::RefreshAll };
        Self::keep_if(&mut out, it, &f, Ghost(seen));
        proof { seen = seen.push(fixed_items()[0]); }
        let it = PaletteItem { label: owned("toggle Jax"), cmd: PalCmd::ToggleJax };
        Self::keep_if(&mut out, it, &f, Ghost(seen));
        proof { seen = seen.push(fixed_items()[1]); }
        let it = PaletteItem { label: owned("help"), cmd: PalCmd::Help };
        Self::keep_if(&mut out, it, &f, Ghost(seen));
        proof { seen = seen.push(fixed_items()[2]); }
        let it = PaletteItem { label: owned("quit flicker"), cmd: PalCmd::Quit };
        Self::keep_if(&mut out, it, &f, Ghost(seen));
        proof { seen = seen.push(fixed_items()[3]); }
        assert(seen =~= screen_items(self@.screens) + fixed_items());
        proof { lemma_focused_exists(self@); }
        match self.focused_slot() {
            Some(slot) => {
                let acts = self.slot_actions(slot);
                let ghost base = seen;
                let ghost si = slot_items_of(self@, slot);
                let mut j: usize = 0;
                while j < acts.len()
                    invariant
                        j <= acts.len(),
                        fv == f@,
                        slot < self@.slots.len(),
                        si == slot_items_of(self@, slot),
                        items_view(acts@) == slot_actions_of(self@.slots[slot as int]),
                        seen == base + si.take(j as int),
                        palette_view(out@) == keep_matching(seen, fv),
                    decreases acts.len() - j,
                {
                    let a = &acts[j].0;
                    let mut label = self.slots[slot].name.clone();
                    label.append(": ");
                    label.append(a.label.as_str());
                    if a.danger {
                        label.append(" ⚠");
                    }
                    let item = PaletteItem {
                        label,
                        cmd: PalCmd::Slot { slot, action: a.copied(), row_key: acts[j].1.clone() },
                    };
                    proof {
                        assert(items_view(acts@)[j as int] == (acts@[j as int].0@, acts@[j as int].1@));
                        assert(item@.label =~= si[j as int].label);
                        assert(item@ == si[j as int]);
                    }
                    Self::keep_if(&mut out, item, &f, Ghost(seen));
                    proof { seen = seen.push(si[j as int]); }
                    j += 1;
                    assert(seen =~= base + si.take(j as int));
                }
                assert(si.take(j as int) =~= si);
            },
            None => {
                assert(seen =~= all);
            },
        }
        assert(seen =~= all);
        proof {
            if filter@.len() == 0 {
                assert(f@ =~= Seq::<char>::empty());
                law_empty_filter_keeps_every_item(all);
            }
        }
        out
    }

    /// Appends `item` when it survives the filter `f`.
    fn keep_if(out: &mut Vec<PaletteItem>, item: PaletteItem, f: &String, Ghost(seen): Ghost<Seq<PaletteItemView>>)
        requires
            palette_view(old(out)@) == keep_matching(seen, f@),
        ensures
            palette_view(final(out)@) == keep_matching(seen.push(item@), f@),
    {
        let ghost s2 = seen.push(item@);
        assert(s2.drop_last() =~= seen);
        let keep = f.as_str().is_empty() || contains_sub(to_lowercase(item.label.as_str()).as_str(), f.as_str());
        if keep {
            out.push(item);
            assert(palette_view(out@) =~= keep_matching(seen, f@).push(item@));
        } else {
            assert(palette_view(out@) =~= keep_matching(seen, f@));
        }
    }


    fn refresh(&self, slot: usize) -> (out: Vec<Outgoing>)
        requires
            slot < self@.slots.len(),
        ensures
            outgoing_view(out@) == refresh_of(self@.slots, slot),
    {
        let mut out: Vec<Outgoing> = Vec::new();
        if self.slots[slot].wired {
            out.push(Outgoing { slot, cmd: SourceCmd::Refresh });
        }
        assert(outgoing_view(out@) =~= refresh_of(self@.slots, slot));
        out
    }

    fn dispatch(&mut self, slot: usize, action: ActionSpec, row_key: String, now: u64) -> (out: Vec<Outgoing>)
        requires
            slot < old(self)@.slots.len(),
        ensures
            final(self)@ == dispatch_step(old(self)@, slot, action@, row_key@, now).0,
            outgoing_view(out@) == dispatch_step(old(self)@, slot, action@, row_key@, now).1,
    {
        let mut out: Vec<Outgoing> = Vec::new();
        if self.slots[slot].wired {
            let mut msg = self.slots[slot].name.clone();
            msg.append(": ");
            msg.append(action.label.as_str());
            msg.append("…");
            let ghost act = action@;
            let ghost key = row_key@;
            out.push(Outgoing { slot, cmd: SourceCmd::Execute { action_id: action.id, row_key } });
            self.set_status(msg, true, now);
            assert(outgoing_view(out@) =~= seq![
                OutgoingView { slot, cmd: CmdView::Execute { action_id: act.id, row_key: key } },
            ]);
        } else {
            let mut msg = owned("demo: pretended to ");
            msg.append(action.label.as_str());
            msg.append(" ✓");
            self.set_status(msg, true, now);
            assert(outgoing_view(out@) =~= Seq::<OutgoingView>::empty());
        }
        out
    }

    fn refresh_all(&self) -> (out: Vec<Outgoing>)
        ensures
            outgoing_view(out@) == refresh_all_prefix(self@.slots, self@.slots.len() as int),
    {
        let mut out: Vec<Outgoing> = Vec::new();
        let mut i: usize = 0;
        while i < self.slots.len()
            invariant
                i <= self.slots.len(),
                outgoing_view(out@) == refresh_all_prefix(self@.slots, i as int),
            decreases self.slots.len() - i,
        {
            let ghost before = outgoing_view(out@);
            if self.slots[i].wired {
                out.push(Outgoing { slot: i, cmd: SourceCmd::Refresh });
            }
            assert(outgoing_view(out@) =~= before + refresh_of(self@.slots, i));
            i += 1;
        }
        out
    }

    fn run_pal_cmd(&mut self, cmd: PalCmd, now: u64) -> (out: Vec<Outgoing>)
        requires
            app_wf(old(self)@),
            cmd_valid(old(self)@, cmd@),
        ensures
            final(self)@ == pal_step(old(self)@, cmd@, now).0,
            outgoing_view(out@) == pal_step(old(self)@, cmd@, now).1,
    {
        match cmd {
            PalCmd::Screen(i) => {
                self.screen_idx = i;
                Vec::new()
            },
            PalCmd::RefreshAll => {
                let out = self.refresh_all();
                self.set_status(owned("refreshing everything"), true, now);
                out
            },
            PalCmd::ToggleJax => {
                self.jax = !self.jax;
                Vec::new()
            },
            PalCmd::Help => {
                self.overlay = Overlay::Help;
                Vec::new()
            },
            PalCmd::Quit => {
                self.quit = true;
                Vec::new()
            },
            PalCmd::Slot { slot, action, row_key } => {
                if action.danger {
                    let context = self.row_context(slot);
                    self.overlay = Overlay::Confirm { slot, action, row_key, context };
                    Vec::new()
                } else {
                    self.dispatch(slot, action, row_key, now)
                }
            },
        }
    }


    /// One key press; returns the commands to deliver to workers.
    pub fn on_key(&mut self, key: Key, now: u64) -> (out: Vec<Outgoing>)
        requires
            app_wf(old(self)@),
        ensures
            app_wf(final(self)@),
            final(self)@ == key_step(old(self)@, key, now).0,
            outgoing_view(out@) == key_step(old(self)@, key, now).1,
    {
        if key.code == KeyCode::Char('c') && key.ctrl {
            self.quit = true;
            return Vec::new();
        }
        let ghost a = self@;
        proof {
            lemma_key_step_wf(a, key, now);
        }
        let mut ov = Overlay::Nothing;
        std::mem::swap(&mut ov, &mut self.overlay);
        proof {
            lemma_focused_exists(self@);
            lemma_palette_valid(self@, seq![]);
        }
        match ov {
            Overlay::Nothing => self.on_key_normal(key, now),
            Overlay::Help => {
                match key.code {
                    KeyCode::Esc | KeyCode::Char('q') | KeyCode::Char('?') | KeyCode::Enter => {},
                    _ => {
                        self.overlay = Overlay::Help;
                    },
                }
                Vec::new()
            },
            Overlay::Menu { slot, mut items, sel } => {
                match key.code {
                    KeyCode::Esc | KeyCode::Char('q') => Vec::new(),
                    KeyCode::Char('j') | KeyCode::Down => {
                        let n = if items.len() == 0 { 1 } else { items.len() };
                        let sel = wrap_next(sel, n);
                        self.overlay = Overlay::Menu { slot, items, sel };
                        Vec::new()
                    },
                    KeyCode::Char('k') | KeyCode::Up => {
                        let sel = if sel > 0 {
                            sel - 1
                        } else if items.len() > 0 {
                            items.len() - 1
                        } else {
                            0
                        };
                        self.overlay = Overlay::Menu { slot, items, sel };
                        Vec::new()
                    },
                    KeyCode::Enter => {
                        if sel < items.len() {
                            let ghost iv = items_view(items@);
                            let (action, row_key) = items.swap_remove(sel);
                            assert(action@ == iv[sel as int].0);
                            assert(row_key@ == iv[sel as int].1);
                            self.run_pal_cmd(PalCmd::Slot { slot, action, row_key }, now)
                        } else {
                            Vec::new()
                        }
                    },
                    _ => {
                        self.overlay = Overlay::Menu { slot, items, sel };
                        Vec::new()
                    },
                }
            },
            Overlay::Confirm { slot, action, row_key, context } => {
                match key.code {
                    KeyCode::Char('y') => self.dispatch(slot, action, row_key, now),
                    KeyCode::Esc | KeyCode::Char('n') | KeyCode::Char('q') | KeyCode::Enter => {
                        self.set_status(owned("cancelled — nothing touched"), true, now);
                        Vec::new()
                    },
                    _ => {
                        self.overlay = Overlay::Confirm { slot, action, row_key, context };
                        Vec::new()
                    },
                }
            },
            Overlay::Palette { mut input, sel } => {
                match key.code {
                    KeyCode::Esc => Vec::new(),
                    KeyCode::Enter => {
                        let mut items = self.palette_items(input.as_str());
                        proof {
                            lemma_palette_valid(self@, input@);
                        }
                        if sel < items.len() {
                            let ghost iv = palette_view(items@);
                            let item = items.swap_remove(sel);
                            assert(item@ == iv[sel as int]);
                            assert(cmd_valid(self@, palette_of(self@, input@)[sel as int].cmd));
                            self.run_pal_cmd(item.cmd, now)
                        } else {
                            Vec::new()
                        }
                    },
                    KeyCode::Backspace => {
                        pop_char(&mut input);
                        self.overlay = Overlay::Palette { input, sel: 0 };
                        Vec::new()
                    },
                    KeyCode::Down => {
                        let count = self.palette_items(input.as_str()).len();
                        let n = if count == 0 { 1 } else { count };
                        let sel = wrap_next(sel, n);
                        self.overlay = Overlay::Palette { input, sel };
                        Vec::new()
                    },
                    KeyCode::Up => {
                        let count = self.palette_items(input.as_str()).len();
                        let n = if count == 0 { 1 } else { count };
                        let sel = if sel > 0 { sel - 1 } else { n - 1 };
                        self.overlay = Overlay::Palette { input, sel };
                        Vec::new()
                    },
                    KeyCode::Char(c) => {
                        push_char(&mut input, c);
                        self.overlay = Overlay::Palette { input, sel: 0 };
                        Vec::new()
                    },
                    _ => {
                        self.overlay = Overlay::Palette { input, sel };
                        Vec::new()
                    },
                }
            },
        }
    }

    fn on_key_normal(&mut self, key: Key, now: u64) -> (out: Vec<Outgoing>)
        requires
            app_wf(old(self)@),
            old(self)@.overlay == OverlayView::Nothing,
        ensures
            final(self)@ == normal_step(old(self)@, key, now).0,
            outgoing_view(out@) == normal_step(old(self)@, key, now).1,
    {
        proof {
            lemma_focused_exists(self@);
        }
        match key.code {
            KeyCode::Char('q') => {
                self.quit = true;
                Vec::new()
            },
            KeyCode::Char('?') => {
                self.overlay = Overlay::Help;
                Vec::new()
            },
            KeyCode::Char(':') | KeyCode::Char('p') => {
                self.overlay = Overlay::Palette { input: String::new(), sel: 0 };
                Vec::new()
            },
            KeyCode::Char('J') => {
                self.jax = !self.jax;
                Vec::new()
            },
            KeyCode::Char('[') | KeyCode::Char('h') | KeyCode::Left => {
                self.screen_idx = if self.screen_idx > 0 {
                    self.screen_idx - 1
                } else {
                    self.screens.len() - 1
                };
                Vec::new()
            },
            KeyCode::Char(']') | KeyCode::Char('l') | KeyCode::Right => {
                assert(self@.screens.len() == self.screens.len());
                self.screen_idx = (self.screen_idx + 1) % self.screens.len();
                Vec::new()
            },
            KeyCode::Tab => {
                let count = self.slots_in(self.screen_idx).len();
                let n = if count == 0 { 1 } else { count };
                let idx = self.screen_idx;
                self.focus[idx] = wrap_next(self.focus[idx], n);
                Vec::new()
            },
            KeyCode::BackTab => {
                let count = self.slots_in(self.screen_idx).len();
                let n = if count == 0 { 1 } else { count };
                let idx = self.screen_idx;
                let f = self.focus[idx];
                self.focus[idx] = if f > 0 { f - 1 } else { n - 1 };
                Vec::new()
            },
            KeyCode::Char('j') | KeyCode::Down => {
                if let Some(i) = self.focused_slot() {
                    let n = match &self.slots[i].panel {
                        Some(p) => p.rows.len(),
                        None => 0,
                    };
                    if n > 0 {
                        let ghost before = self@.slots;
                        self.slots[i].selected = wrap_next(self.slots[i].selected, n);
                        assert(self@.slots =~= before.update(i as int, self@.slots[i as int]));
                    }
                }
                Vec::new()
            },
            KeyCode::Char('k') | KeyCode::Up => {
                if let Some(i) = self.focused_slot() {
                    let n = match &self.slots[i].panel {
                        Some(p) => p.rows.len(),
                        None => 0,
                    };
                    if n > 0 {
                        let ghost before = self@.slots;
                        let cur = self.slots[i].selected;
                        self.slots[i].selected = if cur > 0 { cur - 1 } else { n - 1 };
                        assert(self@.slots =~= before.update(i as int, self@.slots[i as int]));
                    }
                }
                Vec::new()
            },
            KeyCode::Char('r') => {
                match self.focused_slot() {
                    Some(i) => {
                        let out = self.refresh(i);
                        let mut msg = owned("refreshing ");
                        msg.append(self.slots[i].name.as_str());
                        self.set_status(msg, true, now);
                        out
                    },
                    None => Vec::new(),
                }
            },
            KeyCode::Char('R') => self.run_pal_cmd(PalCmd::RefreshAll, now),
            KeyCode::Enter | KeyCode::Char('a') => {
                match self.focused_slot() {
                    Some(slot) => {
                        let items = self.slot_actions(slot);
                        if items.len() == 0 {
                            self.set_status(owned("no actions here"), false, now);
                        } else {
                            self.overlay = Overlay::Menu { slot, items, sel: 0 };
                        }
                        Vec::new()
                    },
                    None => Vec::new(),
                }
            },
            KeyCode::Char(c) => {
                if '1' <= c && c <= '9' {
                    let i = (c as u32 - '1' as u32) as usize;
                    if i < self.screens.len() {
                        self.screen_idx = i;
                    }
                }
                Vec::new()
            },
            _ => Vec::new(),
        }
    }

    /// Folds one worker report into the state.
    pub fn on_app_event(&mut self, ev: AppEvent, now: u64)
        requires
            app_wf(old(self)@),
        ensures
            app_wf(final(self)@),
            match ev {
                AppEvent::Panel { id, result } => final(self)@ == event_step(old(self)@, id, match result {
                    Ok(p) => Ok(p@),
                    Err(e) => Err(e@),
                }, now),
                AppEvent::ActionDone { id, result } => final(self)@ == done_step(old(self)@, id, match result {
                    Ok(m) => Ok(m@),
                    Err(e) => Err(e@),
                }, now),
            },
    {
        match ev {
            AppEvent::Panel { id, result } => {
                if id < self.slots.len() {
                    let ghost old_slots = self@.slots;
                    match result {
                        Ok(p) => {
                            let n = p.rows.len();
                            let cur = self.slots[id].selected;
                            let sel = if cur < n { cur } else if n == 0 { 0 } else { n - 1 };
                            self.slots[id].selected = sel;
                            self.slots[id].panel = Some(p);
                            self.slots[id].error = None;
                            self.slots[id].updated = Some(now);
                        },
                        Err(e) => {
                            self.slots[id].error = Some(e);
                            self.slots[id].updated = Some(now);
                        },
                    }
                    assert(self@.slots =~= old_slots.update(id as int, self@.slots[id as int]));
                }
            },
            AppEvent::ActionDone { id, result } => {
                let mut msg = if id < self.slots.len() {
                    self.slots[id].name.clone()
                } else {
                    String::new()
                };
                msg.append(": ");
                match result {
                    Ok(m) => {
                        msg.append(m.as_str());
                        self.set_status(msg, true, now);
                    },
                    Err(e) => {
                        msg.append(e.as_str());
                        self.set_status(msg, false, now);
                    },
                }
            },
        }
    }
}

} // verus!

verus! {

pub open spec fn has_execute(out: Seq<OutgoingView>) -> bool {
    exists|i: int| 0 <= i < out.len() && (#[trigger] out[i]).cmd is Execute
}

proof fn lemma_refresh_all_no_execute(slots: Seq<SlotView>, n: int)
    ensures
        !has_execute(refresh_all_prefix(slots, n)),
    decreases n,
{
    if n > 0 {
        lemma_refresh_all_no_execute(slots, n - 1);
        let p = refresh_all_prefix(slots, n - 1);
        let q = refresh_of(slots, (n - 1) as usize);
        assert forall|i: int| 0 <= i < (p + q).len() implies !((#[trigger] (p + q)[i]).cmd is Execute) by {
            if i < p.len() {
                assert((p + q)[i] == p[i]);
            } else {
                assert((p + q)[i] == q[i - p.len()]);
            }
        }
    }
}

/// The palette shows exactly the entries whose label holds the filter
/// (ignoring case): every entry it keeps matches and came from the full
/// list, and no matching entry is dropped.
/// An empty filter keeps every palette entry, in order.
pub proof fn law_empty_filter_keeps_every_item(items: Seq<PaletteItemView>)
    ensures
        keep_matching(items, seq![]) == items,
    decreases items.len(),
{
    if items.len() > 0 {
        law_empty_filter_keeps_every_item(items.drop_last());
        assert(items.drop_last().push(items.last()) =~= items);
    }
}

pub proof fn law_palette_keeps_exactly_the_matches(items: Seq<PaletteItemView>, f: Seq<char>)
    ensures
        forall|i: int| 0 <= i < keep_matching(items, f).len() ==> {
            &&& item_matches(#[trigger] keep_matching(items, f)[i], f)
            &&& items.contains(keep_matching(items, f)[i])
        },
        forall|j: int| 0 <= j < items.len() && item_matches(#[trigger] items[j], f) ==> keep_matching(items, f).contains(items[j]),
    decreases items.len(),
{
    if items.len() > 0 {
        let init = items.drop_last();
        law_palette_keeps_exactly_the_matches(init, f);
        let r = keep_matching(init, f);
        let k = keep_matching(items, f);
        assert forall|i: int| 0 <= i < k.len() implies {
            &&& item_matches(#[trigger] k[i], f)
            &&& items.contains(k[i])
        } by {
            if i < r.len() {
                assert(k[i] == r[i]);
                let w = choose|w: int| 0 <= w < init.len() && init[w] == r[i];
                assert(items[w] == init[w]);
            } else {
                assert(k[i] == items.last());
                assert(items[items.len() - 1] == items.last());
            }
        }
        assert forall|j: int| 0 <= j < items.len() && item_matches(#[trigger] items[j], f) implies k.contains(items[j]) by {
            if j < items.len() - 1 {
                assert(init[j] == items[j]);
                let w = choose|w: int| 0 <= w < r.len() && r[w] == init[j];
                assert(k[w] == r[w]);
            } else {
                assert(k[k.len() - 1] == items.last());
            }
        }
    }
}

/// With no overlay open, no key sends an action to a source: actions only go
/// out through the action menu, the palette or the confirm.
pub proof fn law_keys_without_overlay_send_no_action(a: AppView, k: Key, now: u64)
    requires
        app_wf(a),
        a.overlay == OverlayView::Nothing,
    ensures
        !has_execute(key_step(a, k, now).1),
{
    lemma_refresh_all_no_execute(a.slots, a.slots.len() as int);
}

/// Choosing a destructive action in the action menu sends nothing: it opens
/// the confirm for exactly that action and row.
pub proof fn law_menu_danger_opens_confirm(
    a: AppView,
    slot: usize,
    items: Seq<(ActionView, Seq<char>)>,
    sel: usize,
    k: Key,
    now: u64,
)
    requires
        app_wf(a),
        a.overlay == (OverlayView::Menu { slot, items, sel }),
        sel < items.len(),
        items[sel as int].0.danger,
        k.code == KeyCode::Enter,
    ensures
        key_step(a, k, now).1.len() == 0,
        key_step(a, k, now).0.overlay matches OverlayView::Confirm { slot: s2, action, row_key, .. }
            && s2 == slot && action == items[sel as int].0 && row_key == items[sel as int].1,
{
}

/// Choosing a destructive action in the command palette sends nothing: it
/// opens the confirm for exactly that action and row.
pub proof fn law_palette_danger_opens_confirm(
    a: AppView,
    input: Seq<char>,
    sel: usize,
    slot: usize,
    action: ActionView,
    row_key: Seq<char>,
    k: Key,
    now: u64,
)
    requires
        app_wf(a),
        a.overlay == (OverlayView::Palette { input, sel }),
        sel < palette_of(AppView { overlay: OverlayView::Nothing, ..a }, input).len(),
        palette_of(AppView { overlay: OverlayView::Nothing, ..a }, input)[sel as int].cmd
            == (PalCmdView::Slot { slot, action, row_key }),
        action.danger,
        k.code == KeyCode::Enter,
    ensures
        key_step(a, k, now).1.len() == 0,
        key_step(a, k, now).0.overlay matches OverlayView::Confirm { slot: s2, action: a2, row_key: r2, .. }
            && s2 == slot && a2 == action && r2 == row_key,
{
}

/// In the confirm, only an explicit `y` sends the action; Enter, Esc, `n`
/// and `q` take the default "no", close the confirm and say so.
pub proof fn law_confirm_only_y_fires(a: AppView, k: Key, now: u64)
    requires
        app_wf(a),
        a.overlay is Confirm,
    ensures
        has_execute(key_step(a, k, now).1) ==> k.code == KeyCode::Char('y'),
        (k.code == KeyCode::Enter || k.code == KeyCode::Esc || k.code == KeyCode::Char('n')
            || k.code == KeyCode::Char('q')) ==> {
            let (b, out) = key_step(a, k, now);
            &&& out.len() == 0
            &&& b.overlay == OverlayView::Nothing
            &&& b.status == Some(StatusView { msg: "cancelled — nothing touched"@, ok: true, at: now })
        },
{
    let (b, out) = key_step(a, k, now);
    if has_execute(out) {
        let i = choose|i: int| 0 <= i < out.len() && (#[trigger] out[i]).cmd is Execute;
        assert(out[i].cmd is Execute);
    }
}

/// A `y` in the confirm of an action on a slot with a worker sends exactly
/// that action, with its row key, to that slot.
pub proof fn law_confirm_y_sends_the_action(
    a: AppView,
    slot: usize,
    action: ActionView,
    row_key: Seq<char>,
    context: Seq<char>,
    k: Key,
    now: u64,
)
    requires
        app_wf(a),
        a.overlay == (OverlayView::Confirm { slot, action, row_key, context }),
        a.slots[slot as int].wired,
        k.code == KeyCode::Char('y'),
    ensures
        key_step(a, k, now).1 == seq![OutgoingView { slot, cmd: CmdView::Execute { action_id: action.id, row_key } }],
        key_step(a, k, now).0.overlay == OverlayView::Nothing,
{
}

/// Next screen then previous screen comes back to where it started, and
/// both wrap around the ends.
pub proof fn law_screen_steps_undo(a: AppView, now: u64)
    requires
        app_wf(a),
        a.overlay == OverlayView::Nothing,
    ensures
        ({
            let right = Key { code: KeyCode::Right, ctrl: false };
            let left = Key { code: KeyCode::Left, ctrl: false };
            let b = key_step(a, right, now).0;
            &&& b.screen_idx == (if a.screen_idx + 1 == a.screens.len() { 0 } else { a.screen_idx + 1 })
            &&& key_step(b, left, now).0.screen_idx == a.screen_idx
        }),
{
    let right = Key { code: KeyCode::Right, ctrl: false };
    let b = key_step(a, right, now).0;
    lemma_key_step_wf(a, right, now);
    assert(b.overlay == OverlayView::Nothing);
    lemma_wrap_next(a.screen_idx as int, a.screens.len() as int);
}

proof fn lemma_wrap_next(x: int, n: int)
    requires
        0 <= x < n,
    ensures
        (x + 1) % n == (if x + 1 == n { 0 } else { x + 1 }),
{
    if x + 1 == n {
        vstd::arithmetic::div_mod::lemma_mod_self_0(n);
    } else {
        vstd::arithmetic::div_mod::lemma_small_mod((x + 1) as nat, n as nat);
    }
}

/// Tab and Shift-Tab undo each other: Tab moves the focus to the next panel
/// on the screen (wrapping to the first) and Shift-Tab brings it back.
pub proof fn law_focus_steps_undo(a: AppView, now: u64)
    requires
        app_wf(a),
        a.overlay == OverlayView::Nothing,
        a.focus[a.screen_idx as int] < one_or(slots_on(a.slots, a.screen_idx).len()),
    ensures
        ({
            let tab = Key { code: KeyCode::Tab, ctrl: false };
            let back = Key { code: KeyCode::BackTab, ctrl: false };
            let n = one_or(slots_on(a.slots, a.screen_idx).len());
            let f = a.focus[a.screen_idx as int];
            let b = key_step(a, tab, now).0;
            &&& b.focus[a.screen_idx as int] == (if f + 1 == n { 0 } else { f + 1 })
            &&& key_step(b, back, now).0.focus[a.screen_idx as int] == f
        }),
{
    let tab = Key { code: KeyCode::Tab, ctrl: false };
    let b = key_step(a, tab, now).0;
    let n = one_or(slots_on(a.slots, a.screen_idx).len());
    lemma_key_step_wf(a, tab, now);
    lemma_wrap_next(a.focus[a.screen_idx as int] as int, n as int);
    lemma_slots_on_bounded(a.slots, a.screen_idx, a.slots.len() as int);
    assert(b.overlay == OverlayView::Nothing);
    assert(AppView { overlay: OverlayView::Nothing, ..b } == b);
    assert(b.slots == a.slots && b.screen_idx == a.screen_idx);
}

/// Moving the selection down then up in the focused slot restores it, and
/// the selection wraps within the slot's rows.
pub proof fn law_row_steps_undo(a: AppView, now: u64)
    requires
        app_wf(a),
        a.overlay == OverlayView::Nothing,
        focused_of(a) matches Some(i) && a.slots[i as int].selected < rows_in(a.slots[i as int])
            && rows_in(a.slots[i as int]) <= usize::MAX,
    ensures
        ({
            let down = Key { code: KeyCode::Down, ctrl: false };
            let up = Key { code: KeyCode::Up, ctrl: false };
            let i = focused_of(a)->0;
            let b = key_step(a, down, now).0;
            let n = rows_in(a.slots[i as int]);
            &&& b.slots[i as int].selected == (if a.slots[i as int].selected + 1 == n { 0 } else { a.slots[i as int].selected + 1 })
            &&& key_step(b, up, now).0.slots[i as int].selected == a.slots[i as int].selected
        }),
{
    lemma_focused_exists(a);
    let down = Key { code: KeyCode::Down, ctrl: false };
    let i = focused_of(a)->0;
    let b = key_step(a, down, now).0;
    lemma_key_step_wf(a, down, now);
    assert(b.overlay == OverlayView::Nothing);
    assert(AppView { overlay: OverlayView::Nothing, ..b } == b);
    assert(b.slots.len() == a.slots.len());
    assert(b.screen_idx == a.screen_idx && b.focus == a.focus);
    assert forall|j: int| 0 <= j < b.slots.len() implies #[trigger] b.slots[j].screen == a.slots[j].screen by {}
    assert(slots_on(b.slots, b.screen_idx) == slots_on(a.slots, a.screen_idx)) by {
        lemma_slots_on_same(a.slots, b.slots, a.screen_idx, a.slots.len() as int);
    }
    assert(focused_of(b) == focused_of(a));
    lemma_wrap_next(a.slots[i as int].selected as int, rows_in(a.slots[i as int]) as int);
    assert(rows_in(b.slots[i as int]) == rows_in(a.slots[i as int]));
    let n = rows_in(a.slots[i as int]);
    assert(b.slots[i as int].selected == (if a.slots[i as int].selected + 1 == n { 0 } else { a.slots[i as int].selected + 1 }));
    let up = Key { code: KeyCode::Up, ctrl: false };
    let c = key_step(b, up, now).0;
    assert(c == normal_step(b, up, now).0);
    assert(c.slots[i as int].selected == a.slots[i as int].selected);
}

proof fn lemma_slots_on_same(s1: Seq<SlotView>, s2: Seq<SlotView>, screen: usize, n: int)
    requires
        0 <= n <= s1.len(),
        s1.len() == s2.len(),
        forall|j: int| 0 <= j < s1.len() ==> #[trigger] s1[j].screen == s2[j].screen,
    ensures
        slots_on_prefix(s1, screen, n) == slots_on_prefix(s2, screen, n),
    decreases n,
{
    if n > 0 {
        lemma_slots_on_same(s1, s2, screen, n - 1);
        assert(s1[n - 1].screen == s2[n - 1].screen);
    }
}

/// A failed poll keeps the last good panel on screen and records the error;
/// a good one replaces the panel, clears the error and keeps the selection
/// inside the new rows.
pub proof fn law_poll_results(a: AppView, id: usize, p: PanelView, e: Seq<char>, now: u64)
    requires
        app_wf(a),
        id < a.slots.len(),
    ensures
        event_step(a, id, Err(e), now).slots[id as int].panel == a.slots[id as int].panel,
        event_step(a, id, Err(e), now).slots[id as int].error == Some(e),
        event_step(a, id, Ok(p), now).slots[id as int].panel == Some(p),
        event_step(a, id, Ok(p), now).slots[id as int].error is None,
        p.rows.len() > 0 ==> event_step(a, id, Ok(p), now).slots[id as int].selected < p.rows.len(),
        p.rows.len() == 0 ==> event_step(a, id, Ok(p), now).slots[id as int].selected == 0,
{
}


/// With no overlay open, digit `d` from 1 to 9 jumps to screen `d`
/// (index `d - 1`) whenever there are at least `d` screens, and sends
/// nothing; with fewer screens the key is ignored.
pub proof fn law_digit_jumps_to_screen(a: AppView, c: char, now: u64)
    requires
        app_wf(a),
        a.overlay == OverlayView::Nothing,
        '1' <= c <= '9',
    ensures
        ({
            let (b, out) = key_step(a, Key { code: KeyCode::Char(c), ctrl: false }, now);
            let d = (c as int) - ('1' as int) + 1;
            &&& d <= a.screens.len() ==> b.screen_idx == d - 1
            &&& d > a.screens.len() ==> b.screen_idx == a.screen_idx
            &&& out.len() == 0
        }),
{
}
} // verus!
