//! The projector-booth palette and the screen's proportions: which hue a
//! tone or a source kind gets, how panels split into columns, where a modal
//! sits, how wide a gauge's bar is. The drawing itself happens outside.

use vstd::prelude::*;

use crate::app::{Slot, SlotView};
use crate::panel::Tone;
use crate::text::{decimal, owned, push_decimal, same};
use crate::util::{trunc, trunc_text};

verus! {

/// The booth's hues. `Reset` is the terminal's own foreground.
#[derive(Clone, Copy, Debug, PartialEq, Eq, Structural)]
pub enum Hue {
    /// Marquee amber: focus, titles, accents.
    Accent,
    /// Curtain crimson: danger, confirms, Jax's box.
    Accent2,
    /// Projector cyan: informational values.
    Info,
    /// Screen-glow green: healthy, downloading, up.
    Good,
    /// House-lights gold: warnings, paused states.
    Warn,
    /// Trouble red.
    Bad,
    /// Dust: chrome, muted text.
    Muted,
    /// A dimmed lamp, behind the selection.
    SelectBg,
    Reset,
}

/// The red, green and blue of a hue, or `None` for the terminal's own.
pub open spec fn rgb_of(h: Hue) -> Option<(u8, u8, u8)> {
    match h {
        Hue::Accent => Some((0xff, 0xb4, 0x54)),
        Hue::Accent2 => Some((0xe2, 0x5d, 0x75)),
        Hue::Info => Some((0x6e, 0xcd, 0xdc)),
        Hue::Good => Some((0x98, 0xd2, 0x79)),
        Hue::Warn => Some((0xf0, 0xc8, 0x64)),
        Hue::Bad => Some((0xeb, 0x64, 0x64)),
        Hue::Muted => Some((0x78, 0x76, 0x82)),
        Hue::SelectBg => Some((0x3a, 0x30, 0x22)),
        Hue::Reset => None,
    }
}

pub fn rgb(h: Hue) -> (r: Option<(u8, u8, u8)>)
    ensures
        r == rgb_of(h),
{
    match h {
        Hue::Accent => Some((0xff, 0xb4, 0x54)),
        Hue::Accent2 => Some((0xe2, 0x5d, 0x75)),
        Hue::Info => Some((0x6e, 0xcd, 0xdc)),
        Hue::Good => Some((0x98, 0xd2, 0x79)),
        Hue::Warn => Some((0xf0, 0xc8, 0x64)),
        Hue::Bad => Some((0xeb, 0x64, 0x64)),
        Hue::Muted => Some((0x78, 0x76, 0x82)),
        Hue::SelectBg => Some((0x3a, 0x30, 0x22)),
        Hue::Reset => None,
    }
}

/// What a semantic tone looks like.
pub open spec fn tone_hue_of(t: Tone) -> Hue {
    match t {
        Tone::Default => Hue::Reset,
        Tone::Accent => Hue::Accent,
        Tone::Accent2 => Hue::Accent2,
        Tone::Info => Hue::Info,
        Tone::Good => Hue::Good,
        Tone::Warn => Hue::Warn,
        Tone::Bad => Hue::Bad,
        Tone::Muted => Hue::Muted,
    }
}

pub fn tone_hue(t: Tone) -> (h: Hue)
    ensures
        h == tone_hue_of(t),
{
    match t {
        Tone::Default => Hue::Reset,
        Tone::Accent => Hue::Accent,
        Tone::Accent2 => Hue::Accent2,
        Tone::Info => Hue::Info,
        Tone::Good => Hue::Good,
        Tone::Warn => Hue::Warn,
        Tone::Bad => Hue::Bad,
        Tone::Muted => Hue::Muted,
    }
}

/// The marker colour of a source kind in its panel's title.
pub open spec fn kind_hue_of(kind: Seq<char>) -> Hue {
    if kind == "tautulli"@ || kind == "plex"@ {
        Hue::Accent2
    } else if kind == "sonarr"@ || kind == "radarr"@ || kind == "lidarr"@ || kind == "prowlarr"@ {
        Hue::Info
    } else if kind == "qbittorrent"@ || kind == "nzbget"@ || kind == "sabnzbd"@ {
        Hue::Good
    } else if kind == "prometheus"@ || kind == "uptime-kuma"@ || kind == "speedtest"@ {
        Hue::Info
    } else if kind == "overseerr"@ {
        Hue::Warn
    } else if kind == "jax"@ {
        Hue::Accent2
    } else {
        Hue::Accent
    }
}

pub fn kind_hue(kind: &str) -> (h: Hue)
    ensures
        h == kind_hue_of(kind@),
{
    if same(kind, "tautulli") || same(kind, "plex") {
        Hue::Accent2
    } else if same(kind, "sonarr") || same(kind, "radarr") || same(kind, "lidarr") || same(kind, "prowlarr") {
        Hue::Info
    } else if same(kind, "qbittorrent") || same(kind, "nzbget") || same(kind, "sabnzbd") {
        Hue::Good
    } else if same(kind, "prometheus") || same(kind, "uptime-kuma") || same(kind, "speedtest") {
        Hue::Info
    } else if same(kind, "overseerr") {
        Hue::Warn
    } else if same(kind, "jax") {
        Hue::Accent2
    } else {
        Hue::Accent
    }
}

/// The loading spinner's frames.
pub open spec fn spinner_frames() -> Seq<char> {
    seq!['⠋', '⠙', '⠸', '⠴', '⠦', '⠇']
}

/// The spinner frame for a tick: it turns every second tick.
pub fn spinner_frame(tick: u64) -> (c: char)
    ensures
        c == spinner_frames()[((tick / 2) % 6) as int],
{
    let k = (tick / 2) % 6;
    if k == 0 { '⠋' } else if k == 1 { '⠙' } else if k == 2 { '⠸' } else if k == 3 { '⠴' } else if k == 4 {
        '⠦'
    } else {
        '⠇'
    }
}

/// How a screen's panels split into two balanced columns: the left takes
/// the extra one; a lone panel fills the screen.
pub fn column_split(n: usize) -> (r: (usize, usize))
    ensures
        n <= 1 ==> r == (n, 0usize),
        n > 1 ==> r.0 == (n + 1) / 2 && r.1 == n - r.0,
        r.0 + r.1 == n,
        r.1 <= r.0 <= r.1 + 1 || n <= 1,
{
    if n <= 1 {
        (n, 0)
    } else {
        let left = n / 2 + n % 2;
        (left, n - left)
    }
}

/// A `width` by `height` box centred in the rectangle at `(x, y)` of size
/// `rw` by `rh`, kept a cell inside its edges: `(x, y, width, height)`.
pub open spec fn centred_of(width: u16, height: u16, x: u16, y: u16, rw: u16, rh: u16) -> (int, int, int, int) {
    let w = if width < rw - 2 { width as int } else if rw >= 2 { rw - 2 } else { 0 };
    let h = if height < rh - 2 { height as int } else if rh >= 2 { rh - 2 } else { 0 };
    (x + (rw - w) / 2, y + (rh - h) / 2, w, h)
}

pub fn centred(width: u16, height: u16, x: u16, y: u16, rw: u16, rh: u16) -> (r: (u16, u16, u16, u16))
    requires
        x + rw <= u16::MAX,
        y + rh <= u16::MAX,
    ensures
        (r.0 as int, r.1 as int, r.2 as int, r.3 as int) == centred_of(width, height, x, y, rw, rh),
{
    let aw = if rw >= 2 { rw - 2 } else { 0 };
    let ah = if rh >= 2 { rh - 2 } else { 0 };
    let w = if width < aw { width } else { aw };
    let h = if height < ah { height } else { ah };
    (x + (rw - w) / 2, y + (rh - h) / 2, w, h)
}

/// The cells a gauge's bar gets: what is left of the row after an
/// eleven-column label, the note and four cells of spacing, kept between
/// six and forty.
pub open spec fn gauge_bar_width_of(row_width: int, note_len: int) -> int {
    let left = row_width - (11 + note_len + 4);
    if left < 6 { 6 } else if left > 40 { 40 } else { left }
}

pub fn gauge_bar_width(row_width: usize, note_len: usize) -> (w: usize)
    ensures
        w == gauge_bar_width_of(row_width as int, note_len as int),
{
    let used = if note_len < usize::MAX - 15 { note_len + 15 } else { usize::MAX };
    let left = if row_width > used { row_width - used } else { 0 };
    if left < 6 { 6 } else if left > 40 { 40 } else { left }
}

/// How tall a modal listing `n` items is: two cells of frame (four with
/// the palette's input line), up to a cap.
pub fn modal_height(n: usize, chrome: u16, cap: u16) -> (h: u16)
    ensures
        h == (if n + chrome < cap { n + chrome } else { cap as int }),
{
    if n >= cap as usize {
        cap
    } else {
        let t = n + chrome as usize;
        if t < cap as usize { t as u16 } else { cap }
    }
}

/// What fills a slot's frame: the "threading the projector" placeholder
/// until the first panel arrives, Jax's booth for his own source, or the
/// panel itself.
#[derive(Clone, Copy, Debug, PartialEq, Eq, Structural)]
pub enum SlotBody {
    Threading,
    Booth,
    Panel,
}

/// The note on a frame's bottom edge: the slot's error on the left, or how
/// long ago it last reported, on the right.
pub enum FrameNote {
    Error(String),
    Age(String),
}

pub enum FrameNoteView {
    Error(Seq<char>),
    Age(Seq<char>),
}

/// How a slot's frame is drawn.
pub struct SlotFrame {
    /// Red on error, amber when focused, dust otherwise.
    pub border: Hue,
    /// A focused frame has a thick border and an amber name.
    pub focused: bool,
    pub note: Option<FrameNote>,
    pub body: SlotBody,
}

pub struct SlotFrameView {
    pub border: Hue,
    pub focused: bool,
    pub note: Option<FrameNoteView>,
    pub body: SlotBody,
}

impl View for SlotFrame {
    type V = SlotFrameView;

    open spec fn view(&self) -> SlotFrameView {
        SlotFrameView {
            border: self.border,
            focused: self.focused,
            note: match self.note {
                Some(FrameNote::Error(e)) => Some(FrameNoteView::Error(e@)),
                Some(FrameNote::Age(a)) => Some(FrameNoteView::Age(a@)),
                None => None,
            },
            body: self.body,
        }
    }
}

/// The frame of a slot drawn `width` columns wide at clock `now`: an error
/// wins the border and the bottom edge (cut to fit inside the frame); a
/// slot without one shows its age in whole seconds once it has reported.
pub open spec fn slot_frame_of(s: SlotView, focused: bool, now: u64, width: u16) -> SlotFrameView {
    SlotFrameView {
        border: if s.error is Some { Hue::Bad } else if focused { Hue::Accent } else { Hue::Muted },
        focused,
        note: match s.error {
            Some(e) => Some(FrameNoteView::Error(
                " ✗ "@ + trunc_text(e, if width >= 6 { (width - 6) as nat } else { 0 }) + " "@,
            )),
            None => match s.updated {
                Some(t) => Some(FrameNoteView::Age(
                    " "@ + decimal((if now >= t { (now - t) as nat } else { 0 }) / 1000) + "s "@,
                )),
                None => None,
            },
        },
        body: if s.panel is None {
            SlotBody::Threading
        } else if s.kind == "jax"@ {
            SlotBody::Booth
        } else {
            SlotBody::Panel
        },
    }
}

pub fn slot_frame(s: &Slot, focused: bool, now: u64, width: u16) -> (f: SlotFrame)
    ensures
        f@ == slot_frame_of(s@, focused, now, width),
{
    let border = if s.error.is_some() {
        Hue::Bad
    } else if focused {
        Hue::Accent
    } else {
        Hue::Muted
    };
    let note = match &s.error {
        Some(e) => {
            let room: usize = if width >= 6 { (width - 6) as usize } else { 0 };
            let mut t = owned(" ✗ ");
            let cut = trunc(e.as_str(), room);
            t.append(cut.as_str());
            t.append(" ");
            Some(FrameNote::Error(t))
        },
        None => match s.updated {
            Some(at) => {
                let secs: u64 = if now >= at { (now - at) / 1000 } else { 0 };
                let mut t = owned(" ");
                push_decimal(&mut t, secs);
                t.append("s ");
                Some(FrameNote::Age(t))
            },
            None => None,
        },
    };
    let body = if s.panel.is_none() {
        SlotBody::Threading
    } else if same(s.kind.as_str(), "jax") {
        SlotBody::Booth
    } else {
        SlotBody::Panel
    };
    let f = SlotFrame { border, focused, note, body };
    assert(f@.note =~~= slot_frame_of(s@, focused, now, width).note);
    f
}

/// The row a panel highlights: the slot's selection, clamped to the last
/// row, and only in the focused panel and when there are rows.
pub open spec fn highlighted_of(focused: bool, selected: usize, rows: usize) -> Option<usize> {
    if focused && rows > 0 {
        Some(if selected < rows { selected } else { (rows - 1) as usize })
    } else {
        None
    }
}

pub fn highlighted_row(focused: bool, selected: usize, rows: usize) -> (r: Option<usize>)
    ensures
        r == highlighted_of(focused, selected, rows),
        r matches Some(i) ==> i < rows,
{
    if focused && rows > 0 {
        Some(if selected < rows { selected } else { rows - 1 })
    } else {
        None
    }
}

} // verus!
