//! Jax's scenes: mood picks the show, the tick runs the frames. Each scene
//! is a caption and four short lines, each line with the ink it is drawn in.

use vstd::prelude::*;

use crate::mood::Mood;
use crate::text::{owned, push_char};

verus! {

/// The inks a scene line can be drawn in.
#[derive(Clone, Copy, Debug, PartialEq, Eq, Structural)]
pub enum Ink {
    Accent,
    Accent2,
    Info,
    Bad,
    Muted,
    White,
    Blue,
}

pub struct SceneLine {
    pub text: String,
    pub ink: Ink,
}

pub struct SceneLineView {
    pub text: Seq<char>,
    pub ink: Ink,
}

impl View for SceneLine {
    type V = SceneLineView;

    open spec fn view(&self) -> SceneLineView {
        SceneLineView { text: self.text@, ink: self.ink }
    }
}

pub open spec fn scene_lines_view(v: Seq<SceneLine>) -> Seq<SceneLineView> {
    v.map_values(|l: SceneLine| l@)
}

pub open spec fn ln(text: Seq<char>, ink: Ink) -> SceneLineView {
    SceneLineView { text, ink }
}

/// The animation frame, 0 to 3: it advances every third tick.
pub open spec fn frame_of(tick: u64) -> int {
    ((tick / 3) % 4) as int
}

/// Jax blinks for six ticks out of every fifty-four.
pub open spec fn eyes_of(tick: u64) -> Seq<char> {
    if (tick / 6) % 9 == 0 { "- ‿ -"@ } else { "●‿●"@ }
}

pub open spec fn spaces(n: nat) -> Seq<char> {
    Seq::new(n, |i: int| ' ')
}

pub open spec fn pick4(f: int, a: Seq<char>, b: Seq<char>, c: Seq<char>, d: Seq<char>) -> Seq<char> {
    if f == 0 { a } else if f == 1 { b } else if f == 2 { c } else { d }
}

pub open spec fn reel_of(f: int) -> char {
    if f == 0 { '◐' } else if f == 1 { '◓' } else if f == 2 { '◑' } else { '◒' }
}

/// The quiet-lab hobbies, one every forty-five ticks, in turn.
pub open spec fn chill_of(tick: u64) -> (Seq<char>, Seq<SceneLineView>) {
    let f = frame_of(tick);
    let eyes = eyes_of(tick);
    let hobby = (tick / 45) % 5;
    if hobby == 0 {
        (
            "👋 hi!"@,
            seq![
                ln(" .---."@, Ink::Accent),
                ln(" |"@ + eyes + "|"@, Ink::White),
                ln((if f % 2 == 0 { "  o/"@ } else { "  \\o"@ }) + "|  |"@, Ink::Accent),
                ln("  '--'"@, Ink::Accent),
            ],
        )
    } else if hobby == 1 {
        (
            "😴 zzz…"@,
            seq![
                ln("      "@ + pick4(f, "z  "@, " Z "@, "  z"@, " Z "@), Ink::Muted),
                ln(" .---."@, Ink::Accent),
                ln(" |-‿-|"@, Ink::White),
                ln("  '--'"@, Ink::Accent),
            ],
        )
    } else if hobby == 2 {
        (
            "🤓 reading the manual"@,
            seq![
                ln(" .---.  __"@, Ink::Accent),
                ln(" |◕‿◕| |"@ + (if f % 2 == 0 { "▌"@ } else { " "@ }) + "|"@, Ink::White),
                ln("  '--'  ‾‾"@, Ink::Accent),
                ln(" // the space between"@, Ink::Muted),
            ],
        )
    } else if hobby == 3 {
        (
            "🎣 gone fishin'"@,
            seq![
                ln(" .---. /"@, Ink::Accent),
                ln(" |"@ + eyes + "|/"@, Ink::White),
                ln("  '--' "@, Ink::Accent),
                ln(
                    "~~~~"@ + pick4(f, "°"@, "."@, "°"@, "o"@) + "~"@ + (if f == 3 { "><>"@ } else { "   "@ })
                        + "~~"@,
                    Ink::Blue,
                ),
            ],
        )
    } else {
        (
            "🦦 otter break"@,
            seq![
                ln(" .---."@, Ink::Accent),
                ln(" |"@ + eyes + "|"@, Ink::White),
                ln("  '--'"@, Ink::Accent),
                ln(spaces(if f * 3 < 10 { (f * 3) as nat } else { 10 }) + "🦦~~"@, Ink::Blue),
            ],
        )
    }
}

/// The scene for a mood at a tick.
pub open spec fn scene_of(tick: u64, mood: Mood) -> (Seq<char>, Seq<SceneLineView>) {
    let f = frame_of(tick);
    let eyes = eyes_of(tick);
    match mood {
        Mood::Showtime => (
            "🎬 now showing"@,
            seq![
                ln(" .---.  ▄"@ + seq![reel_of(f)] + "▄"@, Ink::Accent),
                ln(" |"@ + eyes + "|══╣ ║"@, Ink::White),
                ln("  '--'  ▀▀▀"@, Ink::Accent),
                ln("   "@ + pick4(f, "░▒▓▓▒░"@, "▒▓▓▒░░"@, "▓▓▒░░▒"@, "▓▒░░▒▓"@) + "→"@, Ink::Info),
            ],
        ),
        Mood::Alarm => (
            "😰 splicing!"@,
            seq![
                ln(" .---. "@ + pick4(f, "°"@, "!"@, "°"@, "!!"@), Ink::Accent),
                ln(" |°□°|"@, Ink::White),
                ln("  '--' "@ + (if f % 2 == 0 { "✂"@ } else { "✄"@ }) + "╌╌╌"@, Ink::Accent),
                ln(" ~film~film~"@, Ink::Bad),
            ],
        ),
        Mood::Hauling => (
            "📦 hauling reels"@,
            seq![
                ln(" .---."@, Ink::Accent),
                ln(" |"@ + eyes + "|→ "@ + spaces(if f * 2 < 8 { (f * 2) as nat } else { 8 }) + "▣▣"@, Ink::White),
                ln("  '--'"@, Ink::Accent),
                ln("▔▔▔▔▔▔▔▔▔▔▔▔"@, Ink::Muted),
            ],
        ),
        Mood::Party => (
            "🎉 it worked!"@,
            seq![
                ln(pick4(f, "✦ ˚ ✧"@, "˚ ✧ ✦"@, "✧ ✦ ˚"@, "✦ ✧ ˚"@), Ink::Accent2),
                ln(" .---."@, Ink::Accent),
                ln(" |"@ + eyes + "| 🪅"@, Ink::White),
                ln(" \\'--'/"@, Ink::Accent),
            ],
        ),
        Mood::Chill => chill_of(tick),
    }
}

fn line(text: String, ink: Ink) -> (l: SceneLine)
    ensures
        l@ == ln(text@, ink),
{
    SceneLine { text, ink }
}

fn pick(f: u64, a: &'static str, b: &'static str, c: &'static str, d: &'static str) -> (r: &'static str)
    requires
        f < 4,
    ensures
        r@ == pick4(f as int, a@, b@, c@, d@),
{
    if f == 0 { a } else if f == 1 { b } else if f == 2 { c } else { d }
}

fn push_spaces(s: &mut String, n: usize)
    ensures
        final(s)@ == old(s)@ + spaces(n as nat),
{
    let mut i: usize = 0;
    while i < n
        invariant
            i <= n,
            s@ == old(s)@ + spaces(i as nat),
        decreases n - i,
    {
        push_char(s, ' ');
        i += 1;
        assert(s@ =~= old(s)@ + spaces(i as nat));
    }
}

/// `a`, then `b`, then `c`, as one string.
fn cat3(a: &str, b: &str, c: &str) -> (r: String)
    ensures
        r@ == a@ + b@ + c@,
{
    let mut r = owned(a);
    r.append(b);
    r.append(c);
    r
}

fn chill(tick: u64, f: u64, eyes: &'static str) -> (r: (&'static str, Vec<SceneLine>))
    requires
        f == frame_of(tick),
        eyes@ == eyes_of(tick),
    ensures
        r.0@ == chill_of(tick).0,
        scene_lines_view(r.1@) == chill_of(tick).1,
{
    let hobby = (tick / 45) % 5;
    let r = if hobby == 0 {
        let arm = if f % 2 == 0 { "  o/" } else { "  \\o" };
        ("👋 hi!", vec![
            line(owned(" .---."), Ink::Accent),
            line(cat3(" |", eyes, "|"), Ink::White),
            line(cat3(arm, "|  |", ""), Ink::Accent),
            line(owned("  '--'"), Ink::Accent),
        ])
    } else if hobby == 1 {
        ("😴 zzz…", vec![
            line(cat3("      ", pick(f, "z  ", " Z ", "  z", " Z "), ""), Ink::Muted),
            line(owned(" .---."), Ink::Accent),
            line(owned(" |-‿-|"), Ink::White),
            line(owned("  '--'"), Ink::Accent),
        ])
    } else if hobby == 2 {
        let cur = if f % 2 == 0 { "▌" } else { " " };
        ("🤓 reading the manual", vec![
            line(owned(" .---.  __"), Ink::Accent),
            line(cat3(" |◕‿◕| |", cur, "|"), Ink::White),
            line(owned("  '--'  ‾‾"), Ink::Accent),
            line(owned(" // the space between"), Ink::Muted),
        ])
    } else if hobby == 3 {
        let mut water = cat3("~~~~", pick(f, "°", ".", "°", "o"), "~");
        water.append(if f == 3 { "><>" } else { "   " });
        water.append("~~");
        ("🎣 gone fishin'", vec![
            line(owned(" .---. /"), Ink::Accent),
            line(cat3(" |", eyes, "|/"), Ink::White),
            line(owned("  '--' "), Ink::Accent),
            line(water, Ink::Blue),
        ])
    } else {
        let mut swim = String::new();
        let pos: usize = if f * 3 < 10 { (f * 3) as usize } else { 10 };
        push_spaces(&mut swim, pos);
        swim.append("🦦~~");
        ("🦦 otter break", vec![
            line(owned(" .---."), Ink::Accent),
            line(cat3(" |", eyes, "|"), Ink::White),
            line(owned("  '--'"), Ink::Accent),
            line(swim, Ink::Blue),
        ])
    };
    proof {
        reveal_strlit("");
        assert(scene_lines_view(r.1@) =~= chill_of(tick).1);
    }
    r
}

/// The scene for a mood at a tick: its caption and its four lines.
pub fn scene(tick: u64, mood: Mood) -> (r: (&'static str, Vec<SceneLine>))
    ensures
        r.0@ == scene_of(tick, mood).0,
        scene_lines_view(r.1@) == scene_of(tick, mood).1,
{
    let f = (tick / 3) % 4;
    let eyes = if (tick / 6) % 9 == 0 { "- ‿ -" } else { "●‿●" };
    let r = match mood {
        Mood::Showtime => {
            let reel = if f == 0 { '◐' } else if f == 1 { '◓' } else if f == 2 { '◑' } else { '◒' };
            let mut top = owned(" .---.  ▄");
            push_char(&mut top, reel);
            top.append("▄");
            ("🎬 now showing", vec![
                line(top, Ink::Accent),
                line(cat3(" |", eyes, "|══╣ ║"), Ink::White),
                line(owned("  '--'  ▀▀▀"), Ink::Accent),
                line(cat3("   ", pick(f, "░▒▓▓▒░", "▒▓▓▒░░", "▓▓▒░░▒", "▓▒░░▒▓"), "→"), Ink::Info),
            ])
        },
        Mood::Alarm => {
            let snip = if f % 2 == 0 { "✂" } else { "✄" };
            ("😰 splicing!", vec![
                line(cat3(" .---. ", pick(f, "°", "!", "°", "!!"), ""), Ink::Accent),
                line(owned(" |°□°|"), Ink::White),
                line(cat3("  '--' ", snip, "╌╌╌"), Ink::Accent),
                line(owned(" ~film~film~"), Ink::Bad),
            ])
        },
        Mood::Hauling => {
            let mut cart = cat3(" |", eyes, "|→ ");
            let pad: usize = if f * 2 < 8 { (f * 2) as usize } else { 8 };
            push_spaces(&mut cart, pad);
            cart.append("▣▣");
            ("📦 hauling reels", vec![
                line(owned(" .---."), Ink::Accent),
                line(cart, Ink::White),
                line(owned("  '--'"), Ink::Accent),
                line(owned("▔▔▔▔▔▔▔▔▔▔▔▔"), Ink::Muted),
            ])
        },
        Mood::Party => {
            ("🎉 it worked!", vec![
                line(owned(pick(f, "✦ ˚ ✧", "˚ ✧ ✦", "✧ ✦ ˚", "✦ ✧ ˚")), Ink::Accent2),
                line(owned(" .---."), Ink::Accent),
                line(cat3(" |", eyes, "| 🪅"), Ink::White),
                line(owned(" \\'--'/"), Ink::Accent),
            ])
        },
        Mood::Chill => chill(tick, f, eyes),
    };
    proof {
        reveal_strlit("");
        let v = scene_lines_view(r.1@);
        let w = scene_of(tick, mood).1;
        if mood != Mood::Chill {
            assert(v[0].text =~= w[0].text);
            assert(v[1].text =~= w[1].text);
            assert(v[2].text =~= w[2].text);
            assert(v[3].text =~= w[3].text);
            assert(v =~= w);
        }
    }
    r
}

} // verus!
