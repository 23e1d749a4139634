//! Shared helpers for sources: humanized durations, display-width-aware
//! truncation, text bars, and scrubbing secrets out of messages.

use vstd::prelude::*;

use crate::text::{chars_of, decimal, has_prefix, has_sub, matches_at, owned, push_char, push_decimal, starts_with};

verus! {

// ---------------------------------------------------------------------------
// Durations.

/// qBittorrent's "forever" sentinel: a hundred days, in seconds.
pub const ETA_FOREVER: i64 = 8_640_000;

/// Two-digit, zero-padded rendering of a number below 100 (`{n:02}`).
pub open spec fn pad2(n: nat) -> Seq<char> {
    if n < 10 { seq!['0'] + decimal(n) } else { decimal(n) }
}

/// "1h 12m" / "2m 05s" / "45s" from seconds; "∞" for no estimate (zero,
/// negative, or the forever sentinel and beyond).
pub open spec fn eta_text(secs: int) -> Seq<char> {
    if secs <= 0 || secs >= ETA_FOREVER {
        "∞"@
    } else {
        let h = secs / 3600;
        let m = (secs % 3600) / 60;
        let s = secs % 60;
        if h > 0 {
            decimal(h as nat) + "h "@ + pad2(m as nat) + "m"@
        } else if m > 0 {
            decimal(m as nat) + "m "@ + pad2(s as nat) + "s"@
        } else {
            decimal(s as nat) + "s"@
        }
    }
}

/// Appends `n` in at least two digits, zero-padded (`{:02}`).
pub fn push_pad2(out: &mut String, n: u64)
    ensures
        final(out)@ == old(out)@ + pad2(n as nat),
{
    if n < 10 {
        push_char(out, '0');
        push_decimal(out, n);
        assert(final(out)@ =~= old(out)@ + (seq!['0'] + decimal(n as nat)));
    } else {
        push_decimal(out, n);
    }
}

/// "1h 12m" from seconds; "∞" for qBittorrent's forever sentinel.
pub fn human_eta(secs: i64) -> (r: String)
    ensures
        r@ == eta_text(secs as int),
{
    if secs <= 0 || secs >= ETA_FOREVER {
        return owned("∞");
    }
    let h = (secs / 3600) as u64;
    let m = ((secs % 3600) / 60) as u64;
    let s = (secs % 60) as u64;
    let mut out = String::new();
    if h > 0 {
        push_decimal(&mut out, h);
        out.append("h ");
        push_pad2(&mut out, m);
        out.append("m");
    } else if m > 0 {
        push_decimal(&mut out, m);
        out.append("m ");
        push_pad2(&mut out, s);
        out.append("s");
    } else {
        push_decimal(&mut out, s);
        out.append("s");
    }
    assert(out@ =~= eta_text(secs as int));
    out
}

// ---------------------------------------------------------------------------
// Display width.

/// The displayed width of a character as the `unicode-width` crate reports
/// it (`UnicodeWidthChar::width`): `None` for control characters.
pub uninterp spec fn char_width(c: char) -> Option<usize>;

/// unicode-width's `UnicodeWidthChar::width`. Claimed of it: printable
/// ASCII is one column, the ellipsis `…` (U+2026, East Asian width
/// ambiguous, which the crate counts as narrow) is one column, C0 and C1
/// control characters have no width, and no character is wider than three
/// columns. Which column count each other character gets comes from the
/// crate's Unicode tables and is only named.
#[verifier::external_body]
fn width_of(c: char) -> (w: Option<usize>)
    ensures
        w == char_width(c),
        ('\u{20}' <= c && c < '\u{7f}') ==> w == Some(1usize),
        c == '\u{2026}' ==> w == Some(1usize),
        (c < '\u{20}' || ('\u{7f}' <= c && c < '\u{a0}')) ==> w is None,
        w matches Some(n) ==> n <= 3,
{
    unicode_width::UnicodeWidthChar::width(c)
}

/// Columns a character takes; control characters take none.
pub open spec fn col(c: char) -> usize {
    match char_width(c) {
        Some(n) => n,
        None => 0,
    }
}

/// The columns of each character of `s`.
pub open spec fn char_widths(s: Seq<char>) -> Seq<usize> {
    Seq::new(s.len(), |i: int| col(s[i]))
}

/// The total of a run of column widths.
pub open spec fn width_sum(ws: Seq<usize>) -> nat
    decreases ws.len(),
{
    if ws.len() == 0 {
        0
    } else {
        width_sum(ws.drop_last()) + ws.last() as nat
    }
}

/// How many leading items fit in `budget` columns: the prefix stops just
/// before the first item that would overflow it.
pub open spec fn fit_from(ws: Seq<usize>, budget: nat, k: nat) -> nat
    decreases ws.len() - k,
{
    if k >= ws.len() {
        ws.len()
    } else if width_sum(ws.take(k + 1 as int)) > budget {
        k
    } else {
        fit_from(ws, budget, k + 1)
    }
}

/// `s`, whose characters take `ws` columns each, when it fits in `max`
/// columns; otherwise the longest prefix that fits in `max - 1` columns
/// (zero when `max` is zero) followed by `…`.
pub open spec fn cut_text(s: Seq<char>, ws: Seq<usize>, max: nat) -> Seq<char> {
    if width_sum(ws) <= max {
        s
    } else {
        let budget: nat = if max > 0 { (max - 1) as nat } else { 0 };
        s.take(fit_from(ws, budget, 0) as int).push('…')
    }
}

/// `s` cut to `max` display columns, as `trunc` cuts it.
pub open spec fn trunc_text(s: Seq<char>, max: nat) -> Seq<char> {
    cut_text(s, char_widths(s), max)
}

fn col_count(c: char) -> (n: usize)
    ensures
        n == col(c),
        n <= 3,
{
    match width_of(c) {
        Some(n) => n,
        None => 0,
    }
}

proof fn lemma_width_take(ws: Seq<usize>, k: int)
    requires
        0 <= k < ws.len(),
    ensures
        width_sum(ws.take(k + 1)) == width_sum(ws.take(k)) + ws[k],
{
    assert(ws.take(k + 1).drop_last() =~= ws.take(k));
}

proof fn lemma_width_mono(ws: Seq<usize>, a: int, b: int)
    requires
        0 <= a <= b <= ws.len(),
    ensures
        width_sum(ws.take(a)) <= width_sum(ws.take(b)),
    decreases b - a,
{
    if a < b {
        lemma_width_mono(ws, a, b - 1);
        lemma_width_take(ws, b - 1);
    }
}

proof fn lemma_fit_exact(ws: Seq<usize>, budget: nat, k: nat, e: nat)
    requires
        k <= e <= ws.len(),
        width_sum(ws.take(e as int)) <= budget,
        e == ws.len() || width_sum(ws.take(e + 1 as int)) > budget,
    ensures
        fit_from(ws, budget, k) == e,
    decreases e - k,
{
    if k < e {
        lemma_width_mono(ws, k + 1 as int, e as int);
        lemma_fit_exact(ws, budget, k + 1, e);
    }
}

proof fn lemma_fit_from_fits(ws: Seq<usize>, budget: nat, k: nat)
    requires
        k <= ws.len(),
        width_sum(ws.take(k as int)) <= budget,
    ensures
        k <= fit_from(ws, budget, k) <= ws.len(),
        width_sum(ws.take(fit_from(ws, budget, k) as int)) <= budget,
    decreases ws.len() - k,
{
    if k < ws.len() && width_sum(ws.take(k + 1 as int)) <= budget {
        lemma_fit_from_fits(ws, budget, k + 1);
    }
}

/// Cutting never splits a character and never overflows: a text that fits
/// comes back whole; one that does not becomes a prefix of itself whose
/// characters fit in one column less, followed by `…`.
pub proof fn law_cut_keeps_a_fitting_prefix(s: Seq<char>, ws: Seq<usize>, max: nat)
    requires
        ws.len() == s.len(),
    ensures
        width_sum(ws) <= max ==> cut_text(s, ws, max) == s,
        width_sum(ws) > max ==> {
            let t = cut_text(s, ws, max);
            &&& t.last() == '…'
            &&& t.len() <= s.len()
            &&& t.drop_last() == s.take(t.len() - 1)
            &&& width_sum(ws.take(t.len() - 1)) <= (if max > 0 { (max - 1) as nat } else { 0 })
        },
{
    if width_sum(ws) > max {
        let budget: nat = if max > 0 { (max - 1) as nat } else { 0 };
        assert(ws.take(0) =~= Seq::<usize>::empty());
        lemma_fit_from_fits(ws, budget, 0);
        let k = fit_from(ws, budget, 0);
        if k == ws.len() {
            assert(ws.take(k as int) =~= ws);
        }
        let t = cut_text(s, ws, max);
        assert(t.drop_last() =~= s.take(k as int));
    }
}

/// `s` cut to `max` columns, its characters taking `widths` columns each:
/// whole when it fits, else the longest prefix that fits in `max - 1`
/// columns followed by `…`.
pub fn cut_to_width(s: &str, widths: &Vec<usize>, max: usize) -> (r: String)
    requires
        widths@.len() == s@.len(),
    ensures
        r@ == cut_text(s@, widths@, max as nat),
{
    let v = chars_of(s);
    let ghost ws = widths@;
    // Does the whole text fit?
    let mut used: usize = 0;
    let mut i: usize = 0;
    let mut fits = true;
    while i < v.len() && fits
        invariant
            i <= v.len(),
            v@ == s@,
            ws == widths@,
            ws.len() == v.len(),
            fits ==> used == width_sum(ws.take(i as int)) && used <= max,
            !fits ==> width_sum(ws) > max,
        decreases v.len() - i,
    {
        let w = widths[i];
        proof {
            lemma_width_take(ws, i as int);
        }
        if w > max - used {
            proof {
                lemma_width_mono(ws, i + 1, v.len() as int);
                assert(ws.take(v.len() as int) =~= ws);
            }
            fits = false;
        } else {
            used = used + w;
        }
        i += 1;
    }
    if fits {
        assert(ws.take(v.len() as int) =~= ws);
        return owned(s);
    }
    let budget: usize = if max > 0 { max - 1 } else { 0 };
    let mut cut = String::new();
    let mut used: usize = 0;
    let mut k: usize = 0;
    let mut full = false;
    while k < v.len() && !full
        invariant
            k <= v.len(),
            v@ == s@,
            ws == widths@,
            ws.len() == v.len(),
            used == width_sum(ws.take(k as int)),
            used <= budget,
            cut@ == v@.take(k as int),
            full ==> k < v.len() && width_sum(ws.take(k + 1)) > budget,
        decreases v.len() - k, if full { 0int } else { 1int },
    {
        let w = widths[k];
        proof {
            lemma_width_take(ws, k as int);
        }
        if w > budget - used {
            full = true;
        } else {
            used = used + w;
            push_char(&mut cut, v[k]);
            k += 1;
            assert(cut@ =~= v@.take(k as int));
        }
    }
    proof {
        lemma_fit_exact(ws, budget as nat, 0, k as nat);
    }
    push_char(&mut cut, '…');
    cut
}

/// The display width of a text: the columns of its characters, added up.
pub open spec fn text_width(s: Seq<char>) -> nat {
    width_sum(char_widths(s))
}

proof fn lemma_width_push(ws: Seq<usize>, x: usize)
    ensures
        width_sum(ws.push(x)) == width_sum(ws) + x,
{
    assert(ws.push(x).drop_last() =~= ws);
}

/// Display-width-aware truncation with an ellipsis (CJK and emoji count 2).
/// Given at least one column, the result always fits.
pub fn trunc(s: &str, max: usize) -> (r: String)
    ensures
        r@ == trunc_text(s@, max as nat),
        max >= 1 ==> text_width(r@) <= max,
{
    // The ellipsis's own width, which the fit below rests on.
    let _ellipsis = width_of('…');
    assert(col('…') == 1);
    let v = chars_of(s);
    let mut widths: Vec<usize> = Vec::new();
    let mut i: usize = 0;
    while i < v.len()
        invariant
            i <= v.len(),
            v@ == s@,
            widths@ == char_widths(s@).take(i as int),
        decreases v.len() - i,
    {
        widths.push(col_count(v[i]));
        i += 1;
        assert(widths@ =~= char_widths(s@).take(i as int));
    }
    assert(widths@ =~= char_widths(s@));
    let r = cut_to_width(s, &widths, max);
    proof {
        let ws = char_widths(s@);
        law_cut_keeps_a_fitting_prefix(s@, ws, max as nat);
        if width_sum(ws) > max {
            let k = r@.len() - 1;
            assert(r@ =~= s@.take(k).push('…'));
            assert(char_widths(r@) =~= ws.take(k).push(col('…')));
            lemma_width_push(ws.take(k), col('…'));
        }
    }
    r
}

// ---------------------------------------------------------------------------
// Text bars.

pub open spec fn repeat_char(c: char, n: nat) -> Seq<char> {
    Seq::new(n, |i: int| c)
}

/// A text bar `width` cells wide with `filled` cells (at most `width`) solid.
pub open spec fn bar_text(filled: nat, width: nat) -> Seq<char> {
    let f = if filled < width { filled } else { width };
    repeat_char('█', f) + repeat_char('░', (width - f) as nat)
}

/// A little text bar: `███░░░░░░░`, from how many cells are filled.
pub fn bar_cells(filled: usize, width: usize) -> (r: String)
    ensures
        r@ == bar_text(filled as nat, width as nat),
        r@.len() == width,
{
    let f = if filled < width { filled } else { width };
    let mut out = String::new();
    let mut i: usize = 0;
    while i < width
        invariant
            f <= width,
            i <= width,
            out@ == (if i <= f { repeat_char('█', i as nat) } else {
                repeat_char('█', f as nat) + repeat_char('░', (i - f) as nat)
            }),
        decreases width - i,
    {
        if i < f {
            push_char(&mut out, '█');
        } else {
            push_char(&mut out, '░');
        }
        i += 1;
        assert(out@ =~= (if i <= f { repeat_char('█', i as nat) } else {
            repeat_char('█', f as nat) + repeat_char('░', (i - f) as nat)
        }));
    }
    assert(out@ =~= bar_text(filled as nat, width as nat));
    out
}

// ---------------------------------------------------------------------------
// Secrets.

/// Every non-overlapping occurrence of `pat` in `s`, scanning left to right,
/// replaced by `rep` (std `str::replace`; `pat` is not empty).
pub open spec fn replace_all(s: Seq<char>, pat: Seq<char>, rep: Seq<char>) -> Seq<char>
    decreases s.len(),
{
    if pat.len() == 0 || s.len() < pat.len() {
        s
    } else if s.take(pat.len() as int) == pat {
        rep + replace_all(s.skip(pat.len() as int), pat, rep)
    } else {
        seq![s[0]] + replace_all(s.skip(1), pat, rep)
    }
}

/// What stands in for a secret in any message that reaches an output path.
pub open spec fn mask() -> Seq<char> {
    seq!['•', '•', '•']
}

/// `msg` with every occurrence of `secret` replaced by `•••`; unchanged when
/// the secret is empty.
pub open spec fn redacted(msg: Seq<char>, secret: Seq<char>) -> Seq<char> {
    if secret.len() == 0 { msg } else { replace_all(msg, secret, mask()) }
}

proof fn lemma_replace_step(s: Seq<char>, pat: Seq<char>, rep: Seq<char>, i: int)
    requires
        pat.len() > 0,
        0 <= i <= s.len(),
    ensures
        i + pat.len() <= s.len() && s.subrange(i, i + pat.len()) == pat ==>
            replace_all(s.skip(i), pat, rep) == rep + replace_all(s.skip(i + pat.len()), pat, rep),
        i < s.len() && !(i + pat.len() <= s.len() && s.subrange(i, i + pat.len()) == pat) ==>
            replace_all(s.skip(i), pat, rep) == seq![s[i]] + replace_all(s.skip(i + 1), pat, rep),
        i + pat.len() > s.len() ==> replace_all(s.skip(i), pat, rep) == s.skip(i),
{
    let t = s.skip(i);
    if i + pat.len() <= s.len() {
        assert(t.take(pat.len() as int) =~= s.subrange(i, i + pat.len()));
        assert(t.skip(pat.len() as int) =~= s.skip(i + pat.len()));
    }
    if i < s.len() {
        assert(t.skip(1) =~= s.skip(i + 1));
        assert(t[0] == s[i]);
    }
}

/// Strip a secret from a message before it reaches any output path.
pub fn redact(msg: &str, secret: &str) -> (r: String)
    ensures
        r@ == redacted(msg@, secret@),
{
    let sv = chars_of(msg);
    let pv = chars_of(secret);
    if pv.len() == 0 {
        return owned(msg);
    }
    let mut out = String::new();
    let mut i: usize = 0;
    assert(sv@.skip(0) =~= sv@);
    while i < sv.len()
        invariant
            i <= sv.len(),
            sv@ == msg@,
            pv@ == secret@,
            pv.len() > 0,
            out@ + replace_all(sv@.skip(i as int), pv@, mask()) == replace_all(sv@, pv@, mask()),
        decreases sv.len() - i,
    {
        proof {
            lemma_replace_step(sv@, pv@, mask(), i as int);
        }
        if pv.len() > sv.len() - i {
            // Too short for another match: the rest passes through.
            let mut k = i;
            assert(sv@.skip(i as int) =~= sv@.subrange(i as int, sv.len() as int));
            while k < sv.len()
                invariant
                    i <= k <= sv.len(),
                    out@ + sv@.subrange(k as int, sv.len() as int) == replace_all(sv@, pv@, mask()),
                decreases sv.len() - k,
            {
                let ghost before = out@;
                push_char(&mut out, sv[k]);
                assert(before + sv@.subrange(k as int, sv.len() as int)
                    =~= out@ + sv@.subrange(k + 1, sv.len() as int));
                k += 1;
            }
            assert(out@ + sv@.subrange(k as int, sv.len() as int) =~= out@);
            return out;
        } else if matches_at(&sv, &pv, i) {
            let ghost before = out@;
            push_char(&mut out, '•');
            push_char(&mut out, '•');
            push_char(&mut out, '•');
            assert(out@ =~= before + mask());
            i = i + pv.len();
        } else {
            let ghost before = out@;
            push_char(&mut out, sv[i]);
            assert(out@ =~= before + seq![sv@[i as int]]);
            i += 1;
        }
    }
    assert(sv@.skip(i as int) =~= Seq::<char>::empty());
    out
}

} // verus!

verus! {

proof fn lemma_unmasked_prefix(t: Seq<char>, p: Seq<char>, m: int)
    requires
        p.len() > 0,
        0 <= m <= replace_all(t, p, mask()).len(),
        forall|k: int| 0 <= k < m ==> #[trigger] replace_all(t, p, mask())[k] != '•',
    ensures
        m <= t.len(),
        forall|k: int| 0 <= k < m ==> #[trigger] replace_all(t, p, mask())[k] == t[k],
    decreases t.len(),
{
    let r = replace_all(t, p, mask());
    if t.len() < p.len() {
    } else if t.take(p.len() as int) == p {
        if m > 0 {
            assert(r[0] == mask()[0]);
        }
    } else if m > 0 {
        let t1 = t.skip(1);
        let r1 = replace_all(t1, p, mask());
        assert(r == seq![t[0]] + r1);
        assert forall|k: int| 0 <= k < m - 1 implies #[trigger] r1[k] != '•' by {
            assert(r[k + 1] == r1[k]);
        }
        lemma_unmasked_prefix(t1, p, m - 1);
        assert forall|k: int| 0 <= k < m implies #[trigger] r[k] == t[k] by {
            if k > 0 {
                assert(r[k] == r1[k - 1]);
                assert(t1[k - 1] == t[k]);
            }
        }
    }
}

/// A secret with no `•` in it never survives redaction: the redacted text
/// holds no occurrence of it.
pub proof fn law_redaction_removes_secret(msg: Seq<char>, secret: Seq<char>)
    requires
        secret.len() > 0,
        forall|k: int| 0 <= k < secret.len() ==> #[trigger] secret[k] != '•',
    ensures
        !has_sub(redacted(msg, secret), secret),
    decreases msg.len(),
{
    let p = secret;
    let r = replace_all(msg, p, mask());
    if msg.len() < p.len() {
        assert forall|i: int| 0 <= i && i + p.len() <= r.len() implies #[trigger] r.subrange(i, i + p.len()) != p by {}
    } else if msg.take(p.len() as int) == p {
        let t = msg.skip(p.len() as int);
        law_redaction_removes_secret(t, p);
        let rt = replace_all(t, p, mask());
        assert(r == mask() + rt);
        assert forall|i: int| 0 <= i && i + p.len() <= r.len() implies #[trigger] r.subrange(i, i + p.len()) != p by {
            if i < 3 {
                assert(r.subrange(i, i + p.len())[0] == r[i]);
                assert(r[i] == '•');
            } else {
                assert(r.subrange(i, i + p.len()) =~= rt.subrange(i - 3, i - 3 + p.len()));
                assert(!has_sub(rt, p));
            }
        }
    } else {
        let t = msg.skip(1);
        law_redaction_removes_secret(t, p);
        let rt = replace_all(t, p, mask());
        assert(r == seq![msg[0]] + rt);
        assert forall|i: int| 0 <= i && i + p.len() <= r.len() implies #[trigger] r.subrange(i, i + p.len()) != p by {
            if i == 0 {
                if r.subrange(0, p.len() as int) == p {
                    assert forall|k: int| 0 <= k < p.len() - 1 implies #[trigger] rt[k] != '•' by {
                        assert(rt[k] == r[k + 1]);
                        assert(r[k + 1] == p[k + 1]);
                    }
                    lemma_unmasked_prefix(t, p, p.len() - 1);
                    assert forall|k: int| 0 <= k < p.len() implies #[trigger] msg.take(p.len() as int)[k] == p[k] by {
                        if k == 0 {
                            assert(r[0] == msg[0]);
                        } else {
                            assert(rt[k - 1] == t[k - 1]);
                            assert(r[k] == rt[k - 1]);
                        }
                    }
                    assert(msg.take(p.len() as int) =~= p);
                }
            } else {
                assert(r.subrange(i, i + p.len()) =~= rt.subrange(i - 1, i - 1 + p.len()));
                assert(!has_sub(rt, p));
            }
        }
    }
}

} // verus!

verus! {

/// Whether `mount` lies under one of the `skips` prefixes.
pub open spec fn hidden_by(mount: Seq<char>, skips: Seq<&str>) -> bool {
    exists|i: int| 0 <= i < skips.len() && starts_with(mount, (#[trigger] skips[i])@)
}

/// Whether a mount point is one of the system ones a disk list leaves out.
pub fn mount_hidden(mount: &str, skips: &[&'static str]) -> (r: bool)
    ensures
        r == hidden_by(mount@, skips@),
{
    let mut i: usize = 0;
    while i < skips.len()
        invariant
            i <= skips@.len(),
            forall|j: int| 0 <= j < i ==> !starts_with(mount@, (#[trigger] skips@[j])@),
        decreases skips@.len() - i,
    {
        if has_prefix(mount, skips[i]) {
            return true;
        }
        i += 1;
    }
    false
}

} // verus!
