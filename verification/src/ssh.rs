//! The ssh host source's text side: the probe script's sections, the
//! container rows, and the vetting of container names before they reach a
//! remote shell.

use vstd::prelude::*;

use crate::config::{ConfigError, SourceCfg};
use crate::panel::{action, cell, ActionView, CellView, Panel, PanelView, RowItem, RowView, Tone, GaugeView};
use crate::text::{
    chars_of, contains_sub, find_char, find_in, has_prefix, has_sub, lines, lines_of, owned, slice_string,
    starts_with, texts, trim, trim_end_char, trim_end_matches, trimmed, words, words_of,
};
use crate::util::{hidden_by, mount_hidden, trunc, trunc_text};

verus! {

/// The commands run on the host, one section per `@@NAME@@` marker.
pub const PROBE: &'static str = "
echo @@LOAD@@; cat /proc/loadavg
echo @@MEM@@; free -b | awk '/^Mem:/ {print $2, $3}'
echo @@DISK@@; df -B1 --output=target,size,used,pcent -x tmpfs -x devtmpfs -x overlay -x squashfs 2>/dev/null | tail -n +2
echo @@DOCKER@@; docker ps --format '{{.Names}}\\t{{.Status}}' 2>/dev/null
echo @@UPTIME@@; uptime -p
";

/// The most containers a host panel lists: the first ones `docker ps`
/// reports.
pub const CONTAINER_CAP: usize = 14;

/// Mount prefixes no host panel wants to show.
pub const SKIP_MOUNTS: [&'static str; 6] = ["/boot", "/snap", "/run", "/dev", "/var/lib/docker", "/efi"];

pub struct SshHost {
    pub host: String,
}

impl SshHost {
    pub fn new(cfg: &SourceCfg) -> (r: Result<SshHost, ConfigError>)
        ensures
            match cfg.host {
                Some(h) => r matches Ok(s) && s.host@ == h@,
                None => r matches Err(e) && e@ == crate::config::ConfigErrorView::NeedsHost,
            },
    {
        match &cfg.host {
            Some(h) => Ok(SshHost { host: h.clone() }),
            None => Err(ConfigError::NeedsHost),
        }
    }
}

/// The lines of one section: after a line that trims to the marker, the
/// non-blank lines up to the next line starting with `@@` (a repeated
/// marker keeps collecting).
pub open spec fn collect(ls: Seq<Seq<char>>, marker: Seq<char>, inside: bool) -> Seq<Seq<char>>
    decreases ls.len(),
{
    if ls.len() == 0 {
        seq![]
    } else {
        let t = trimmed(ls[0]);
        if t == marker {
            collect(ls.skip(1), marker, true)
        } else if inside && starts_with(t, "@@"@) {
            seq![]
        } else if inside && t.len() > 0 {
            seq![ls[0]] + collect(ls.skip(1), marker, true)
        } else {
            collect(ls.skip(1), marker, inside)
        }
    }
}

pub open spec fn marker_of(name: Seq<char>) -> Seq<char> {
    "@@"@ + name + "@@"@
}

/// The lines between `@@NAME@@` and the next marker.
pub open spec fn section_of(raw: Seq<char>, name: Seq<char>) -> Seq<Seq<char>> {
    collect(lines_of(raw), marker_of(name), false)
}

/// A line a section keeps: not blank, and not the section's own marker.
pub open spec fn kept_by(marker: Seq<char>) -> spec_fn(Seq<char>) -> bool {
    |l: Seq<char>| trimmed(l).len() > 0 && trimmed(l) != marker
}

/// A line that ends a section: another `@@` marker.
pub open spec fn ends_section(l: Seq<char>, marker: Seq<char>) -> bool {
    starts_with(trimmed(l), "@@"@) && trimmed(l) != marker
}

proof fn lemma_filter_one(x: Seq<char>, p: spec_fn(Seq<char>) -> bool)
    ensures
        seq![x].filter(p) == (if p(x) { seq![x] } else { Seq::<Seq<char>>::empty() }),
{
    reveal_with_fuel(Seq::filter, 2);
    assert(seq![x].drop_last() =~= Seq::<Seq<char>>::empty());
}

proof fn lemma_collect_inside(ls: Seq<Seq<char>>, marker: Seq<char>, e: int)
    requires
        0 <= e <= ls.len(),
        forall|j: int| 0 <= j < e ==> !ends_section(#[trigger] ls[j], marker),
        e == ls.len() || ends_section(ls[e], marker),
    ensures
        collect(ls, marker, true) == ls.take(e).filter(kept_by(marker)),
    decreases ls.len(),
{
    reveal_with_fuel(Seq::filter, 1);
    if ls.len() == 0 {
        assert(ls.take(e) =~= Seq::<Seq<char>>::empty());
    } else {
        let t = trimmed(ls[0]);
        let rest = ls.skip(1);
        if e == 0 {
            assert(ls.take(0) =~= Seq::<Seq<char>>::empty());
        } else {
            assert(!ends_section(ls[0], marker));
            assert forall|j: int| 0 <= j < e - 1 implies !ends_section(#[trigger] rest[j], marker) by {
                assert(rest[j] == ls[j + 1]);
            }
            if e - 1 < rest.len() {
                assert(rest[e - 1] == ls[e]);
            }
            lemma_collect_inside(rest, marker, e - 1);
            assert(ls.take(e) =~= seq![ls[0]] + rest.take(e - 1));
            Seq::filter_distributes_over_add(seq![ls[0]], rest.take(e - 1), kept_by(marker));
            lemma_filter_one(ls[0], kept_by(marker));
            if t == marker {
                assert(seq![ls[0]].filter(kept_by(marker)) + rest.take(e - 1).filter(kept_by(marker))
                    =~= rest.take(e - 1).filter(kept_by(marker)));
            } else if t.len() > 0 {
            } else {
                assert(seq![ls[0]].filter(kept_by(marker)) + rest.take(e - 1).filter(kept_by(marker))
                    =~= rest.take(e - 1).filter(kept_by(marker)));
            }
        }
    }
}

proof fn lemma_collect_before(ls: Seq<Seq<char>>, marker: Seq<char>, f: int)
    requires
        0 <= f < ls.len(),
        trimmed(ls[f]) == marker,
        forall|i: int| 0 <= i < f ==> trimmed(#[trigger] ls[i]) != marker,
    ensures
        collect(ls, marker, false) == collect(ls.skip(f + 1), marker, true),
    decreases f,
{
    if f > 0 {
        let rest = ls.skip(1);
        assert forall|i: int| 0 <= i < f - 1 implies trimmed(#[trigger] rest[i]) != marker by {
            assert(rest[i] == ls[i + 1]);
        }
        assert(rest[f - 1] == ls[f]);
        lemma_collect_before(rest, marker, f - 1);
        assert(rest.skip(f) =~= ls.skip(f + 1));
    }
}

proof fn lemma_collect_no_marker(ls: Seq<Seq<char>>, marker: Seq<char>)
    requires
        forall|i: int| 0 <= i < ls.len() ==> trimmed(#[trigger] ls[i]) != marker,
    ensures
        collect(ls, marker, false) == Seq::<Seq<char>>::empty(),
    decreases ls.len(),
{
    if ls.len() > 0 {
        let rest = ls.skip(1);
        assert forall|i: int| 0 <= i < rest.len() implies trimmed(#[trigger] rest[i]) != marker by {
            assert(rest[i] == ls[i + 1]);
        }
        lemma_collect_no_marker(rest, marker);
    }
}

/// A section in closed form. With no `@@NAME@@` line there is none; else it
/// is the lines after the first marker line, up to (not including) the
/// first later line that starts another `@@` marker, without blank lines
/// and repeats of the marker. Kept lines are the raw lines, untrimmed.
pub proof fn law_section_closed_form(raw: Seq<char>, name: Seq<char>, f: int, e: int)
    ensures
        ({
            let ls = lines_of(raw);
            let m = marker_of(name);
            &&& (forall|i: int| 0 <= i < ls.len() ==> trimmed(#[trigger] ls[i]) != m) ==> section_of(raw, name)
                == Seq::<Seq<char>>::empty()
            &&& (0 <= f < e <= ls.len() && trimmed(ls[f]) == m
                && (forall|i: int| 0 <= i < f ==> trimmed(#[trigger] ls[i]) != m)
                && (forall|j: int| f < j < e ==> !ends_section(#[trigger] ls[j], m))
                && (e == ls.len() || ends_section(ls[e], m))) ==> section_of(raw, name)
                == ls.subrange(f + 1, e).filter(kept_by(m))
        }),
{
    let ls = lines_of(raw);
    let m = marker_of(name);
    if forall|i: int| 0 <= i < ls.len() ==> trimmed(#[trigger] ls[i]) != m {
        lemma_collect_no_marker(ls, m);
    }
    if 0 <= f < e <= ls.len() && trimmed(ls[f]) == m
        && (forall|i: int| 0 <= i < f ==> trimmed(#[trigger] ls[i]) != m)
        && (forall|j: int| f < j < e ==> !ends_section(#[trigger] ls[j], m))
        && (e == ls.len() || ends_section(ls[e], m)) {
        lemma_collect_before(ls, m, f);
        let rest = ls.skip(f + 1);
        assert forall|j: int| 0 <= j < e - f - 1 implies !ends_section(#[trigger] rest[j], m) by {
            assert(rest[j] == ls[j + f + 1]);
        }
        if e < ls.len() {
            assert(rest[e - f - 1] == ls[e]);
        }
        lemma_collect_inside(rest, m, e - f - 1);
        assert(rest.take(e - f - 1) =~= ls.subrange(f + 1, e));
    }
}

/// Collect the lines between `@@NAME@@` and the next marker.
pub fn section(raw: &str, name: &str) -> (r: Vec<String>)
    ensures
        texts(r@) == section_of(raw@, name@),
{
    let mut marker = owned("@@");
    marker.append(name);
    marker.append("@@");
    let ls = lines(raw);
    let ghost lv = texts(ls@);
    let mut out: Vec<String> = Vec::new();
    let mut inside = false;
    let mut i: usize = 0;
    assert(lv.skip(0) =~= lv);
    assert(texts(out@) + collect(lv, marker@, false) =~= collect(lv, marker@, false));
    while i < ls.len()
        invariant
            i <= ls.len(),
            lv == texts(ls@),
            lv == lines_of(raw@),
            marker@ == marker_of(name@),
            texts(out@) + collect(lv.skip(i as int), marker@, inside) == collect(lv, marker@, false),
        decreases ls.len() - i,
    {
        let ghost rest = lv.skip(i as int);
        let ghost before = texts(out@);
        assert(rest[0] == ls@[i as int]@);
        assert(rest.skip(1) =~= lv.skip(i + 1));
        let t = trim(ls[i].as_str());
        if crate::text::same(t.as_str(), marker.as_str()) {
            inside = true;
        } else if inside && has_prefix(t.as_str(), "@@") {
            assert(texts(out@) =~= texts(out@) + Seq::<Seq<char>>::empty());
            return out;
        } else if inside && !t.as_str().is_empty() {
            out.push(ls[i].clone());
            assert(texts(out@) =~= before + seq![rest[0]]);
        }
        i += 1;
    }
    assert(lv.skip(i as int) =~= Seq::<Seq<char>>::empty());
    assert(texts(out@) + Seq::<Seq<char>>::empty() =~= texts(out@));
    out
}

/// A container name is safe for the remote shell when it is made only of
/// ASCII letters and digits, `-`, `_` and `.`.
pub open spec fn name_char_ok(c: char) -> bool {
    ('a' <= c && c <= 'z') || ('A' <= c && c <= 'Z') || ('0' <= c && c <= '9') || c == '-' || c == '_'
        || c == '.'
}

pub open spec fn name_ok(s: Seq<char>) -> bool {
    forall|i: int| 0 <= i < s.len() ==> name_char_ok(#[trigger] s[i])
}

/// Container names come from `docker ps`; still, never let one become shell.
pub fn container_name_ok(name: &str) -> (r: bool)
    ensures
        r == name_ok(name@),
{
    let v = chars_of(name);
    let mut i: usize = 0;
    while i < v.len()
        invariant
            i <= v.len(),
            v@ == name@,
            forall|j: int| 0 <= j < i ==> name_char_ok(#[trigger] v@[j]),
        decreases v.len() - i,
    {
        let c = v[i];
        let ok = ('a' <= c && c <= 'z') || ('A' <= c && c <= 'Z') || ('0' <= c && c <= '9') || c == '-'
            || c == '_' || c == '.';
        if !ok {
            assert(!name_char_ok(v@[i as int]));
            return false;
        }
        i += 1;
    }
    true
}

/// What running an action on the host means: the remote command, and the
/// message once it succeeded.
pub open spec fn plan_of(host: Seq<char>, action_id: Seq<char>, row_key: Seq<char>) -> Result<(Seq<char>, Seq<char>), Seq<char>> {
    if row_key.len() == 0 {
        Err("no container selected"@)
    } else if !name_ok(row_key) {
        Err("suspicious container name"@)
    } else if action_id == "restart"@ || action_id == "stop"@ {
        Ok((
            "docker "@ + action_id + " "@ + row_key,
            action_id + "ed "@ + row_key + " on "@ + host,
        ))
    } else {
        Err("unknown action "@ + action_id)
    }
}

impl SshHost {
    /// The remote command for an action on a container, with the message to
    /// report once it ran; or why it must not run.
    pub fn plan(&self, action_id: &str, row_key: &str) -> (r: Result<(String, String), String>)
        ensures
            match plan_of(self.host@, action_id@, row_key@) {
                Ok((cmd, msg)) => r matches Ok((c, m)) && c@ == cmd && m@ == msg,
                Err(e) => r matches Err(m) && m@ == e,
            },
            r is Ok ==> row_key@.len() > 0 && name_ok(row_key@),
    {
        if row_key.is_empty() {
            return Err(owned("no container selected"));
        }
        if !container_name_ok(row_key) {
            return Err(owned("suspicious container name"));
        }
        if crate::text::same(action_id, "restart") || crate::text::same(action_id, "stop") {
            let mut cmd = owned("docker ");
            cmd.append(action_id);
            cmd.append(" ");
            cmd.append(row_key);
            let mut msg = owned(action_id);
            msg.append("ed ");
            msg.append(row_key);
            msg.append(" on ");
            msg.append(self.host.as_str());
            Ok((cmd, msg))
        } else {
            let mut m = owned("unknown action ");
            m.append(action_id);
            Err(m)
        }
    }
}

/// Words joined by single spaces.
pub open spec fn join_words(ws: Seq<Seq<char>>) -> Seq<char>
    decreases ws.len(),
{
    if ws.len() == 0 {
        seq![]
    } else if ws.len() == 1 {
        ws[0]
    } else {
        join_words(ws.drop_last()) + " "@ + ws.last()
    }
}

/// The three load averages, from the first line of the LOAD section.
pub open spec fn load_of(raw: Seq<char>) -> Seq<char> {
    let s = section_of(raw, "LOAD"@);
    if s.len() > 0 {
        let w = words_of(s[0]);
        join_words(if w.len() < 3 { w } else { w.take(3) })
    } else {
        seq![]
    }
}

/// The container name: everything before the first tab.
pub open spec fn name_part(l: Seq<char>) -> Seq<char> {
    let i = find_char(l, '\t');
    if i < l.len() { l.take(i) } else { l }
}

/// The container status: everything after the first tab (empty without one).
pub open spec fn status_part(l: Seq<char>) -> Seq<char> {
    let i = find_char(l, '\t');
    if i < l.len() { l.skip(i + 1) } else { seq![] }
}

pub open spec fn status_tone(status: Seq<char>) -> Tone {
    if starts_with(status, "Up"@) {
        Tone::Good
    } else if has_sub(status, "Restarting"@) || has_sub(status, "Paused"@) {
        Tone::Warn
    } else {
        Tone::Bad
    }
}

pub open spec fn container_actions() -> Seq<ActionView> {
    seq![
        ActionView { id: "restart"@, label: "restart container"@, danger: true },
        ActionView { id: "stop"@, label: "stop container"@, danger: true },
    ]
}

/// One `docker ps` line as a row: state dot, name, status; restart and
/// stop, both confirmed first.
pub open spec fn container_row(l: Seq<char>) -> RowView {
    let name = name_part(l);
    let status = status_part(l);
    let tone = status_tone(status);
    RowView {
        key: name,
        cells: seq![
            CellView { text: if starts_with(status, "Up"@) { "●"@ } else { "○"@ }, tone },
            CellView { text: trunc_text(name, 30), tone: Tone::Default },
            CellView { text: status, tone },
        ],
        actions: container_actions(),
    }
}

pub open spec fn no_containers_row() -> RowView {
    RowView {
        key: seq![],
        cells: seq![CellView { text: "no containers (docker not present)"@, tone: Tone::Muted }],
        actions: seq![],
    }
}

/// The containers a panel shows: the first `CONTAINER_CAP` of them.
pub open spec fn shown_containers(cs: Seq<Seq<char>>) -> Seq<Seq<char>> {
    if cs.len() <= CONTAINER_CAP { cs } else { cs.take(CONTAINER_CAP as int) }
}

pub open spec fn container_rows(raw: Seq<char>) -> Seq<RowView> {
    let cs = section_of(raw, "DOCKER"@);
    if cs.len() == 0 {
        seq![no_containers_row()]
    } else {
        shown_containers(cs).map_values(|l: Seq<char>| container_row(l))
    }
}

/// The host panel's rows, line by line: with no `docker ps` lines, the
/// single "no containers" row; otherwise one row per line, in order, for the
/// first `CONTAINER_CAP` lines, each keyed by the container's name and
/// offering restart and stop, both confirmed first.
pub proof fn law_container_rows(raw: Seq<char>)
    ensures
        ({
            let cs = section_of(raw, "DOCKER"@);
            let rows = container_rows(raw);
            &&& cs.len() == 0 ==> rows == seq![no_containers_row()]
            &&& cs.len() > 0 ==> {
                &&& rows.len() == (if cs.len() <= CONTAINER_CAP { cs.len() } else { CONTAINER_CAP as nat })
                &&& forall|i: int| 0 <= i < rows.len() ==> {
                    &&& #[trigger] rows[i] == container_row(cs[i])
                    &&& rows[i].key == name_part(cs[i])
                    &&& rows[i].cells[2].tone == status_tone(status_part(cs[i]))
                    &&& rows[i].actions.len() == 2
                    &&& rows[i].actions[0].danger && rows[i].actions[1].danger
                }
            }
        }),
{
}

pub open spec fn uptime_of(raw: Seq<char>) -> Option<Seq<char>> {
    let u = section_of(raw, "UPTIME"@);
    if u.len() > 0 && u[0].len() > 0 { Some(u[0]) } else { None }
}

fn container_row_of(l: &str) -> (r: RowItem)
    ensures
        r@ == container_row(l@),
{
    let v = chars_of(l);
    let i = find_in(&v, '\t', 0);
    let name = if i < v.len() { slice_string(&v, 0, i) } else { owned(l) };
    let status = if i < v.len() { slice_string(&v, i + 1, v.len()) } else { String::new() };
    proof {
        assert(v@.subrange(0, i as int) =~= v@.take(i as int));
        assert(v@.subrange(i + 1, v@.len() as int) =~= v@.skip(i + 1));
    }
    let up = has_prefix(status.as_str(), "Up");
    let tone = if up {
        Tone::Good
    } else if contains_sub(status.as_str(), "Restarting") || contains_sub(status.as_str(), "Paused") {
        Tone::Warn
    } else {
        Tone::Bad
    };
    let mut cells: Vec<crate::panel::Cell> = Vec::new();
    cells.push(cell(if up { "●" } else { "○" }, tone));
    cells.push(crate::panel::Cell { text: trunc(name.as_str(), 30), tone: Tone::Default });
    cells.push(crate::panel::Cell { text: status, tone });
    let mut actions: Vec<crate::panel::ActionSpec> = Vec::new();
    actions.push(action("restart", "restart container", true));
    actions.push(action("stop", "stop container", true));
    let r = RowItem { key: name, cells, actions };
    assert(r@.cells =~= container_row(l@).cells);
    assert(r@.actions =~= container_actions());
    r
}

/// The text side of the host panel: load badge, container rows (at most
/// `CONTAINER_CAP`) and uptime footer. Memory and disk gauges are added by
/// the caller.
pub fn host_panel(raw: &str) -> (p: Panel)
    ensures
        1 <= p@.rows.len() <= CONTAINER_CAP,
        p@ == (PanelView {
            badge: Some("load "@ + load_of(raw@)),
            gauges: Seq::<GaugeView>::empty(),
            spark: None,
            rows: container_rows(raw@),
            footer: uptime_of(raw@),
            panel_actions: Seq::<ActionView>::empty(),
        }),
{
    let load_lines = section(raw, "LOAD");
    let mut badge = owned("load ");
    if load_lines.len() > 0 {
        let ws = words(load_lines[0].as_str());
        let n = if ws.len() < 3 { ws.len() } else { 3 };
        let ghost wv = texts(ws@);
        let mut k: usize = 0;
        let ghost start = badge@;
        while k < n
            invariant
                k <= n <= ws.len(),
                n <= 3,
                wv == texts(ws@),
                badge@ == start + join_words(wv.take(k as int)),
            decreases n - k,
        {
            if k > 0 {
                badge.append(" ");
            }
            badge.append(ws[k].as_str());
            proof {
                let t = wv.take(k + 1);
                assert(t.drop_last() =~= wv.take(k as int));
                if k == 0 {
                    assert(wv.take(0) =~= Seq::<Seq<char>>::empty());
                }
            }
            k += 1;
        }
        assert(wv.len() == ws.len());
        assert(wv.take(n as int) =~= (if wv.len() < 3 { wv } else { wv.take(3) }));
    }
    let cs = section(raw, "DOCKER");
    let mut rows: Vec<RowItem> = Vec::new();
    if cs.len() == 0 {
        let mut cells: Vec<crate::panel::Cell> = Vec::new();
        cells.push(cell("no containers (docker not present)", Tone::Muted));
        let r = RowItem { key: String::new(), cells, actions: Vec::new() };
        assert(r@.cells =~= seq![CellView { text: "no containers (docker not present)"@, tone: Tone::Muted }]);
        assert(r@.actions =~= Seq::<ActionView>::empty());
        assert(r@.key =~= Seq::<char>::empty());
        assert(r@ == no_containers_row());
        rows.push(r);
        assert(crate::panel::rows_view(rows@) =~= container_rows(raw@));
    } else {
        let ghost cv = texts(cs@);
        let mut j: usize = 0;
        while j < cs.len() && j < CONTAINER_CAP
            invariant
                j <= cs.len(),
                j <= CONTAINER_CAP,
                cv == texts(cs@),
                cv == section_of(raw@, "DOCKER"@),
                crate::panel::rows_view(rows@) == cv.map_values(|l: Seq<char>| container_row(l)).take(j as int),
            decreases cs.len() - j,
        {
            let r = container_row_of(cs[j].as_str());
            assert(cv[j as int] == cs@[j as int]@);
            assert(r@ == cv.map_values(|l: Seq<char>| container_row(l))[j as int]);
            let ghost before = crate::panel::rows_view(rows@);
            rows.push(r);
            assert(crate::panel::rows_view(rows@) =~= before.push(r@));
            j += 1;
            assert(crate::panel::rows_view(rows@) =~= cv.map_values(|l: Seq<char>| container_row(l)).take(j as int));
        }
        assert(cv.map_values(|l: Seq<char>| container_row(l)).take(j as int)
            =~= shown_containers(cv).map_values(|l: Seq<char>| container_row(l)));
    }
    let up = section(raw, "UPTIME");
    let footer = if up.len() > 0 && !up[0].as_str().is_empty() { Some(up[0].clone()) } else { None };
    proof {
        if up@.len() > 0 {
            assert(texts(up@)[0] == up@[0]@);
        }
        if load_lines@.len() == 0 {
            assert(badge@ =~= "load "@ + load_of(raw@));
        } else {
            assert(texts(load_lines@)[0] == load_lines@[0]@);
        }
    }
    let p = Panel {
        badge: Some(badge),
        gauges: Vec::new(),
        spark: None,
        rows,
        footer,
        panel_actions: Vec::new(),
    };
    assert(p@.gauges =~= Seq::<GaugeView>::empty());
    assert(p@.panel_actions =~= Seq::<ActionView>::empty());
    p
}

/// A `df` line's fields, `(mount, size, used, percent)` with the percent
/// sign dropped, unless the line is short or the mount is a system one.
pub open spec fn disk_fields_of(line: Seq<char>) -> Option<(Seq<char>, Seq<char>, Seq<char>, Seq<char>)> {
    let w = words_of(line);
    if w.len() < 4 || hidden_by(w[0], SKIP_MOUNTS@) {
        None
    } else {
        Some((w[0], w[1], w[2], trim_end_char(w[3], '%')))
    }
}

pub fn disk_fields(line: &str) -> (r: Option<(String, String, String, String)>)
    ensures
        match disk_fields_of(line@) {
            Some((m, s, u, p)) => r matches Some(t) && t.0@ == m && t.1@ == s && t.2@ == u && t.3@ == p,
            None => r is None,
        },
{
    let w = words(line);
    if w.len() < 4 {
        return None;
    }
    if mount_hidden(w[0].as_str(), SKIP_MOUNTS.as_slice()) {
        return None;
    }
    let pct = trim_end_matches(w[3].as_str(), '%');
    Some((w[0].clone(), w[1].clone(), w[2].clone(), pct))
}

/// The error for a probe that failed: the host and what ssh said, trimmed.
pub fn ssh_error_text(host: &str, stderr: &str) -> (m: String)
    ensures
        m@ == "ssh "@ + host@ + ": "@ + trimmed(stderr@),
{
    let mut m = owned("ssh ");
    m.append(host);
    m.append(": ");
    let t = trim(stderr);
    m.append(t.as_str());
    m
}

} // verus!
