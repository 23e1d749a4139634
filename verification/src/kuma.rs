//! Uptime Kuma: Kuma v1 has no REST API, but it does export Prometheus text
//! metrics. `monitor_status` is 1 up / 0 down / 2 pending / 3 maintenance;
//! `monitor_response_time` fills in the note. Here: the reading of the
//! metrics and the panel.

use vstd::prelude::*;

use crate::panel::{cap_rows, cell, first_rows, rows_view, CellView, Panel, PanelView, RowItem, RowView, Tone};
use crate::text::{
    chars_of, decimal, find_char, find_from, find_in, find_sub, find_sub_from, lemma_find_from, lemma_trim_end, lines,
    lines_of, owned, parse_i64, parse_i64_of, push_decimal, same, slice_string, texts, trim_end_char,
};
use crate::text::{lemma_text_order, text_before, text_lt};
use crate::util::{trunc, trunc_text};

verus! {

pub open spec fn name_key() -> Seq<char> {
    "monitor_name=\""@
}

/// The value of `monitor_name="…"` in a Prometheus label set: the text
/// after the first `monitor_name="` up to the next `"`.
pub open spec fn label_name_of(labels: Seq<char>) -> Option<Seq<char>> {
    match find_sub_from(labels, name_key(), 0) {
        Some(i) => {
            let start = i + name_key().len();
            let end = find_from(labels, '"', start);
            if end < labels.len() { Some(labels.subrange(start, end)) } else { None }
        },
        None => None,
    }
}

/// Pull `monitor_name="…"` out of a Prometheus label set.
pub fn label_name(labels: &str) -> (r: Option<String>)
    ensures
        match label_name_of(labels@) {
            Some(n) => r matches Some(s) && s@ == n,
            None => r is None,
        },
{
    let v = chars_of(labels);
    label_name_in(&v)
}

fn label_name_in(v: &Vec<char>) -> (r: Option<String>)
    ensures
        match label_name_of(v@) {
            Some(n) => r matches Some(s) && s@ == n,
            None => r is None,
        },
{
    let key = chars_of("monitor_name=\"");
    match find_sub(v, &key) {
        None => None,
        Some(i) => {
            let start = i + key.len();
            let end = find_in(v, '"', start);
            if end < v.len() {
                Some(slice_string(v, start, end))
            } else {
                None
            }
        },
    }
}

/// The index of the last `c` in `s`, or -1 when there is none.
pub open spec fn rfind_char(s: Seq<char>, c: char) -> int
    decreases s.len(),
{
    if s.len() == 0 {
        -1
    } else if s.last() == c {
        s.len() - 1
    } else {
        rfind_char(s.drop_last(), c)
    }
}

proof fn lemma_rfind(s: Seq<char>, c: char, j: int)
    requires
        0 <= j <= s.len(),
        forall|k: int| j <= k < s.len() ==> #[trigger] s[k] != c,
        j == 0 || s[j - 1] == c,
    ensures
        rfind_char(s, c) == j - 1,
    decreases s.len(),
{
    if s.len() > 0 && j < s.len() {
        let t = s.drop_last();
        assert forall|k: int| j <= k < t.len() implies #[trigger] t[k] != c by {
            assert(t[k] == s[k]);
        }
        if j > 0 {
            assert(t[j - 1] == s[j - 1]);
        }
        lemma_rfind(t, c, j);
    }
}

/// What a sample line reports about a monitor.
#[derive(Clone, Debug, PartialEq, Eq)]
pub enum Reading {
    /// `monitor_status`: 1 up, 0 down, 2 pending, 3 maintenance (0 when
    /// the value is not an integer).
    Status(i64),
    /// `monitor_response_time`, as the text of its value.
    ResponseTime(String),
}

pub enum ReadingView {
    Status(i64),
    ResponseTime(Seq<char>),
}

/// One monitor's sample from the metrics text.
pub struct Sample {
    pub name: String,
    pub reading: Reading,
}

pub struct SampleView {
    pub name: Seq<char>,
    pub reading: ReadingView,
}

impl View for Sample {
    type V = SampleView;

    open spec fn view(&self) -> SampleView {
        SampleView {
            name: self.name@,
            reading: match self.reading {
                Reading::Status(v) => ReadingView::Status(v),
                Reading::ResponseTime(t) => ReadingView::ResponseTime(t@),
            },
        }
    }
}

/// A metrics line split as `<metric>{<labels>} <value>`: the value after
/// the last space, the metric before the first `{`, the labels after it
/// with the closing braces trimmed. `None` for lines of another shape.
pub open spec fn split_line_of(line: Seq<char>) -> Option<(Seq<char>, Seq<char>, Seq<char>)> {
    let sp = rfind_char(line, ' ');
    if sp < 0 {
        None
    } else {
        let head = line.take(sp);
        let b = find_char(head, '{');
        if b >= head.len() {
            None
        } else {
            Some((head.take(b), trim_end_char(head.skip(b + 1), '}'), line.skip(sp + 1)))
        }
    }
}

/// The sample a line holds: a `monitor_status` or `monitor_response_time`
/// line that names its monitor. Anything else holds none.
pub open spec fn sample_of(line: Seq<char>) -> Option<SampleView> {
    match split_line_of(line) {
        None => None,
        Some((metric, labels, value)) => match label_name_of(labels) {
            None => None,
            Some(name) => if metric == "monitor_status"@ {
                Some(SampleView {
                    name,
                    reading: ReadingView::Status(
                        match parse_i64_of(value) {
                            Some(v) => v,
                            None => 0,
                        },
                    ),
                })
            } else if metric == "monitor_response_time"@ {
                Some(SampleView { name, reading: ReadingView::ResponseTime(value) })
            } else {
                None
            },
        },
    }
}

/// The samples of the given lines, in order.
pub open spec fn samples_of(ls: Seq<Seq<char>>) -> Seq<SampleView>
    decreases ls.len(),
{
    if ls.len() == 0 {
        seq![]
    } else {
        let before = samples_of(ls.drop_last());
        match sample_of(ls.last()) {
            Some(x) => before.push(x),
            None => before,
        }
    }
}

pub open spec fn samples_view(v: Seq<Sample>) -> Seq<SampleView> {
    v.map_values(|x: Sample| x@)
}

fn split_line(v: &Vec<char>) -> (r: Option<(String, Vec<char>, String)>)
    ensures
        match split_line_of(v@) {
            Some((m, l, x)) => r matches Some(t) && t.0@ == m && t.1@ == l && t.2@ == x,
            None => r is None,
        },
{
    let n = v.len();
    let mut j = n;
    while j > 0 && v[j - 1] != ' '
        invariant
            j <= n,
            n == v.len(),
            forall|k: int| j <= k < n ==> #[trigger] v@[k] != ' ',
        decreases j,
    {
        j -= 1;
    }
    proof {
        lemma_rfind(v@, ' ', j as int);
    }
    if j == 0 {
        return None;
    }
    let sp = j - 1;
    let ghost head = v@.take(sp as int);
    let mut b: usize = 0;
    while b < sp && v[b] != '{'
        invariant
            b <= sp,
            sp < v.len(),
            forall|k: int| 0 <= k < b ==> #[trigger] v@[k] != '{',
        decreases sp - b,
    {
        b += 1;
    }
    proof {
        assert forall|k: int| 0 <= k < b implies #[trigger] head[k] != '{' by {
            assert(head[k] == v@[k]);
        }
        if b < sp {
            assert(head[b as int] == v@[b as int]);
        }
        lemma_find_from(head, '{', 0, b as int);
    }
    if b == sp {
        return None;
    }
    let mut e = sp;
    while e > b + 1 && v[e - 1] == '}'
        invariant
            b + 1 <= e <= sp,
            sp < v.len(),
            forall|k: int| e <= k < sp ==> #[trigger] v@[k] == '}',
        decreases e,
    {
        e -= 1;
    }
    let ghost inner = head.skip(b + 1);
    proof {
        let ee = e - (b + 1);
        assert forall|k: int| ee <= k < inner.len() implies #[trigger] inner[k] == '}' by {
            assert(inner[k] == v@[k + b + 1]);
        }
        if ee > 0 {
            assert(inner[ee - 1] == v@[e - 1]);
        }
        lemma_trim_end(inner, '}', ee);
    }
    let metric = slice_string(v, 0, b);
    let mut labels: Vec<char> = Vec::new();
    let mut k = b + 1;
    while k < e
        invariant
            b + 1 <= k <= e,
            e <= sp < v.len(),
            labels@ == v@.subrange(b + 1, k as int),
        decreases e - k,
    {
        labels.push(v[k]);
        k += 1;
        assert(labels@ =~= v@.subrange(b + 1, k as int));
    }
    let value = slice_string(v, sp + 1, n);
    proof {
        assert(metric@ =~= head.take(b as int));
        assert(labels@ =~= inner.take(e - (b + 1)));
        assert(value@ =~= v@.skip(sp + 1));
    }
    Some((metric, labels, value))
}

fn sample_in(line: &str) -> (r: Option<Sample>)
    ensures
        match sample_of(line@) {
            Some(x) => r matches Some(s) && s@ == x,
            None => r is None,
        },
{
    let v = chars_of(line);
    let (metric, labels, value) = match split_line(&v) {
        Some(t) => t,
        None => {
            return None;
        },
    };
    let name = match label_name_in(&labels) {
        Some(n) => n,
        None => {
            return None;
        },
    };
    if same(metric.as_str(), "monitor_status") {
        let status = match parse_i64(value.as_str()) {
            Some(s) => s,
            None => 0,
        };
        Some(Sample { name, reading: Reading::Status(status) })
    } else if same(metric.as_str(), "monitor_response_time") {
        Some(Sample { name, reading: Reading::ResponseTime(value) })
    } else {
        None
    }
}

/// Kuma's metrics text, line by line, as monitor samples.
pub fn samples(text: &str) -> (r: Vec<Sample>)
    ensures
        samples_view(r@) == samples_of(lines_of(text@)),
{
    let ls = lines(text);
    let mut out: Vec<Sample> = Vec::new();
    let mut i: usize = 0;
    while i < ls.len()
        invariant
            i <= ls.len(),
            texts(ls@) == lines_of(text@),
            samples_view(out@) == samples_of(texts(ls@).take(i as int)),
        decreases ls.len() - i,
    {
        let ghost t = texts(ls@);
        proof {
            assert(t.take(i + 1).drop_last() =~= t.take(i as int));
            assert(t.take(i + 1).last() == ls@[i as int]@);
        }
        match sample_in(ls[i].as_str()) {
            Some(x) => {
                out.push(x);
                assert(samples_view(out@) =~= samples_of(t.take(i + 1)));
            },
            None => {},
        }
        i += 1;
    }
    assert(texts(ls@).take(i as int) =~= texts(ls@));
    out
}

/// What the metrics say of one monitor: its status (0 until a status line
/// names it) and its response time's text, if any line gave one.
pub struct MonitorState {
    pub name: String,
    pub status: i64,
    pub response: Option<String>,
}

pub struct MonitorView {
    pub status: i64,
    pub response: Option<Seq<char>>,
}

/// The monitors the samples describe, by name: each sample updates its
/// monitor's status or response time, later lines overriding earlier ones.
pub open spec fn monitors_of(ss: Seq<SampleView>) -> Map<Seq<char>, MonitorView>
    decreases ss.len(),
{
    if ss.len() == 0 {
        Map::empty()
    } else {
        let m = monitors_of(ss.drop_last());
        let x = ss.last();
        let cur = if m.contains_key(x.name) { m[x.name] } else { MonitorView { status: 0, response: None } };
        m.insert(
            x.name,
            match x.reading {
                ReadingView::Status(v) => MonitorView { status: v, response: cur.response },
                ReadingView::ResponseTime(t) => MonitorView { status: cur.status, response: Some(t) },
            },
        )
    }
}

pub open spec fn state_view(m: MonitorState) -> MonitorView {
    MonitorView {
        status: m.status,
        response: match m.response {
            Some(t) => Some(t@),
            None => None,
        },
    }
}

/// A list of monitor states read as a map from name to state.
pub open spec fn states_map(v: Seq<MonitorState>) -> Map<Seq<char>, MonitorView>
    decreases v.len(),
{
    if v.len() == 0 {
        Map::empty()
    } else {
        states_map(v.drop_last()).insert(v.last().name@, state_view(v.last()))
    }
}

pub open spec fn names_distinct(v: Seq<MonitorState>) -> bool {
    forall|i: int, j: int| 0 <= i < j < v.len() ==> v[i].name@ != v[j].name@
}

proof fn lemma_states_map(v: Seq<MonitorState>)
    requires
        names_distinct(v),
    ensures
        forall|i: int| 0 <= i < v.len() ==> #[trigger] states_map(v).contains_key(v[i].name@)
            && states_map(v)[v[i].name@] == state_view(v[i]),
        forall|n: Seq<char>| #[trigger] states_map(v).contains_key(n) ==> exists|i: int| 0 <= i < v.len() && v[i].name@ == n,
    decreases v.len(),
{
    if v.len() > 0 {
        let w = v.drop_last();
        assert(names_distinct(w)) by {
            assert forall|i: int, j: int| 0 <= i < j < w.len() implies w[i].name@ != w[j].name@ by {
                assert(w[i] == v[i] && w[j] == v[j]);
            }
        }
        lemma_states_map(w);
        assert forall|i: int| 0 <= i < v.len() implies #[trigger] states_map(v).contains_key(v[i].name@)
            && states_map(v)[v[i].name@] == state_view(v[i]) by {
            if i < v.len() - 1 {
                assert(w[i] == v[i]);
                assert(v[i].name@ != v.last().name@);
            }
        }
        assert forall|n: Seq<char>| #[trigger] states_map(v).contains_key(n) implies exists|i: int| 0 <= i < v.len() && v[i].name@ == n by {
            if n != v.last().name@ {
                assert(states_map(w).contains_key(n));
                let i = choose|i: int| 0 <= i < w.len() && w[i].name@ == n;
                assert(v[i] == w[i]);
            } else {
                assert(v[v.len() - 1].name@ == n);
            }
        }
    }
}

proof fn lemma_states_map_update(v: Seq<MonitorState>, k: int, x: MonitorState)
    requires
        names_distinct(v),
        0 <= k < v.len(),
        x.name@ == v[k].name@,
    ensures
        names_distinct(v.update(k, x)),
        states_map(v.update(k, x)) == states_map(v).insert(x.name@, state_view(x)),
{
    let u = v.update(k, x);
    assert(names_distinct(u)) by {
        assert forall|i: int, j: int| 0 <= i < j < u.len() implies u[i].name@ != u[j].name@ by {
            if i == k {
                assert(v[j].name@ != v[k].name@);
            } else if j == k {
                assert(v[i].name@ != v[k].name@);
            } else {
                assert(u[i] == v[i] && u[j] == v[j]);
            }
        }
    }
    lemma_states_map(v);
    lemma_states_map(u);
    let lhs = states_map(u);
    let rhs = states_map(v).insert(x.name@, state_view(x));
    assert forall|n: Seq<char>| lhs.contains_key(n) <==> rhs.contains_key(n) by {
        if lhs.contains_key(n) {
            let i = choose|i: int| 0 <= i < u.len() && u[i].name@ == n;
            if i != k {
                assert(u[i] == v[i]);
                assert(states_map(v).contains_key(v[i].name@));
            }
        }
        if rhs.contains_key(n) && n != x.name@ {
            let i = choose|i: int| 0 <= i < v.len() && v[i].name@ == n;
            assert(i != k);
            assert(u[i] == v[i]);
            assert(lhs.contains_key(u[i].name@));
        }
        if n == x.name@ {
            assert(u[k] == x);
            assert(lhs.contains_key(u[k].name@));
        }
    }
    assert forall|n: Seq<char>| lhs.contains_key(n) implies lhs[n] == rhs[n] by {
        let i = choose|i: int| 0 <= i < u.len() && u[i].name@ == n;
        assert(lhs.contains_key(u[i].name@));
        if i != k {
            assert(u[i] == v[i]);
            assert(states_map(v).contains_key(v[i].name@));
        } else {
            assert(u[k] == x);
        }
    }
    assert(lhs =~= rhs);
}

/// The monitors are listed in name order.
pub open spec fn names_sorted(v: Seq<MonitorState>) -> bool {
    forall|i: int, j: int| 0 <= i < j < v.len() ==> text_lt(#[trigger] v[i].name@, #[trigger] v[j].name@)
}

proof fn lemma_sorted_distinct(v: Seq<MonitorState>)
    requires
        names_sorted(v),
    ensures
        names_distinct(v),
{
    assert forall|i: int, j: int| 0 <= i < j < v.len() implies v[i].name@ != v[j].name@ by {
        lemma_text_order(v[i].name@, v[j].name@, v[j].name@);
    }
}

proof fn lemma_states_map_insert(v: Seq<MonitorState>, k: int, x: MonitorState)
    requires
        names_distinct(v),
        0 <= k <= v.len(),
        !states_map(v).contains_key(x.name@),
    ensures
        names_distinct(v.insert(k, x)),
        states_map(v.insert(k, x)) == states_map(v).insert(x.name@, state_view(x)),
{
    lemma_states_map(v);
    let u = v.insert(k, x);
    assert(names_distinct(u)) by {
        assert forall|i: int, j: int| 0 <= i < j < u.len() implies u[i].name@ != u[j].name@ by {
            if i == k {
                assert(u[j] == v[j - 1]);
                assert(states_map(v).contains_key(v[j - 1].name@));
            } else if j == k {
                assert(u[i] == v[i]);
                assert(states_map(v).contains_key(v[i].name@));
            } else {
                let vi = if i < k { i } else { i - 1 };
                let vj = if j < k { j } else { j - 1 };
                assert(u[i] == v[vi] && u[j] == v[vj]);
            }
        }
    }
    lemma_states_map(u);
    let lhs = states_map(u);
    let rhs = states_map(v).insert(x.name@, state_view(x));
    assert forall|n: Seq<char>| lhs.contains_key(n) <==> rhs.contains_key(n) by {
        if lhs.contains_key(n) {
            let i = choose|i: int| 0 <= i < u.len() && u[i].name@ == n;
            if i < k {
                assert(u[i] == v[i]);
                assert(states_map(v).contains_key(v[i].name@));
            } else if i > k {
                assert(u[i] == v[i - 1]);
                assert(states_map(v).contains_key(v[i - 1].name@));
            }
        }
        if rhs.contains_key(n) && n != x.name@ {
            let i = choose|i: int| 0 <= i < v.len() && v[i].name@ == n;
            let ui = if i < k { i } else { i + 1 };
            assert(u[ui] == v[i]);
            assert(lhs.contains_key(u[ui].name@));
        }
        if n == x.name@ {
            assert(u[k] == x);
            assert(lhs.contains_key(u[k].name@));
        }
    }
    assert forall|n: Seq<char>| lhs.contains_key(n) implies lhs[n] == rhs[n] by {
        let i = choose|i: int| 0 <= i < u.len() && u[i].name@ == n;
        assert(lhs.contains_key(u[i].name@));
        if i < k {
            assert(u[i] == v[i]);
            assert(states_map(v).contains_key(v[i].name@));
        } else if i > k {
            assert(u[i] == v[i - 1]);
            assert(states_map(v).contains_key(v[i - 1].name@));
        } else {
            assert(u[k] == x);
        }
    }
    assert(lhs =~= rhs);
}

proof fn lemma_states_map_push(v: Seq<MonitorState>, x: MonitorState)
    requires
        names_distinct(v),
        !states_map(v).contains_key(x.name@),
    ensures
        names_distinct(v.push(x)),
        states_map(v.push(x)) == states_map(v).insert(x.name@, state_view(x)),
{
    lemma_states_map(v);
    let p = v.push(x);
    assert(p.drop_last() =~= v);
    assert(names_distinct(p)) by {
        assert forall|i: int, j: int| 0 <= i < j < p.len() implies p[i].name@ != p[j].name@ by {
            if j == v.len() {
                assert(p[i] == v[i]);
                assert(states_map(v).contains_key(v[i].name@));
            } else {
                assert(p[i] == v[i] && p[j] == v[j]);
            }
        }
    }
}

fn read_into(r: &Reading, cur_status: i64, cur_response: Option<String>) -> (m: (i64, Option<String>))
    ensures
        match *r {
            Reading::Status(v) => m.0 == v && state_opt(m.1) == state_opt(cur_response),
            Reading::ResponseTime(t) => m.0 == cur_status && state_opt(m.1) == Some(t@),
        },
{
    match r {
        Reading::Status(v) => (*v, cur_response),
        Reading::ResponseTime(t) => (cur_status, Some(t.clone())),
    }
}

pub open spec fn state_opt(o: Option<String>) -> Option<Seq<char>> {
    match o {
        Some(t) => Some(t@),
        None => None,
    }
}

/// The monitors of Kuma's metrics text, each once, in name order; read as
/// a map from name to state they are what the lines say.
pub fn monitors(text: &str) -> (r: Vec<MonitorState>)
    ensures
        names_sorted(r@),
        names_distinct(r@),
        states_map(r@) == monitors_of(samples_of(lines_of(text@))),
{
    let ss = samples(text);
    let ghost sv = samples_view(ss@);
    let mut out: Vec<MonitorState> = Vec::new();
    let mut i: usize = 0;
    while i < ss.len()
        invariant
            i <= ss.len(),
            sv == samples_view(ss@),
            sv == samples_of(lines_of(text@)),
            names_sorted(out@),
            names_distinct(out@),
            states_map(out@) == monitors_of(sv.take(i as int)),
        decreases ss.len() - i,
    {
        let x = &ss[i];
        proof {
            assert(sv.take(i + 1).drop_last() =~= sv.take(i as int));
            assert(sv.take(i + 1).last() == x@);
            lemma_states_map(out@);
        }
        // The first monitor that does not sort before this sample's name:
        // the same monitor, or the place for a new one.
        let mut k: usize = 0;
        while k < out.len() && text_before(out[k].name.as_str(), x.name.as_str())
            invariant
                k <= out.len(),
                forall|j: int| 0 <= j < k ==> text_lt(#[trigger] out@[j].name@, x.name@),
            decreases out.len() - k,
        {
            k += 1;
        }
        if k < out.len() && same(out[k].name.as_str(), x.name.as_str()) {
            let cur_status = out[k].status;
            let cur_response = out[k].response.clone();
            let (st, resp) = read_into(&x.reading, cur_status, cur_response);
            let y = MonitorState { name: x.name.clone(), status: st, response: resp };
            proof {
                lemma_states_map(out@);
                assert(out@[k as int].name@ == x.name@);
                assert(states_map(out@).contains_key(out@[k as int].name@));
                lemma_states_map_update(out@, k as int, y);
            }
            let ghost before = out@;
            out.set(k, y);
            proof {
                assert forall|a: int, b: int| 0 <= a < b < out@.len() implies text_lt(
                    #[trigger] out@[a].name@,
                    #[trigger] out@[b].name@,
                ) by {
                    assert(before[a].name@ == out@[a].name@ && before[b].name@ == out@[b].name@);
                }
            }
        } else {
            let (st, resp) = read_into(&x.reading, 0, None);
            let y = MonitorState { name: x.name.clone(), status: st, response: resp };
            let ghost before = out@;
            proof {
                // Every listed name after position `k` sorts after the new one.
                assert forall|j: int| k <= j < before.len() implies text_lt(y.name@, #[trigger] before[j].name@) by {
                    lemma_text_order(before[k as int].name@, y.name@, y.name@);
                    lemma_text_order(y.name@, before[k as int].name@, before[j].name@);
                    if j > k {
                        assert(text_lt(before[k as int].name@, before[j].name@));
                    }
                }
                assert forall|j: int| 0 <= j < before.len() implies before[j].name@ != y.name@ by {
                    lemma_text_order(before[j].name@, y.name@, y.name@);
                    if j >= k {
                        lemma_text_order(y.name@, before[j].name@, before[j].name@);
                    }
                }
                lemma_states_map(before);
                if states_map(before).contains_key(y.name@) {
                    let j = choose|j: int| 0 <= j < before.len() && before[j].name@ == y.name@;
                    assert(before[j].name@ != y.name@);
                }
                lemma_states_map_insert(before, k as int, y);
            }
            out.insert(k, y);
            proof {
                assert forall|a: int, b: int| 0 <= a < b < out@.len() implies text_lt(
                    #[trigger] out@[a].name@,
                    #[trigger] out@[b].name@,
                ) by {
                    if b < k {
                        assert(out@[a] == before[a] && out@[b] == before[b]);
                    } else if b == k {
                        assert(out@[a] == before[a]);
                    } else if a == k {
                        assert(out@[b] == before[b - 1]);
                    } else if a < k {
                        assert(out@[a] == before[a] && out@[b] == before[b - 1]);
                    } else {
                        assert(out@[a] == before[a - 1] && out@[b] == before[b - 1]);
                    }
                }
            }
        }
        i += 1;
    }
    assert(sv.take(i as int) =~= sv);
    out
}

/// How a monitor's status shows: glyph, word and tone.
pub open spec fn monitor_look_of(status: i64) -> (Seq<char>, Seq<char>, Tone) {
    if status == 1 {
        ("●"@, "up"@, Tone::Good)
    } else if status == 0 {
        ("○"@, "down"@, Tone::Bad)
    } else if status == 2 {
        ("◌"@, "pending"@, Tone::Warn)
    } else {
        ("◑"@, "maintenance"@, Tone::Info)
    }
}

pub fn monitor_look(status: i64) -> (r: (&'static str, &'static str, Tone))
    ensures
        r.0@ == monitor_look_of(status).0,
        r.1@ == monitor_look_of(status).1,
        r.2 == monitor_look_of(status).2,
{
    if status == 1 {
        ("●", "up", Tone::Good)
    } else if status == 0 {
        ("○", "down", Tone::Bad)
    } else if status == 2 {
        ("◌", "pending", Tone::Warn)
    } else {
        ("◑", "maintenance", Tone::Info)
    }
}

/// Trouble floats to the top: down, pending, maintenance, then up.
pub fn trouble_rank(status: i64) -> (r: u8)
    ensures
        r == (if status == 0 { 0u8 } else if status == 2 { 1u8 } else if status == 3 { 2u8 } else { 3u8 }),
{
    if status == 0 { 0 } else if status == 2 { 1 } else if status == 3 { 2 } else { 3 }
}

/// A monitor's row: glyph, name, status word and the response time
/// (rendered by the caller, empty when unknown).
pub open spec fn monitor_row_of(name: Seq<char>, status: i64, note: Seq<char>) -> RowView {
    let (icon, label, tone) = monitor_look_of(status);
    RowView {
        key: seq![],
        cells: seq![
            CellView { text: icon, tone },
            CellView { text: trunc_text(name, 32), tone: Tone::Default },
            CellView { text: label, tone },
            CellView { text: note, tone: Tone::Muted },
        ],
        actions: seq![],
    }
}

pub fn monitor_row(name: &str, status: i64, note: &str) -> (r: RowItem)
    ensures
        r@ == monitor_row_of(name@, status, note@),
{
    let (icon, label, tone) = monitor_look(status);
    let cells = vec![cell(icon, tone), cell(trunc(name, 32).as_str(), Tone::Default), cell(label, tone), cell(note, Tone::Muted)];
    let r = RowItem { key: String::new(), cells, actions: Vec::new() };
    assert(r@.cells =~= monitor_row_of(name@, status, note@).cells);
    assert(r@.actions =~= monitor_row_of(name@, status, note@).actions);
    r
}

/// How many monitors the panel lists.
pub const MONITOR_ROWS: usize = 14;

/// The Kuma panel: how many monitors are up, the first `MONITOR_ROWS`
/// rows, and a footer when the list is cut short.
pub open spec fn kuma_panel_of(rows: Seq<RowView>, up: nat, total: nat) -> PanelView {
    PanelView {
        badge: Some(decimal(up) + "/"@ + decimal(total) + " up"@),
        gauges: seq![],
        spark: None,
        rows: first_rows(rows, MONITOR_ROWS as nat),
        footer: if total > MONITOR_ROWS { Some("showing 14 of "@ + decimal(total)) } else { None },
        panel_actions: seq![],
    }
}

pub fn kuma_panel(rows: Vec<RowItem>, up: u64, total: u64) -> (p: Panel)
    ensures
        p@ == kuma_panel_of(rows_view(rows@), up as nat, total as nat),
        p@.rows.len() <= MONITOR_ROWS,
{
    let ghost given = rows_view(rows@);
    let mut rows = rows;
    cap_rows(&mut rows, MONITOR_ROWS);
    let mut badge = String::new();
    push_decimal(&mut badge, up);
    badge.append("/");
    push_decimal(&mut badge, total);
    badge.append(" up");
    let footer = if total > MONITOR_ROWS as u64 {
        let mut f = owned("showing 14 of ");
        push_decimal(&mut f, total);
        Some(f)
    } else {
        None
    };
    let ghost want = kuma_panel_of(given, up as nat, total as nat);
    let p = Panel { badge: Some(badge), gauges: Vec::new(), spark: None, rows, footer, panel_actions: Vec::new() };
    assert(p@.badge =~~= want.badge);
    assert(p@.gauges =~= want.gauges);
    assert(p@.panel_actions =~= want.panel_actions);
    p
}

/// Kuma only reports; every action is refused.
pub fn kuma_refusal(action_id: &str) -> (m: String)
    ensures
        m@ == "uptime-kuma has no actions (tried "@ + action_id@ + ")"@,
{
    let mut m = owned("uptime-kuma has no actions (tried ");
    m.append(action_id);
    m.append(")");
    m
}


/// Kuma's status codes, as the panel words them: 1 is "up", 0 "down", 2
/// "pending", and 3 (like any other code) "maintenance"; each word belongs
/// to its code alone.
pub proof fn law_status_words(status: i64)
    ensures
        monitor_look_of(status).1 == "up"@ <==> status == 1,
        monitor_look_of(status).1 == "down"@ <==> status == 0,
        monitor_look_of(status).1 == "pending"@ <==> status == 2,
        monitor_look_of(status).1 == "maintenance"@ <==> (status != 0 && status != 1 && status != 2),
        status == 3 ==> monitor_look_of(status) == ("◑"@, "maintenance"@, Tone::Info),
        status == 0 ==> monitor_look_of(status).2 == Tone::Bad,
        status == 1 ==> monitor_look_of(status).2 == Tone::Good,
{
    reveal_strlit("up");
    reveal_strlit("down");
    reveal_strlit("pending");
    reveal_strlit("maintenance");
    assert("up"@.len() == 2);
    assert("down"@.len() == 4);
    assert("pending"@.len() == 7);
    assert("maintenance"@.len() == 11);
}
} // verus!
