//! Which disks a host panel shows: the hottest slice, never all of them.
//! Disks are ordered largest first (equal sizes keep their order), a mount
//! listed again right after itself is shown once, and five make the cut.

use vstd::prelude::*;

use crate::text::same;

verus! {

/// How many disks a panel shows.
pub const DISK_ROWS: usize = 5;

/// A disk as `(mount, size in bytes, a, b)`: the last two fields ride along
/// untouched (for `df`, used bytes and the percentage).
pub open spec fn disks_view(d: Seq<(String, u64, u64, u64)>) -> Seq<(Seq<char>, u64, u64, u64)> {
    d.map_values(|t: (String, u64, u64, u64)| (t.0@, t.1, t.2, t.3))
}

/// `x` placed into a list ordered largest first: after every disk at least
/// as large, before the smaller ones.
pub open spec fn insert_by_size(s: Seq<(Seq<char>, u64, u64, u64)>, x: (Seq<char>, u64, u64, u64)) -> Seq<(Seq<char>, u64, u64, u64)>
    decreases s.len(),
{
    if s.len() == 0 {
        seq![x]
    } else if s.last().1 >= x.1 {
        s.push(x)
    } else {
        insert_by_size(s.drop_last(), x).push(s.last())
    }
}

/// The disks ordered by size, largest first; disks of equal size keep the
/// order they came in (a stable sort).
pub open spec fn sorted_by_size_desc(s: Seq<(Seq<char>, u64, u64, u64)>) -> Seq<(Seq<char>, u64, u64, u64)>
    decreases s.len(),
{
    if s.len() == 0 {
        seq![]
    } else {
        insert_by_size(sorted_by_size_desc(s.drop_last()), s.last())
    }
}

/// Runs of the same mount collapsed to their first entry.
pub open spec fn collapse_equal_mounts(s: Seq<(Seq<char>, u64, u64, u64)>) -> Seq<(Seq<char>, u64, u64, u64)>
    decreases s.len(),
{
    if s.len() == 0 {
        seq![]
    } else {
        let r = collapse_equal_mounts(s.drop_last());
        if r.len() > 0 && r.last().0 == s.last().0 {
            r
        } else {
            r.push(s.last())
        }
    }
}

/// The first `n` entries (all of them when there are fewer).
pub open spec fn first_n<A>(s: Seq<A>, n: nat) -> Seq<A> {
    if s.len() <= n {
        s
    } else {
        s.take(n as int)
    }
}

proof fn lemma_insert_at(s: Seq<(Seq<char>, u64, u64, u64)>, x: (Seq<char>, u64, u64, u64), p: int)
    requires
        0 <= p <= s.len(),
        forall|j: int| p <= j < s.len() ==> (#[trigger] s[j]).1 < x.1,
        p > 0 ==> s[p - 1].1 >= x.1,
    ensures
        insert_by_size(s, x) == s.insert(p, x),
    decreases s.len(),
{
    if s.len() == 0 {
        assert(s.insert(p, x) =~= seq![x]);
    } else if s.last().1 >= x.1 {
        assert(p == s.len());
        assert(s.insert(p, x) =~= s.push(x));
    } else {
        lemma_insert_at(s.drop_last(), x, p);
        assert(s.drop_last().insert(p, x).push(s.last()) =~= s.insert(p, x));
    }
}

/// Puts `x` into `sorted` after every disk at least as large.
fn insert_disk(sorted: &mut Vec<(String, u64, u64, u64)>, x: (String, u64, u64, u64))
    ensures
        disks_view(final(sorted)@) == insert_by_size(disks_view(old(sorted)@), (x.0@, x.1, x.2, x.3)),
{
    let ghost sv = disks_view(sorted@);
    let ghost xv = (x.0@, x.1, x.2, x.3);
    let mut p = sorted.len();
    while p > 0 && sorted[p - 1].1 < x.1
        invariant
            p <= sorted.len(),
            sv == disks_view(sorted@),
            forall|j: int| p <= j < sorted.len() ==> (#[trigger] sv[j]).1 < x.1,
        decreases p,
    {
        p -= 1;
    }
    proof {
        lemma_insert_at(sv, xv, p as int);
    }
    sorted.insert(p, x);
    assert(disks_view(sorted@) =~= sv.insert(p as int, xv));
}

/// The disks a panel shows: largest first, runs of one mount collapsed, the
/// first `DISK_ROWS` of them.
pub fn pick_disks(d: Vec<(String, u64, u64, u64)>) -> (r: Vec<(String, u64, u64, u64)>)
    ensures
        disks_view(r@) == first_n(collapse_equal_mounts(sorted_by_size_desc(disks_view(d@))), DISK_ROWS as nat),
        r@.len() <= DISK_ROWS,
{
    let ghost dv = disks_view(d@);
    let mut sorted: Vec<(String, u64, u64, u64)> = Vec::new();
    let mut i: usize = 0;
    assert(disks_view(sorted@) =~= sorted_by_size_desc(dv.take(0)));
    while i < d.len()
        invariant
            i <= d.len(),
            dv == disks_view(d@),
            disks_view(sorted@) == sorted_by_size_desc(dv.take(i as int)),
        decreases d.len() - i,
    {
        let x = (d[i].0.clone(), d[i].1, d[i].2, d[i].3);
        proof {
            assert(dv.take(i + 1).drop_last() =~= dv.take(i as int));
            assert(dv.take(i + 1).last() == (x.0@, x.1, x.2, x.3));
        }
        insert_disk(&mut sorted, x);
        i += 1;
    }
    assert(dv.take(i as int) =~= dv);
    let ghost sv = disks_view(sorted@);
    let mut out: Vec<(String, u64, u64, u64)> = Vec::new();
    let mut k: usize = 0;
    assert(disks_view(out@) =~= collapse_equal_mounts(sv.take(0)));
    while k < sorted.len()
        invariant
            k <= sorted.len(),
            sv == disks_view(sorted@),
            disks_view(out@) == collapse_equal_mounts(sv.take(k as int)),
        decreases sorted.len() - k,
    {
        proof {
            assert(sv.take(k + 1).drop_last() =~= sv.take(k as int));
            assert(sv.take(k + 1).last() == sv[k as int]);
        }
        let repeat = out.len() > 0 && same(out[out.len() - 1].0.as_str(), sorted[k].0.as_str());
        if !repeat {
            let x = (sorted[k].0.clone(), sorted[k].1, sorted[k].2, sorted[k].3);
            let ghost before = disks_view(out@);
            out.push(x);
            assert(disks_view(out@) =~= before.push(sv[k as int]));
        }
        k += 1;
    }
    assert(sv.take(k as int) =~= sv);
    let ghost cv = disks_view(out@);
    out.truncate(DISK_ROWS);
    assert(disks_view(out@) =~= first_n(cv, DISK_ROWS as nat));
    out
}

} // verus!
