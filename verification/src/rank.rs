//! Ranking of process entries: sort by CPU share descending (a stable
//! insertion sort, so ties keep enumeration order) and keep the first
//! `TOP_N` entries.

use vstd::multiset::Multiset;
use vstd::prelude::*;

use crate::model::proc_seq_ok;
use crate::model::ranked;
use crate::model::ProcessStats;
use crate::model::TOP_N;

verus! {

broadcast use
    vstd::seq_lib::group_to_multiset_ensures,
    vstd::multiset::group_multiset_axioms,
    vstd::multiset::lemma_multiset_empty_len,
;

/// Where an entry lands in an already-sorted ranking: in front of the
/// entries whose share is no larger, behind those whose share is
/// strictly larger.  An entry therefore precedes the entries of equal
/// share that were enumerated after it.
pub open spec fn place_desc(x: ProcessStats, sorted: Seq<ProcessStats>) -> Seq<ProcessStats>
    decreases sorted.len(),
{
    if sorted.len() == 0 {
        seq![x]
    } else if x.cpu >= sorted.first().cpu {
        seq![x] + sorted
    } else {
        seq![sorted.first()] + place_desc(x, sorted.drop_first())
    }
}

/// The stable descending sort of the enumerated entries by CPU share:
/// each entry placed, in turn, into the sorted ranking of the entries
/// enumerated after it.
pub open spec fn stable_sort_desc(s: Seq<ProcessStats>) -> Seq<ProcessStats>
    decreases s.len(),
{
    if s.len() == 0 {
        Seq::empty()
    } else {
        place_desc(s.first(), stable_sort_desc(s.drop_first()))
    }
}

/// What the ranking hands back, relative to the enumerated entries:
/// the first entries of the stable descending sort — a sorted
/// selection of the entries with the highest CPU shares.
pub open spec fn is_top_ranked(r: Seq<ProcessStats>, input: Seq<ProcessStats>) -> bool {
    &&& r == stable_sort_desc(input).subrange(0, r.len() as int)
    &&& ranked(r)
    &&& r.len() == (if input.len() <= TOP_N {
        input.len()
    } else {
        TOP_N as nat
    })
    &&& r.to_multiset().subset_of(input.to_multiset())
    &&& (input.len() <= TOP_N ==> r.to_multiset() == input.to_multiset())
    &&& (input.len() > TOP_N ==> forall|p: ProcessStats|
        input.to_multiset().sub(r.to_multiset()).count(p) > 0 ==> p.cpu <= r[TOP_N as int - 1].cpu)
}

/// Inserting an entry at the first position whose share is no larger
/// is exactly the `place_desc` placement.
proof fn lemma_insert_at_place(x: ProcessStats, t: Seq<ProcessStats>, j: int)
    requires
        ranked(t),
        0 <= j <= t.len(),
        forall|k: int| 0 <= k < j ==> (#[trigger] t[k]).cpu > x.cpu,
        j < t.len() ==> t[j].cpu <= x.cpu,
    ensures
        t.insert(j, x) == place_desc(x, t),
    decreases j,
{
    if j == 0 {
        if t.len() == 0 {
            assert(t.insert(0, x) =~= seq![x]);
        } else {
            assert(x.cpu >= t.first().cpu);
            assert(t.insert(0, x) =~= seq![x] + t);
        }
    } else {
        let t2 = t.drop_first();
        assert(t[0].cpu > x.cpu);
        assert(ranked(t2)) by {
            assert(forall|a: int, b: int| #![trigger t2[a], t2[b]]
                0 <= a <= b < t2.len() ==> t[a + 1].cpu >= t[b + 1].cpu);
        }
        assert(forall|k: int| 0 <= k < j - 1 ==> (#[trigger] t2[k]).cpu > x.cpu) by {
            assert(forall|k: int| 0 <= k < j - 1 ==> t2[k] == t[k + 1]);
        }
        lemma_insert_at_place(x, t2, j - 1);
        assert(t.insert(j, x) =~= seq![t.first()] + t2.insert(j - 1, x));
    }
}

/// Stable insertion sort by CPU share, highest first.  Entries are
/// taken from the back of the remainder, and an entry is placed in
/// front of the entries with the same share, so equal shares keep
/// their enumeration order.
fn sort_desc(input: Vec<ProcessStats>) -> (r: Vec<ProcessStats>)
    ensures
        ranked(r@),
        r@.to_multiset() == input@.to_multiset(),
        r@ == stable_sort_desc(input@),
{
    let ghost orig = input@;
    let mut rest = input;
    let mut out: Vec<ProcessStats> = Vec::new();
    proof {
        assert(out@.to_multiset().len() == 0);
        assert(out@.to_multiset() =~= Multiset::empty());
        assert(out@.to_multiset().add(rest@.to_multiset()) =~= orig.to_multiset());
        assert(orig.skip(rest@.len() as int) =~= Seq::empty());
        assert(out@ =~= stable_sort_desc(orig.skip(rest@.len() as int)));
        assert(rest@ =~= orig.take(rest@.len() as int));
    }
    while rest.len() > 0
        invariant
            ranked(out@),
            out@.to_multiset().add(rest@.to_multiset()) == orig.to_multiset(),
            rest@.len() <= orig.len(),
            rest@ == orig.take(rest@.len() as int),
            out@ == stable_sort_desc(orig.skip(rest@.len() as int)),
        decreases rest@.len(),
    {
        let ghost rest0 = rest@;
        let x = rest.pop().unwrap();
        proof {
            assert(rest0 =~= rest@.push(x));
            assert(rest@.push(x).to_multiset() == rest@.to_multiset().insert(x));
            assert(rest@ =~= orig.take(rest@.len() as int));
        }
        let mut j: usize = 0;
        while j < out.len() && out[j].cpu > x.cpu
            invariant
                j <= out@.len(),
                forall|k: int| 0 <= k < j ==> (#[trigger] out@[k]).cpu > x.cpu,
            decreases out@.len() - j,
        {
            j = j + 1;
        }
        let ghost out0 = out@;
        out.insert(j, x);
        proof {
            let m = rest0.len() as int;
            assert(1 <= m <= orig.len());
            assert(x == rest0[m - 1]);
            assert(x == orig[m - 1]);
            assert(orig.skip(m - 1).first() == x);
            assert(orig.skip(m - 1).drop_first() =~= orig.skip(m));
            lemma_insert_at_place(x, out0, j as int);
            assert(out@ == place_desc(x, stable_sort_desc(orig.skip(m))));
            assert(out@ == stable_sort_desc(orig.skip(m - 1)));
            assert(out0.insert(j as int, x).to_multiset() == out0.to_multiset().insert(x));
            assert(out@.to_multiset().add(rest@.to_multiset()) =~= orig.to_multiset());
            assert(forall|k: int| 0 <= k < j ==> out@[k] == out0[k]);
            assert(out@[j as int] == x);
            assert(forall|k: int| j < k < out@.len() ==> out@[k] == out0[k - 1]);
            assert forall|a: int, b: int| #![trigger out@[a], out@[b]]
                0 <= a <= b < out@.len() implies out@[a].cpu >= out@[b].cpu by {
                if a < j && b == j {
                    assert(out0[a].cpu > x.cpu);
                } else if a == j && b > j {
                    if j < out0.len() {
                        assert(out0[j as int].cpu <= x.cpu);
                        assert(out0[j as int].cpu >= out0[b - 1].cpu);
                    }
                }
            }
        }
    }
    proof {
        assert(rest@.to_multiset().len() == 0);
        assert(rest@.to_multiset() =~= Multiset::empty());
        assert(out@.to_multiset() =~= orig.to_multiset());
        assert(orig.skip(0) =~= orig);
    }
    out
}

/// The top `TOP_N` process entries by CPU share: a stable descending
/// sort of the enumerated entries, truncated to the first `TOP_N`.
pub fn top_processes(procs: Vec<ProcessStats>) -> (r: Vec<ProcessStats>)
    ensures
        is_top_ranked(r@, procs@),
        proc_seq_ok(procs@) ==> proc_seq_ok(r@),
{
    let ghost orig = procs@;
    let mut sorted = sort_desc(procs);
    let ghost full = sorted@;
    if sorted.len() > TOP_N {
        sorted.truncate(TOP_N);
        proof {
            lemma_truncated_top(full, sorted@, orig);
        }
    }
    proof {
        assert(full.to_multiset().len() == orig.to_multiset().len());
        if orig.len() <= TOP_N {
            assert(sorted@ == full);
            assert(sorted@ == full.subrange(0, sorted@.len() as int)) by {
                assert(full =~= full.subrange(0, full.len() as int));
            }
        }
        if proc_seq_ok(orig) {
            assert forall|i: int| 0 <= i < sorted@.len() implies crate::model::percent_ok(
                (#[trigger] sorted@[i]).cpu,
            ) by {
                assert(sorted@.to_multiset().count(sorted@[i]) > 0);
                assert(orig.to_multiset().count(sorted@[i]) > 0);
                assert(orig.contains(sorted@[i]));
                let k = choose|k: int| 0 <= k < orig.len() && orig[k] == sorted@[i];
                assert(crate::model::percent_ok(orig[k].cpu));
            }
        }
    }
    sorted
}

/// After truncating a sorted sequence to its first `TOP_N` entries,
/// every entry left behind has a CPU share no greater than the last
/// kept one, and the kept entries are a sub-collection of the input.
proof fn lemma_truncated_top(full: Seq<ProcessStats>, kept: Seq<ProcessStats>, orig: Seq<ProcessStats>)
    requires
        ranked(full),
        full.to_multiset() == orig.to_multiset(),
        full.len() > TOP_N,
        kept == full.subrange(0, TOP_N as int),
    ensures
        ranked(kept),
        kept.len() == TOP_N,
        kept.to_multiset().subset_of(orig.to_multiset()),
        forall|p: ProcessStats|
            orig.to_multiset().sub(kept.to_multiset()).count(p) > 0 ==> p.cpu <= kept[
                TOP_N as int - 1
            ].cpu,
{
    let tail = full.subrange(TOP_N as int, full.len() as int);
    assert(full =~= kept + tail);
    vstd::seq_lib::lemma_multiset_commutative(kept, tail);
    assert(orig.to_multiset() == kept.to_multiset().add(tail.to_multiset()));
    assert(orig.to_multiset().sub(kept.to_multiset()) =~= tail.to_multiset());
    assert forall|p: ProcessStats|
        orig.to_multiset().sub(kept.to_multiset()).count(p) > 0 implies p.cpu <= kept[
        TOP_N as int - 1
    ].cpu by {
        assert(tail.to_multiset().count(p) > 0);
        assert(tail.contains(p));
        let k = choose|k: int| 0 <= k < tail.len() && tail[k] == p;
        assert(full[TOP_N + k] == p);
        assert(full[TOP_N as int - 1].cpu >= full[TOP_N + k].cpu);
        assert(kept[TOP_N as int - 1] == full[TOP_N as int - 1]);
    }
}

} // verus!
