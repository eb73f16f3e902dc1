use vstd::multiset::Multiset;
use vstd::prelude::*;

use crate::models::ProcRow;

verus! {

broadcast use vstd::seq_lib::group_to_multiset_ensures, vstd::multiset::group_multiset_axioms;

/// Rows ordered from the highest CPU utilisation to the lowest.
pub open spec fn sorted_by_cpu_desc(s: Seq<ProcRow>) -> bool {
    forall|i: int, j: int| 0 <= i < j < s.len() ==> s[i].cpu >= s[j].cpu
}

/// Holds of the rows whose CPU utilisation is `c`.
pub open spec fn cpu_is(c: u32) -> spec_fn(ProcRow) -> bool {
    |x: ProcRow| x.cpu == c
}

/// The rows whose CPU utilisation is `c`, in their order in `s`.
pub open spec fn with_cpu(s: Seq<ProcRow>, c: u32) -> Seq<ProcRow> {
    s.filter(cpu_is(c))
}

/// Inserting `x` where every earlier row has a higher CPU puts it first among
/// the rows of its own CPU and leaves the other CPUs' rows as they were.
proof fn lemma_insert_before_equals(s: Seq<ProcRow>, j: int, x: ProcRow, c: u32)
    requires
        0 <= j <= s.len(),
        forall|k: int| 0 <= k < j ==> s[k].cpu > x.cpu,
    ensures
        with_cpu(s.insert(j, x), c) == if x.cpu == c {
            seq![x] + with_cpu(s, c)
        } else {
            with_cpu(s, c)
        },
{
    let a = s.subrange(0, j);
    let b = s.subrange(j, s.len() as int);
    let p = cpu_is(c);
    assert(s =~= a + b);
    assert(s.insert(j, x) =~= a + (seq![x] + b));
    Seq::filter_distributes_over_add(a, b, p);
    Seq::filter_distributes_over_add(a, seq![x] + b, p);
    b.lemma_filter_prepend(x, p);
    if x.cpu == c {
        assert(a.all(|y: ProcRow| !p(y)));
        a.lemma_all_neg_filter_empty(p);
        assert(a.filter(p) =~= Seq::<ProcRow>::empty());
        assert(a.filter(p) + (seq![x] + b.filter(p)) =~= seq![x] + (a.filter(p) + b.filter(p)));
    } else {
        assert(a.filter(p) + (Seq::<ProcRow>::empty() + b.filter(p)) =~= a.filter(p) + b.filter(
            p,
        ));
    }
}

/// Orders rows by descending CPU utilisation. Rows of equal CPU keep their
/// relative order, so the result depends on the input order alone.
pub fn sort_by_cpu_desc(rows: Vec<ProcRow>) -> (r: Vec<ProcRow>)
    ensures
        r@.to_multiset() == rows@.to_multiset(),
        r@.len() == rows@.len(),
        sorted_by_cpu_desc(r@),
        forall|c: u32| #[trigger] with_cpu(r@, c) == with_cpu(rows@, c),
{
    let mut rest = rows;
    let mut out: Vec<ProcRow> = Vec::new();
    proof {
        assert(out@.to_multiset() =~= Multiset::<ProcRow>::empty());
        assert(out@.to_multiset().add(rest@.to_multiset()) =~= rows@.to_multiset());
        assert forall|c: u32| #[trigger]
            with_cpu(rest@, c) + with_cpu(out@, c) == with_cpu(rows@, c) by {
            assert(with_cpu(out@, c) =~= Seq::<ProcRow>::empty()) by {
                reveal(Seq::filter);
            }
            assert(with_cpu(rest@, c) + with_cpu(out@, c) =~= with_cpu(rows@, c));
        }
    }
    while rest.len() > 0
        invariant
            out@.to_multiset().add(rest@.to_multiset()) == rows@.to_multiset(),
            sorted_by_cpu_desc(out@),
            forall|c: u32| #[trigger]
                with_cpu(rest@, c) + with_cpu(out@, c) == with_cpu(rows@, c),
        decreases rest.len(),
    {
        let ghost rest0 = rest@;
        let ghost out0 = out@;
        let x = rest.pop().unwrap();
        proof {
            assert(rest0 =~= rest@.push(x));
        }
        let mut j: usize = 0;
        while j < out.len() && out[j].cpu > x.cpu
            invariant
                j <= out@.len(),
                out@ == out0,
                forall|k: int| 0 <= k < j ==> out@[k].cpu > x.cpu,
            decreases out@.len() - j,
        {
            j = j + 1;
        }
        out.insert(j, x);
        proof {
            let s = out@;
            assert(s =~= out0.insert(j as int, x));
            assert forall|a: int, b: int| 0 <= a < b < s.len() implies s[a].cpu >= s[b].cpu by {
                if b < j {
                } else if b == j {
                    assert(s[a] == out0[a]);
                } else if a < j {
                    assert(s[a] == out0[a]);
                    assert(s[b] == out0[b - 1]);
                    if j < out0.len() {
                        assert(out0[j as int].cpu <= x.cpu);
                        assert(out0[b - 1].cpu <= out0[j as int].cpu || b - 1 == j);
                    }
                } else if a == j {
                    assert(s[b] == out0[b - 1]);
                    assert(out0[j as int].cpu <= x.cpu);
                    assert(out0[b - 1].cpu <= out0[j as int].cpu || b - 1 == j);
                } else {
                    assert(s[a] == out0[a - 1]);
                    assert(s[b] == out0[b - 1]);
                }
            }
            assert forall|c: u32| #[trigger]
                with_cpu(rest@, c) + with_cpu(out@, c) == with_cpu(rows@, c) by {
                lemma_insert_before_equals(out0, j as int, x, c);
                rest@.lemma_filter_push(x, cpu_is(c));
                assert(with_cpu(rest0, c) + with_cpu(out0, c) == with_cpu(rows@, c));
                if x.cpu == c {
                    assert(with_cpu(rest@, c) + (seq![x] + with_cpu(out0, c)) =~= with_cpu(
                        rest@,
                        c,
                    ).push(x) + with_cpu(out0, c));
                }
            }
            assert(out@.to_multiset() == out0.to_multiset().insert(x));
            assert(rest0.to_multiset() == rest@.to_multiset().insert(x));
            assert(out@.to_multiset().add(rest@.to_multiset()) =~= out0.to_multiset().add(
                rest0.to_multiset(),
            ));
        }
    }
    proof {
        assert(rest@.to_multiset() =~= Multiset::<ProcRow>::empty());
        assert(out@.to_multiset() =~= rows@.to_multiset());
        assert forall|c: u32| #[trigger] with_cpu(out@, c) == with_cpu(rows@, c) by {
            assert(with_cpu(rest@, c) =~= Seq::<ProcRow>::empty()) by {
                reveal(Seq::filter);
            }
            assert(with_cpu(rest@, c) + with_cpu(out@, c) == with_cpu(rows@, c));
            assert(Seq::<ProcRow>::empty() + with_cpu(out@, c) =~= with_cpu(out@, c));
        }
        rows@.to_multiset_ensures();
        out@.to_multiset_ensures();
    }
    out
}

} // verus!
