use vstd::prelude::*;
use crate::record::{cpu_rank, cpu_rank_spec, ProcessRecord};

verus! {

broadcast use vstd::seq_lib::group_to_multiset_ensures, vstd::multiset::group_multiset_axioms;

/// The display order: higher CPU rank comes first; equal ranks order by
/// ascending pid, so that ties (say, two idle processes) are
/// deterministic and testable.
pub open spec fn record_le(a: ProcessRecord, b: ProcessRecord) -> bool {
    let ra = cpu_rank_spec(a.cpu_bits);
    let rb = cpu_rank_spec(b.cpu_bits);
    ra > rb || (ra == rb && a.pid <= b.pid)
}

fn record_le_exec(a: &ProcessRecord, b: &ProcessRecord) -> (r: bool)
    ensures
        r == record_le(*a, *b),
{
    let ra = cpu_rank(a.cpu_bits);
    let rb = cpu_rank(b.cpu_bits);
    ra > rb || (ra == rb && a.pid <= b.pid)
}

/// Every pair of positions respects the display order.
pub open spec fn sorted_by_policy(s: Seq<ProcessRecord>) -> bool {
    forall|i: int, j: int| 0 <= i <= j < s.len() ==> record_le(#[trigger] s[i], #[trigger] s[j])
}

/// No two records carry the same CPU rank.
pub open spec fn distinct_cpu(s: Seq<ProcessRecord>) -> bool {
    forall|i: int, j: int|
        0 <= i < j < s.len() ==> cpu_rank_spec(#[trigger] s[i].cpu_bits) != cpu_rank_spec(
            #[trigger] s[j].cpu_bits,
        )
}

/// Where a record lands when inserted into an ordered sequence: before
/// the first element it precedes in the display order.
pub open spec fn insert_sorted(x: ProcessRecord, s: Seq<ProcessRecord>) -> Seq<ProcessRecord>
    decreases s.len(),
{
    if s.len() == 0 {
        seq![x]
    } else if record_le(x, s[0]) {
        seq![x] + s
    } else {
        seq![s[0]] + insert_sorted(x, s.drop_first())
    }
}

/// The ordered arrangement of a sequence of records: each record in
/// turn inserted at its place (insertion sort).
pub open spec fn sort_spec(s: Seq<ProcessRecord>) -> Seq<ProcessRecord>
    decreases s.len(),
{
    if s.len() == 0 {
        Seq::empty()
    } else {
        insert_sorted(s.last(), sort_spec(s.drop_last()))
    }
}

/// What selection returns: the ordered arrangement, capped at `limit`.
pub open spec fn select_spec(s: Seq<ProcessRecord>, limit: int) -> Seq<ProcessRecord> {
    if s.len() <= limit {
        sort_spec(s)
    } else {
        sort_spec(s).take(limit)
    }
}

proof fn lemma_insert_sorted_len(x: ProcessRecord, s: Seq<ProcessRecord>)
    ensures
        insert_sorted(x, s).len() == s.len() + 1,
    decreases s.len(),
{
    if s.len() > 0 && !record_le(x, s[0]) {
        lemma_insert_sorted_len(x, s.drop_first());
    }
}

pub proof fn lemma_sort_spec_len(s: Seq<ProcessRecord>)
    ensures
        sort_spec(s).len() == s.len(),
    decreases s.len(),
{
    if s.len() > 0 {
        lemma_sort_spec_len(s.drop_last());
        lemma_insert_sorted_len(s.last(), sort_spec(s.drop_last()));
    }
}

proof fn lemma_insert_sorted_at(x: ProcessRecord, s: Seq<ProcessRecord>, j: int)
    requires
        0 <= j <= s.len(),
        forall|k: int| 0 <= k < j ==> !record_le(x, #[trigger] s[k]),
        j < s.len() ==> record_le(x, s[j]),
    ensures
        insert_sorted(x, s) == s.insert(j, x),
    decreases s.len(),
{
    if s.len() == 0 {
        assert(insert_sorted(x, s) =~= s.insert(0, x));
    } else if j == 0 {
        assert(insert_sorted(x, s) =~= s.insert(0, x));
    } else {
        lemma_insert_sorted_at(x, s.drop_first(), j - 1);
        assert(seq![s[0]] + s.drop_first().insert(j - 1, x) =~= s.insert(j, x));
    }
}

fn insert_in_order(v: &mut Vec<ProcessRecord>, x: ProcessRecord)
    ensures
        final(v)@ == insert_sorted(x, old(v)@),
{
    let mut j: usize = 0;
    loop
        invariant
            j <= v.len(),
            v@ == old(v)@,
            forall|k: int| 0 <= k < j ==> !record_le(x, #[trigger] v@[k]),
        ensures
            j <= v.len(),
            v@ == old(v)@,
            forall|k: int| 0 <= k < j ==> !record_le(x, #[trigger] v@[k]),
            j == v.len() || record_le(x, v@[j as int]),
        decreases v.len() - j,
    {
        if j == v.len() {
            break ;
        }
        if record_le_exec(&x, &v[j]) {
            break ;
        }
        j += 1;
    }
    proof {
        lemma_insert_sorted_at(x, v@, j as int);
    }
    v.insert(j, x);
}

/// Picks the bounded, ordered subset of a cycle's records to display:
/// CPU usage descending, pid ascending on ties, capped at `limit`.
/// Pure: the result is a function of the inputs alone.
pub fn select(records: Vec<ProcessRecord>, limit: usize) -> (r: Vec<ProcessRecord>)
    ensures
        r@ == select_spec(records@, limit as int),
        r@.len() == if records@.len() <= limit { records@.len() } else { limit as nat },
{
    let ghost orig = records@;
    let mut rest = records;
    let mut sorted: Vec<ProcessRecord> = Vec::new();
    while rest.len() > 0
        invariant
            rest@.len() <= orig.len(),
            rest@ == orig.skip(orig.len() - rest@.len()),
            sorted@ == sort_spec(orig.take(orig.len() - rest@.len())),
        decreases rest@.len(),
    {
        let ghost k = orig.len() - rest@.len();
        let x = rest.remove(0);
        proof {
            assert(x == orig[k as int]);
            assert(rest@ =~= orig.skip(k + 1));
        }
        insert_in_order(&mut sorted, x);
        proof {
            assert(orig.take(k + 1).drop_last() =~= orig.take(k as int));
            assert(orig.take(k + 1).last() == orig[k as int]);
            assert(sorted@ == sort_spec(orig.take(k + 1)));
        }
    }
    proof {
        assert(orig.take(orig.len() as int) =~= orig);
        lemma_sort_spec_len(orig);
    }
    sorted.truncate(limit);
    proof {
        if orig.len() > limit {
            assert(sort_spec(orig).subrange(0, limit as int) =~= sort_spec(orig).take(
                limit as int,
            ));
        }
    }
    sorted
}

proof fn lemma_insert_sorted_preserves(x: ProcessRecord, s: Seq<ProcessRecord>)
    requires
        sorted_by_policy(s),
    ensures
        sorted_by_policy(insert_sorted(x, s)),
        insert_sorted(x, s).to_multiset() == s.to_multiset().insert(x),
    decreases s.len(),
{
    let t = insert_sorted(x, s);
    lemma_insert_sorted_len(x, s);
    if s.len() == 0 {
        assert(seq![x] =~= Seq::<ProcessRecord>::empty().push(x));
        assert(t.to_multiset() =~= s.to_multiset().insert(x));
    } else if record_le(x, s[0]) {
        assert forall|i: int, j: int| 0 <= i <= j < t.len() implies record_le(t[i], t[j]) by {
            if i == 0 && j > 0 {
                assert(t[j] == s[j - 1]);
                assert(record_le(s[0], s[j - 1]));
            }
        }
        assert(t =~= (seq![x] + s.take(s.len() - 1)).push(s.last()));
        lemma_multiset_push_front(x, s);
    } else {
        let s1 = s.drop_first();
        assert(sorted_by_policy(s1)) by {
            assert forall|i: int, j: int| 0 <= i <= j < s1.len() implies record_le(
                s1[i],
                s1[j],
            ) by {
                assert(s1[i] == s[i + 1] && s1[j] == s[j + 1]);
            }
        }
        lemma_insert_sorted_preserves(x, s1);
        let t1 = insert_sorted(x, s1);
        assert(t =~= seq![s[0]] + t1);
        // the head stays minimal: every element of t1 is x or an element
        // of s1, and s[0] precedes both
        assert forall|i: int, j: int| 0 <= i <= j < t.len() implies record_le(t[i], t[j]) by {
            if i == 0 && j > 0 {
                assert(t[j] == t1[j - 1]);
                assert(t1.to_multiset().contains(t1[j - 1]));
                if t1[j - 1] != x {
                    assert(s1.to_multiset().contains(t1[j - 1]));
                    assert(s1.contains(t1[j - 1]));
                    let w = choose|w: int| 0 <= w < s1.len() && s1[w] == t1[j - 1];
                    assert(record_le(s[0], s[w + 1]));
                } else {
                    // !record_le(x, s[0]) and the order is total
                    assert(record_le(s[0], x));
                }
            } else if i > 0 {
                assert(t[i] == t1[i - 1] && t[j] == t1[j - 1]);
            }
        }
        assert(t.to_multiset() == s.to_multiset().insert(x)) by {
            lemma_multiset_push_front(s[0], s1);
            lemma_multiset_push_front(s[0], t1);
            assert(seq![s[0]] + s1 =~= s);
            assert(t.to_multiset() =~= s.to_multiset().insert(x));
        }
    }
}

proof fn lemma_multiset_push_front(x: ProcessRecord, s: Seq<ProcessRecord>)
    ensures
        (seq![x] + s).to_multiset() == s.to_multiset().insert(x),
    decreases s.len(),
{
    if s.len() == 0 {
        assert(seq![x] + s =~= Seq::<ProcessRecord>::empty().push(x));
        assert((seq![x] + s).to_multiset() =~= s.to_multiset().insert(x));
    } else {
        assert(seq![x] + s =~= (seq![x] + s.drop_last()).push(s.last()));
        lemma_multiset_push_front(x, s.drop_last());
        assert(s =~= s.drop_last().push(s.last()));
        assert((seq![x] + s).to_multiset() =~= s.to_multiset().insert(x));
    }
}

/// The ordered arrangement is sorted by the display order and holds
/// exactly the records it was given, as a multiset.
pub proof fn lemma_sort_spec_ensures(s: Seq<ProcessRecord>)
    ensures
        sorted_by_policy(sort_spec(s)),
        sort_spec(s).to_multiset() == s.to_multiset(),
    decreases s.len(),
{
    if s.len() == 0 {
    } else {
        lemma_sort_spec_ensures(s.drop_last());
        lemma_insert_sorted_preserves(s.last(), sort_spec(s.drop_last()));
        assert(s.drop_last().push(s.last()) =~= s);
    }
}

proof fn lemma_sorted_unique(a: Seq<ProcessRecord>, b: Seq<ProcessRecord>)
    requires
        sorted_by_policy(a),
        sorted_by_policy(b),
        a.to_multiset() == b.to_multiset(),
        distinct_cpu(a),
    ensures
        a == b,
    decreases a.len(),
{
    assert(a.to_multiset().len() == a.len());
    assert(b.to_multiset().len() == b.len());
    if a.len() == 0 {
        assert(a =~= b);
    } else {
        assert(a.contains(a[0]));
        assert(b.contains(b[0]));
        assert(b.to_multiset().contains(a[0]));
        assert(b.contains(a[0]));
        let kb = choose|k: int| 0 <= k < b.len() && b[k] == a[0];
        assert(a.to_multiset().contains(b[0]));
        assert(a.contains(b[0]));
        let ka = choose|k: int| 0 <= k < a.len() && a[k] == b[0];
        assert(record_le(b[0], b[kb]));
        assert(record_le(a[0], a[ka]));
        if ka != 0 {
            // both directions of the order pin the two CPU ranks equal,
            // which distinctness forbids at two different positions
            assert(cpu_rank_spec(a[0].cpu_bits) == cpu_rank_spec(a[ka].cpu_bits));
            assert(false);
        }
        assert(a[0] == b[0]);
        let a1 = a.drop_first();
        let b1 = b.drop_first();
        assert(a.remove(0) =~= a1);
        assert(b.remove(0) =~= b1);
        assert(a.remove(0).to_multiset() =~= a.to_multiset().remove(a[0]));
        assert(b.remove(0).to_multiset() =~= b.to_multiset().remove(b[0]));
        assert(a1.to_multiset() == b1.to_multiset());
        assert(sorted_by_policy(a1)) by {
            assert forall|i: int, j: int| 0 <= i <= j < a1.len() implies record_le(
                a1[i],
                a1[j],
            ) by {
                assert(a1[i] == a[i + 1] && a1[j] == a[j + 1]);
            }
        }
        assert(sorted_by_policy(b1)) by {
            assert forall|i: int, j: int| 0 <= i <= j < b1.len() implies record_le(
                b1[i],
                b1[j],
            ) by {
                assert(b1[i] == b[i + 1] && b1[j] == b[j + 1]);
            }
        }
        assert(distinct_cpu(a1)) by {
            assert forall|i: int, j: int| 0 <= i < j < a1.len() implies cpu_rank_spec(
                a1[i].cpu_bits,
            ) != cpu_rank_spec(a1[j].cpu_bits) by {
                assert(a1[i] == a[i + 1] && a1[j] == a[j + 1]);
            }
        }
        lemma_sorted_unique(a1, b1);
        assert(a.len() == b.len());
        assert forall|k: int| 0 <= k < a.len() implies a[k] == b[k] by {
            if k > 0 {
                assert(a[k] == a1[k - 1]);
                assert(b[k] == b1[k - 1]);
            }
        }
        assert(a =~= b);
    }
}

proof fn lemma_distinct_carries_over(s: Seq<ProcessRecord>, t: Seq<ProcessRecord>)
    requires
        t.to_multiset() == s.to_multiset(),
        distinct_cpu(s),
    ensures
        distinct_cpu(t),
{
    assert(s.no_duplicates()) by {
        assert forall|i: int, j: int|
            0 <= i < s.len() && 0 <= j < s.len() && i != j implies s[i] != s[j] by {
            if s[i] == s[j] {
                assert(cpu_rank_spec(s[i].cpu_bits) == cpu_rank_spec(s[j].cpu_bits));
            }
        }
    }
    s.lemma_multiset_has_no_duplicates();
    t.lemma_multiset_has_no_duplicates_conv();
    assert forall|i: int, j: int| 0 <= i < j < t.len() implies cpu_rank_spec(
        #[trigger] t[i].cpu_bits,
    ) != cpu_rank_spec(#[trigger] t[j].cpu_bits) by {
        assert(t[i] != t[j]);
        assert(t.contains(t[i]) && t.contains(t[j]));
        assert(s.to_multiset().contains(t[i]) && s.to_multiset().contains(t[j]));
        assert(s.contains(t[i]) && s.contains(t[j]));
        let ki = choose|k: int| 0 <= k < s.len() && s[k] == t[i];
        let kj = choose|k: int| 0 <= k < s.len() && s[k] == t[j];
        assert(ki != kj);
        assert(cpu_rank_spec(s[ki].cpu_bits) != cpu_rank_spec(s[kj].cpu_bits));
    }
}

/// Determinism of selection: over a fixed multiset of records whose CPU
/// usage values are pairwise distinct, selection yields one and the same
/// ordered output, however the snapshot arranged the records.
pub proof fn lemma_select_deterministic(
    s1: Seq<ProcessRecord>,
    s2: Seq<ProcessRecord>,
    limit: int,
)
    requires
        s1.to_multiset() == s2.to_multiset(),
        distinct_cpu(s1),
    ensures
        select_spec(s1, limit) == select_spec(s2, limit),
{
    lemma_sort_spec_ensures(s1);
    lemma_sort_spec_ensures(s2);
    lemma_sort_spec_len(s1);
    lemma_sort_spec_len(s2);
    lemma_distinct_carries_over(s1, sort_spec(s1));
    lemma_sorted_unique(sort_spec(s1), sort_spec(s2));
    assert(s1.to_multiset().len() == s1.len());
    assert(s2.to_multiset().len() == s2.len());
}

} // verus!
