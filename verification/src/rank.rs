use vstd::prelude::*;

use crate::action::ActionType;
use crate::post::Post;
use partial_sort::PartialSort;
use vstd::multiset::Multiset;

verus! {

broadcast use vstd::seq_lib::group_to_multiset_ensures, vstd::multiset::group_multiset_axioms;

/// Sort key of an optional count: a missing count ranks strictly below every
/// observed count, including an observed zero or `i32::MIN`.
pub open spec fn count_key(c: Option<i32>) -> int {
    match c {
        Some(v) => v as int,
        None => i32::MIN as int - 1,
    }
}

/// `a` ranks strictly before `b` for the given metric: a strictly larger
/// count wins, and equal counts are broken by the more recent timestamp.
pub open spec fn rank_lt(act: ActionType, a: Post, b: Post) -> bool {
    ||| count_key(a.count_spec(act)) > count_key(b.count_spec(act))
    ||| (count_key(a.count_spec(act)) == count_key(b.count_spec(act)) && a.date > b.date)
}

/// `a` ranks no worse than `b` for the given metric.
pub open spec fn rank_le(act: ActionType, a: Post, b: Post) -> bool {
    ||| count_key(a.count_spec(act)) > count_key(b.count_spec(act))
    ||| (count_key(a.count_spec(act)) == count_key(b.count_spec(act)) && a.date >= b.date)
}

/// A ranking laid out from best to worst for the given metric.
pub open spec fn sorted_by_rank(act: ActionType, s: Seq<Post>) -> bool {
    forall|i: int, j: int| 0 <= i < j < s.len() ==> rank_le(act, s[i], s[j])
}

/// `out` is a top-`k` ranking of the multiset `input` for the given metric:
/// it has `min(k, |input|)` entries drawn from `input`, laid out from best to
/// worst, and every entry ranks no worse than everything left behind.
pub open spec fn is_top_k(act: ActionType, input: Multiset<Post>, out: Seq<Post>, k: int) -> bool {
    &&& out.len() == vstd::math::min(k, input.len() as int)
    &&& out.to_multiset().subset_of(input)
    &&& sorted_by_rank(act, out)
    &&& forall|i: int, p: Post|
        #![trigger out[i], input.sub(out.to_multiset()).count(p)]
        0 <= i < out.len() && input.sub(out.to_multiset()).count(p) > 0 ==> rank_le(act, out[i], p)
}

/// Whether `a` ranks strictly before `b` for the given metric.
pub(crate) fn rank_before(a: &Post, b: &Post, act: ActionType) -> (r: bool)
    ensures
        r == rank_lt(act, *a, *b),
{
    match (a.count(act), b.count(act)) {
        (Some(x), Some(y)) => x > y || (x == y && a.date > b.date),
        (Some(_), None) => true,
        (None, Some(_)) => false,
        (None, None) => a.date > b.date,
    }
}

/// Relies on `partial_sort::PartialSort::partial_sort` (crate `partial_sort`):
/// it rearranges the slice so that the range `[0, k)` holds the `k` smallest
/// elements under the comparator in ascending order, and panics if
/// `k > len`. The comparator used here is the strict ranking order
/// `rank_lt`, so the first `k` posts are the best-ranked posts of the whole
/// vector, best first, and every one of them ranks no worse than every post
/// left in `[k, len)`.
#[verifier::external_body]
fn sort_top_to_front(posts: &mut Vec<Post>, k: usize, act: ActionType)
    requires
        k <= old(posts).len(),
    ensures
        final(posts)@.len() == old(posts)@.len(),
        final(posts)@.to_multiset() == old(posts)@.to_multiset(),
        forall|i: int, j: int|
            0 <= i < j < k as int ==> rank_le(act, final(posts)@[i], final(posts)@[j]),
        forall|i: int, j: int|
            0 <= i < k as int && k as int <= j < final(posts)@.len()
                ==> rank_le(act, final(posts)@[i], final(posts)@[j]),
{
    posts.partial_sort(k, |a, b| {
        if rank_before(a, b, act) {
            core::cmp::Ordering::Less
        } else if rank_before(b, a, act) {
            core::cmp::Ordering::Greater
        } else {
            core::cmp::Ordering::Equal
        }
    });
}

/// Select the `k` best-ranked posts for one metric.
///
/// The input vector is reordered (its contents are preserved as a multiset)
/// and the returned vector is a copy of the best `min(k, len)` posts, best
/// first.
pub(crate) fn select_top(posts: &mut Vec<Post>, k: usize, act: ActionType) -> (r: Vec<Post>)
    ensures
        final(posts)@.len() == old(posts)@.len(),
        final(posts)@.to_multiset() == old(posts)@.to_multiset(),
        is_top_k(act, old(posts)@.to_multiset(), r@, k as int),
        r@.len() == vstd::math::min(k as int, old(posts)@.len() as int),
{
    let mut eff = k;
    if posts.len() < eff {
        eff = posts.len();
    }
    sort_top_to_front(posts, eff, act);
    let mut r: Vec<Post> = Vec::new();
    let mut i: usize = 0;
    while i < eff
        invariant
            i <= eff,
            eff <= posts@.len(),
            r@ == posts@.subrange(0, i as int),
        decreases eff - i,
    {
        r.push(posts[i].clone());
        proof {
            assert(r@ =~= posts@.subrange(0, i + 1 as int));
        }
        i = i + 1;
    }
    proof {
        let full = posts@;
        let m = old(posts)@.to_multiset();
        let pre = full.subrange(0, eff as int);
        let suf = full.subrange(eff as int, full.len() as int);
        assert(full =~= pre + suf);
        vstd::seq_lib::lemma_multiset_commutative(pre, suf);
        assert(m =~= pre.to_multiset().add(suf.to_multiset()));
        assert(m.sub(pre.to_multiset()) =~= suf.to_multiset());
        assert(r@ == pre);
        assert forall|i2: int, p: Post|
            #![trigger pre[i2], m.sub(pre.to_multiset()).count(p)]
            0 <= i2 < pre.len() && m.sub(pre.to_multiset()).count(p) > 0 implies rank_le(
            act,
            pre[i2],
            p,
        ) by {
            assert(suf.to_multiset().count(p) > 0);
            assert(suf.contains(p));
            let j = choose|j: int| 0 <= j < suf.len() && suf[j] == p;
            assert(full[eff + j] == p);
            assert(rank_le(act, full[i2], full[eff + j]));
        }
        assert(is_top_k(act, m, r@, k as int));
    }
    r
}

/// No two distinct posts of `m` tie on the ranking key: sharing both the
/// count for the metric and the timestamp forces the posts to be equal.
pub open spec fn distinct_rank_keys(act: ActionType, m: Multiset<Post>) -> bool {
    forall|p: Post, q: Post|
        m.contains(p) && m.contains(q) && count_key(p.count_spec(act)) == count_key(
            q.count_spec(act),
        ) && p.date == q.date ==> p == q
}

/// The head of a top-`k` ranking ranks no worse than anything in the input.
proof fn lemma_top_head_le_all(
    act: ActionType,
    input: Multiset<Post>,
    out: Seq<Post>,
    k: int,
    x: Post,
)
    requires
        is_top_k(act, input, out, k),
        out.len() > 0,
        input.contains(x),
    ensures
        rank_le(act, out[0], x),
{
    let tm = out.to_multiset();
    if input.sub(tm).count(x) > 0 {
        assert(rank_le(act, out[0], x));
    } else {
        assert(tm.count(x) > 0);
        assert(out.contains(x));
        let j = choose|j: int| 0 <= j < out.len() && out[j] == x;
        if j > 0 {
            assert(rank_le(act, out[0], out[j]));
        }
    }
}

/// Stability law: the top-`k` selection is a function of the input multiset
/// and `k` alone. Any two top-`k` rankings of the same input for the same
/// metric are equal — re-running the selector, or permuting the input first,
/// cannot change the result — provided no two distinct posts of the input tie
/// on both the metric's count and the timestamp.
pub proof fn lemma_top_k_unique(
    act: ActionType,
    input: Multiset<Post>,
    out1: Seq<Post>,
    out2: Seq<Post>,
    k: int,
)
    requires
        is_top_k(act, input, out1, k),
        is_top_k(act, input, out2, k),
        distinct_rank_keys(act, input),
    ensures
        out1 == out2,
    decreases out1.len(),
{
    if out1.len() == 0 {
        assert(out1 =~= out2);
    } else {
        let h1 = out1[0];
        let h2 = out2[0];
        assert(out1.contains(h1));
        assert(out2.contains(h2));
        assert(out1.to_multiset().count(h1) > 0);
        assert(out2.to_multiset().count(h2) > 0);
        assert(input.contains(h1));
        assert(input.contains(h2));
        lemma_top_head_le_all(act, input, out1, k, h2);
        lemma_top_head_le_all(act, input, out2, k, h1);
        assert(h1 == h2);

        let input2 = input.remove(h1);
        let o1 = out1.remove(0);
        let o2 = out2.remove(0);
        assert(o1.to_multiset() == out1.to_multiset().remove(h1));
        assert(o2.to_multiset() == out2.to_multiset().remove(h1));
        assert(Multiset::singleton(h1).subset_of(input)) by {
            assert(Multiset::singleton(h1).count(h1) == 1);
        }
        assert(input2.len() == input.len() - 1);

        assert(is_top_k(act, input2, o1, k - 1)) by {
            lemma_top_k_step(act, input, out1, k);
        }
        assert(is_top_k(act, input2, o2, k - 1)) by {
            lemma_top_k_step(act, input, out2, k);
        }
        assert(distinct_rank_keys(act, input2)) by {
            assert(forall|p: Post| input2.contains(p) ==> input.contains(p));
        }
        lemma_top_k_unique(act, input2, o1, o2, k - 1);
        assert(out1 =~= out2) by {
            assert forall|i: int| 0 <= i < out1.len() implies out1[i] == out2[i] by {
                if i > 0 {
                    assert(out1[i] == o1[i - 1]);
                    assert(out2[i] == o2[i - 1]);
                }
            }
        }
    }
}

/// Removing the head of a top-`k` ranking from it and from the input leaves
/// a top-`k - 1` ranking of the remaining input.
proof fn lemma_top_k_step(act: ActionType, input: Multiset<Post>, out: Seq<Post>, k: int)
    requires
        is_top_k(act, input, out, k),
        out.len() > 0,
    ensures
        is_top_k(act, input.remove(out[0]), out.remove(0), k - 1),
{
    let h = out[0];
    let input2 = input.remove(h);
    let o = out.remove(0);
    assert(out.contains(h));
    assert(out.to_multiset().count(h) > 0);
    assert(input.contains(h));
    assert(o.to_multiset() == out.to_multiset().remove(h));
    assert(Multiset::singleton(h).subset_of(input)) by {
        assert(Multiset::singleton(h).count(h) == 1);
    }
    assert(input2.len() == input.len() - 1);
    assert(o.len() == vstd::math::min(k - 1, input2.len() as int));
    assert(o.to_multiset().subset_of(input2)) by {
        assert(forall|v: Post|
            #[trigger] o.to_multiset().count(v) == out.to_multiset().count(v) - (
            if v == h {
                1int
            } else {
                0int
            }));
    }
    assert(sorted_by_rank(act, o)) by {
        assert forall|i: int, j: int| 0 <= i < j < o.len() implies rank_le(act, o[i], o[j]) by {
            assert(o[i] == out[i + 1]);
            assert(o[j] == out[j + 1]);
        }
    }
    assert(input2.sub(o.to_multiset()) =~= input.sub(out.to_multiset()));
    assert forall|i: int, p: Post|
        #![trigger o[i], input2.sub(o.to_multiset()).count(p)]
        0 <= i < o.len() && input2.sub(o.to_multiset()).count(p) > 0 implies rank_le(
        act,
        o[i],
        p,
    ) by {
        assert(input.sub(out.to_multiset()).count(p) > 0);
        assert(o[i] == out[i + 1]);
        assert(rank_le(act, out[i + 1], p));
    }
}

/// None-last law: in a ranking laid out for a metric, every post that lacks
/// the metric stands after every post that has it — once a ranking reaches a
/// post with no count, no later post has one.
pub proof fn lemma_none_ranks_last(act: ActionType, s: Seq<Post>)
    requires
        sorted_by_rank(act, s),
    ensures
        forall|i: int, j: int|
            0 <= i < j < s.len() && s[i].count_spec(act) is None ==> s[j].count_spec(
                act,
            ) is None,
{
    assert forall|i: int, j: int|
        0 <= i < j < s.len() && s[i].count_spec(act) is None implies s[j].count_spec(
        act,
    ) is None by {
        assert(rank_le(act, s[i], s[j]));
    }
}

/// Tie-break law: when two posts of a ranking carry the same count for the
/// metric, the earlier one has the more recent (or equal) timestamp.
pub proof fn lemma_tie_broken_by_recency(act: ActionType, s: Seq<Post>)
    requires
        sorted_by_rank(act, s),
    ensures
        forall|i: int, j: int|
            0 <= i < j < s.len() && s[i].count_spec(act) == s[j].count_spec(act) ==> s[i].date
                >= s[j].date,
{
    assert forall|i: int, j: int|
        0 <= i < j < s.len() && s[i].count_spec(act) == s[j].count_spec(act) implies s[i].date
        >= s[j].date by {
        assert(rank_le(act, s[i], s[j]));
    }
}

} // verus!
