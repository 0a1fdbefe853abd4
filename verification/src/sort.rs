//! A stable sort over the library's own orders.
use vstd::prelude::*;
use vstd::seq_lib::*;

verus! {

/// A type with an order to sort by.
pub trait Ranked: Sized {
    /// Whether this value comes strictly before `other`.
    spec fn before(self, other: Self) -> bool;

    /// The order is strict, and not to come before is transitive.
    proof fn lemma_order(a: Self, b: Self, c: Self)
        ensures
            !a.before(a),
            a.before(b) ==> !b.before(a),
            !b.before(a) && !c.before(b) ==> !c.before(a),
    ;

    /// Whether this value comes strictly before `other`.
    fn is_before(&self, other: &Self) -> (r: bool)
        ensures
            r == self.before(*other),
    ;
}

/// `s` with `x` put behind the last element that `x` does not come before,
/// searched from the end.
pub open spec fn put_in<T: Ranked>(s: Seq<T>, x: T) -> Seq<T>
    decreases s.len(),
{
    if s.len() == 0 {
        seq![x]
    } else if x.before(s.last()) {
        put_in(s.drop_last(), x).push(s.last())
    } else {
        s.push(x)
    }
}

/// The elements of `s` put in one after the other: equal elements keep their
/// order.
pub open spec fn in_order<T: Ranked>(s: Seq<T>) -> Seq<T>
    decreases s.len(),
{
    if s.len() == 0 {
        seq![]
    } else {
        put_in(in_order(s.drop_last()), s.last())
    }
}

/// No element comes before an earlier one.
pub open spec fn is_sorted<T: Ranked>(s: Seq<T>) -> bool {
    forall|i: int, j: int| 0 <= i < j < s.len() ==> !(#[trigger] s[j]).before(#[trigger] s[i])
}

proof fn lemma_put_in_keeps<T: Ranked>(s: Seq<T>, x: T)
    ensures
        put_in(s, x).to_multiset() == s.to_multiset().insert(x),
        put_in(s, x).len() == s.len() + 1,
    decreases s.len(),
{
    broadcast use group_to_multiset_ensures;

    if s.len() == 0 {
        assert(put_in(s, x) =~= Seq::<T>::empty().push(x));
        assert(s =~= Seq::<T>::empty());
    } else if x.before(s.last()) {
        let front = s.drop_last();
        lemma_put_in_keeps(front, x);
        let t = put_in(front, x);
        assert(s =~= front.push(s.last()));
        assert(t.push(s.last()).to_multiset() =~= s.to_multiset().insert(x));
    }
}

/// Every element of `put_in(s, x)` is `x` or comes from `s`.
proof fn lemma_put_in_from<T: Ranked>(s: Seq<T>, x: T, i: int)
    requires
        0 <= i < put_in(s, x).len(),
    ensures
        put_in(s, x)[i] == x || exists|k: int| 0 <= k < s.len() && #[trigger] s[k] == put_in(s, x)[i],
    decreases s.len(),
{
    if s.len() > 0 {
        if x.before(s.last()) {
            let front = s.drop_last();
            let t = put_in(front, x);
            if i < t.len() {
                lemma_put_in_from(front, x, i);
                assert(put_in(s, x)[i] == t[i]);
                if t[i] != x {
                    let k = choose|k: int| 0 <= k < front.len() && #[trigger] front[k] == t[i];
                    assert(s[k] == t[i]);
                }
            } else {
                assert(s[s.len() - 1] == put_in(s, x)[i]);
            }
        } else if i < s.len() {
            assert(s[i] == put_in(s, x)[i]);
        }
    }
}

proof fn lemma_put_in_sorts<T: Ranked>(s: Seq<T>, x: T)
    requires
        is_sorted(s),
    ensures
        is_sorted(put_in(s, x)),
    decreases s.len(),
{
    let r = put_in(s, x);
    if s.len() == 0 {
    } else if x.before(s.last()) {
        let front = s.drop_last();
        assert(is_sorted(front)) by {
            assert forall|i: int, j: int| 0 <= i < j < front.len() implies !(
            #[trigger] front[j]).before(#[trigger] front[i]) by {
                assert(s[i] == front[i] && s[j] == front[j]);
            }
        }
        lemma_put_in_sorts(front, x);
        let t = put_in(front, x);
        assert forall|i: int, j: int| 0 <= i < j < r.len() implies !(#[trigger] r[j]).before(
            #[trigger] r[i],
        ) by {
            if j == t.len() {
                lemma_put_in_from(front, x, i);
                if t[i] == x {
                    T::lemma_order(x, s.last(), x);
                } else {
                    let k = choose|k: int| 0 <= k < front.len() && #[trigger] front[k] == t[i];
                    assert(!s[s.len() - 1].before(s[k]));
                }
            } else {
                assert(!t[j].before(t[i]));
            }
        }
    } else {
        assert forall|i: int, j: int| 0 <= i < j < r.len() implies !(#[trigger] r[j]).before(
            #[trigger] r[i],
        ) by {
            if j == s.len() {
                if i < s.len() - 1 {
                    assert(!s[s.len() - 1].before(s[i]));
                    T::lemma_order(s[i], s.last(), x);
                }
            } else {
                assert(!s[j].before(s[i]));
            }
        }
    }
}

/// Sorting orders the elements and keeps them all.
pub proof fn law_sorting_orders_and_keeps<T: Ranked>(s: Seq<T>)
    ensures
        is_sorted(in_order(s)),
        in_order(s).to_multiset() == s.to_multiset(),
        in_order(s).len() == s.len(),
    decreases s.len(),
{
    broadcast use group_to_multiset_ensures;

    if s.len() > 0 {
        law_sorting_orders_and_keeps(s.drop_last());
        lemma_put_in_sorts(in_order(s.drop_last()), s.last());
        lemma_put_in_keeps(in_order(s.drop_last()), s.last());
        assert(s =~= s.drop_last().push(s.last()));
    } else {
        assert(s =~= Seq::<T>::empty());
    }
}

/// A filter keeps exactly the elements that pass it.
pub proof fn lemma_filter_has<T>(s: Seq<T>, pass: spec_fn(T) -> bool, x: T)
    ensures
        s.filter(pass).contains(x) <==> s.contains(x) && pass(x),
    decreases s.len(),
{
    reveal(Seq::filter);
    if s.len() > 0 {
        let front = s.drop_last();
        let kept = front.filter(pass);
        lemma_filter_has(front, pass, x);
        if s.filter(pass).contains(x) {
            let k = choose|k: int| 0 <= k < s.filter(pass).len() && s.filter(pass)[k] == x;
            if k < kept.len() {
                assert(kept[k] == x);
                let n = choose|n: int| 0 <= n < front.len() && front[n] == x;
                assert(s[n] == x);
            } else {
                assert(s[s.len() - 1] == x);
            }
        }
        if s.contains(x) && pass(x) {
            let n = choose|n: int| 0 <= n < s.len() && s[n] == x;
            if n < front.len() {
                assert(front[n] == x);
                let k = choose|k: int| 0 <= k < kept.len() && kept[k] == x;
                assert(s.filter(pass)[k] == x);
            } else {
                assert(s.filter(pass)[kept.len() as int] == x);
            }
        }
    }
}

/// The elements of `v` in order; equal elements keep their order.
pub fn sorted<T: Ranked>(v: Vec<T>) -> (r: Vec<T>)
    ensures
        r@ == in_order(v@),
{
    let ghost all = v@;
    let mut rest = v;
    let mut out: Vec<T> = Vec::new();
    let ghost mut n: int = 0;
    while rest.len() > 0
        invariant
            0 <= n <= all.len(),
            rest@ == all.skip(n),
            out@ == in_order(all.take(n)),
        decreases rest.len(),
    {
        let x = rest.remove(0);
        let ghost before = out@;
        proof {
            assert(x == all[n]);
            assert(all.take(n + 1).drop_last() =~= all.take(n));
            assert(rest@ =~= all.skip(n + 1));
        }
        let mut i: usize = out.len();
        assert(before =~= before.take(i as int) + before.skip(i as int));
        assert(put_in(before, x) =~= put_in(before.take(i as int), x) + before.skip(i as int)) by {
            assert(before.take(i as int) =~= before);
        }
        while i > 0 && x.is_before(&out[i - 1])
            invariant
                i <= out.len(),
                out@ == before,
                put_in(before, x) == put_in(before.take(i as int), x) + before.skip(i as int),
            decreases i,
        {
            proof {
                let t = before.take(i as int);
                assert(t.last() == before[i - 1]);
                assert(t.drop_last() =~= before.take(i - 1));
                assert(put_in(t, x) == put_in(before.take(i - 1), x).push(before[i - 1]));
                assert(put_in(before, x) =~= put_in(before.take(i - 1), x) + before.skip(i - 1));
            }
            i = i - 1;
        }
        proof {
            let t = before.take(i as int);
            if i > 0 {
                assert(t.last() == before[i - 1]);
                assert(put_in(t, x) == t.push(x));
            } else {
                assert(put_in(t, x) =~= t.push(x));
            }
        }
        out.insert(i, x);
        proof {
            assert(out@ =~= put_in(before, x));
            n = n + 1;
        }
    }
    assert(all.take(n) =~= all);
    out
}

/// Sorting loses no element.
pub proof fn lemma_sorted_has<T: Ranked>(s: Seq<T>, i: int)
    requires
        0 <= i < s.len(),
    ensures
        in_order(s).contains(s[i]),
{
    broadcast use group_to_multiset_ensures;

    law_sorting_orders_and_keeps(s);
    assert(s.contains(s[i]));
    assert(in_order(s).to_multiset().count(s[i]) > 0);
}

/// What is sorted already stays as it is, so elements of equal rank keep their
/// order.
pub proof fn law_sorted_stays<T: Ranked>(s: Seq<T>)
    requires
        is_sorted(s),
    ensures
        in_order(s) == s,
    decreases s.len(),
{
    if s.len() > 0 {
        let front = s.drop_last();
        assert forall|i: int, j: int| 0 <= i < j < front.len() implies !(
        #[trigger] front[j]).before(#[trigger] front[i]) by {
            assert(s[i] == front[i] && s[j] == front[j]);
        }
        law_sorted_stays(front);
        if front.len() > 0 {
            assert(!s[s.len() - 1].before(s[s.len() - 2]));
        }
        assert(front.push(s.last()) =~= s);
    } else {
        assert(in_order(s) =~= s);
    }
}

} // verus!
