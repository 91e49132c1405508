//! Searching and filtering rows: the few sequence facts and vector loops that
//! every table operation is built from.

use vstd::prelude::*;

verus! {

/// The views of the elements of `s`, in order.
pub open spec fn views<T: DeepView>(s: Seq<T>) -> Seq<T::V> {
    Seq::new(s.len(), |i: int| s[i].deep_view())
}

/// `i` is the position of the first element of `s` that satisfies `p`.
pub open spec fn is_first<A>(s: Seq<A>, p: spec_fn(A) -> bool, i: int) -> bool {
    &&& 0 <= i < s.len()
    &&& p(s[i])
    &&& forall|j: int| 0 <= j < i ==> !p(#[trigger] s[j])
}

/// No element of `s` satisfies `p`.
pub open spec fn none_match<A>(s: Seq<A>, p: spec_fn(A) -> bool) -> bool {
    forall|j: int| 0 <= j < s.len() ==> !p(#[trigger] s[j])
}

/// The first element of `s` that satisfies `p`, if there is one.
pub open spec fn find_first<A>(s: Seq<A>, p: spec_fn(A) -> bool) -> Option<A> {
    if exists|i: int| is_first(s, p, i) {
        Some(s[choose|i: int| is_first(s, p, i)])
    } else {
        None
    }
}

/// Where `i` is the position of the first match, `find_first` finds the
/// element there.
pub proof fn lemma_find_first_at<A>(s: Seq<A>, p: spec_fn(A) -> bool, i: int)
    requires
        is_first(s, p, i),
    ensures
        find_first(s, p) == Some(s[i]),
{
    let k = choose|k: int| is_first(s, p, k);
    assert(is_first(s, p, k));
    if k < i {
        assert(!p(s[k]));
    }
    if i < k {
        assert(!p(s[i]));
    }
}

/// Where nothing matches, `find_first` finds nothing.
pub proof fn lemma_find_first_none<A>(s: Seq<A>, p: spec_fn(A) -> bool)
    requires
        none_match(s, p),
    ensures
        find_first(s, p) is None,
{
    if exists|i: int| is_first(s, p, i) {
        let k = choose|k: int| is_first(s, p, k);
        assert(!p(s[k]));
    }
}

/// Whatever `find_first` returns is an element of `s` that satisfies `p`, and
/// it returns nothing only where no element does.
pub proof fn lemma_find_first_sound<A>(s: Seq<A>, p: spec_fn(A) -> bool)
    ensures
        match find_first(s, p) {
            Some(x) => p(x) && s.contains(x),
            None => none_match(s, p),
        },
    decreases s.len(),
{
    if exists|i: int| is_first(s, p, i) {
        let k = choose|k: int| is_first(s, p, k);
        assert(s[k] == s[k]);
    } else {
        lemma_some_match_has_first(s, p);
    }
}

/// Where some element satisfies `p`, one of them is the first.
pub proof fn lemma_some_match_has_first<A>(s: Seq<A>, p: spec_fn(A) -> bool)
    ensures
        none_match(s, p) || exists|i: int| is_first(s, p, i),
    decreases s.len(),
{
    if s.len() > 0 {
        let t = s.drop_last();
        lemma_some_match_has_first(t, p);
        if exists|i: int| is_first(t, p, i) {
            let k = choose|k: int| is_first(t, p, k);
            assert(t[k] == s[k]);
            assert forall|j: int| 0 <= j < k implies !p(#[trigger] s[j]) by {
                assert(t[j] == s[j]);
            }
            assert(is_first(s, p, k));
        } else if p(s.last()) {
            assert forall|j: int| 0 <= j < s.len() - 1 implies !p(#[trigger] s[j]) by {
                assert(t[j] == s[j]);
            }
            assert(is_first(s, p, s.len() - 1));
        } else {
            assert forall|j: int| 0 <= j < s.len() implies !p(#[trigger] s[j]) by {
                if j < s.len() - 1 {
                    assert(t[j] == s[j]);
                }
            }
        }
    }
}

/// Where `find_first` finds something, it is the element at the first
/// position that satisfies `p`.
pub proof fn lemma_find_first_index<A>(s: Seq<A>, p: spec_fn(A) -> bool) -> (k: int)
    requires
        find_first(s, p) is Some,
    ensures
        is_first(s, p, k),
        find_first(s, p) == Some(s[k]),
{
    choose|k: int| is_first(s, p, k)
}

/// A change of the elements that `p` does not see leaves the first match
/// where it is.
pub proof fn lemma_find_first_map<A>(s: Seq<A>, p: spec_fn(A) -> bool, f: spec_fn(A) -> A)
    requires
        forall|x: A| p(#[trigger] f(x)) == p(x),
    ensures
        find_first(s.map_values(f), p) == match find_first(s, p) {
            Some(x) => Some(f(x)),
            None => None,
        },
{
    let t = s.map_values(f);
    if find_first(s, p) is Some {
        let k = lemma_find_first_index(s, p);
        assert forall|j: int| 0 <= j < k implies !p(#[trigger] t[j]) by {
            assert(!p(s[j]));
            assert(t[j] == f(s[j]));
        }
        assert(t[k] == f(s[k]));
        lemma_find_first_at(t, p, k);
    } else {
        lemma_find_first_sound(s, p);
        assert forall|j: int| 0 <= j < t.len() implies !p(#[trigger] t[j]) by {
            assert(!p(s[j]));
            assert(t[j] == f(s[j]));
        }
        lemma_find_first_none(t, p);
    }
}

/// A new last element is the first match only where nothing before it
/// matches.
pub proof fn lemma_find_first_push<A>(s: Seq<A>, x: A, p: spec_fn(A) -> bool)
    ensures
        find_first(s.push(x), p) == if find_first(s, p) is Some {
            find_first(s, p)
        } else if p(x) {
            Some(x)
        } else {
            None
        },
{
    let t = s.push(x);
    if find_first(s, p) is Some {
        let k = lemma_find_first_index(s, p);
        assert(t[k] == s[k]);
        assert forall|j: int| 0 <= j < k implies !p(#[trigger] t[j]) by {
            assert(t[j] == s[j]);
        }
        lemma_find_first_at(t, p, k);
    } else {
        lemma_find_first_sound(s, p);
        if p(x) {
            assert(t[s.len() as int] == x);
            assert forall|j: int| 0 <= j < s.len() implies !p(#[trigger] t[j]) by {
                assert(t[j] == s[j]);
            }
            lemma_find_first_at(t, p, s.len() as int);
        } else {
            assert forall|j: int| 0 <= j < t.len() implies !p(#[trigger] t[j]) by {
                if j < s.len() {
                    assert(t[j] == s[j]);
                }
            }
            lemma_find_first_none(t, p);
        }
    }
}

/// A filter that keeps every match of `p` leaves the first match what it is.
pub proof fn lemma_filter_keeps_first<A>(s: Seq<A>, keep: spec_fn(A) -> bool, p: spec_fn(A) -> bool)
    requires
        forall|i: int| 0 <= i < s.len() && p(#[trigger] s[i]) ==> keep(s[i]),
    ensures
        find_first(s.filter(keep), p) == find_first(s, p),
    decreases s.len(),
{
    reveal(Seq::filter);
    if s.len() > 0 {
        let r = s.drop_last();
        let x = s.last();
        assert(s =~= r.push(x));
        assert forall|i: int| 0 <= i < r.len() && p(#[trigger] r[i]) implies keep(r[i]) by {
            assert(r[i] == s[i]);
        }
        lemma_filter_keeps_first(r, keep, p);
        r.lemma_filter_push(x, keep);
        lemma_find_first_push(r, x, p);
        if keep(x) {
            lemma_find_first_push(r.filter(keep), x, p);
        } else {
            assert(s[s.len() - 1] == x);
        }
    }
}

/// No two elements of `s` have the same key.
pub open spec fn keys_distinct<A, K>(s: Seq<A>, key: spec_fn(A) -> K) -> bool {
    forall|i: int, j: int| 0 <= i < j < s.len() ==> key(#[trigger] s[i]) != key(#[trigger] s[j])
}

/// An element with a key of its own may be appended.
pub proof fn lemma_push_distinct<A, K>(s: Seq<A>, x: A, key: spec_fn(A) -> K)
    requires
        keys_distinct(s, key),
        forall|i: int| 0 <= i < s.len() ==> key(#[trigger] s[i]) != key(x),
    ensures
        keys_distinct(s.push(x), key),
{
    let t = s.push(x);
    assert forall|i: int, j: int| 0 <= i < j < t.len() implies key(#[trigger] t[i]) != key(
        #[trigger] t[j],
    ) by {
        assert(t[i] == s[i]);
        if j < s.len() {
            assert(t[j] == s[j]);
        }
    }
}

/// A change of the elements that keeps their keys keeps the keys distinct.
pub proof fn lemma_map_distinct<A, K>(s: Seq<A>, f: spec_fn(A) -> A, key: spec_fn(A) -> K)
    requires
        keys_distinct(s, key),
        forall|x: A| key(#[trigger] f(x)) == key(x),
    ensures
        keys_distinct(s.map_values(f), key),
{
    let t = s.map_values(f);
    assert forall|i: int, j: int| 0 <= i < j < t.len() implies key(#[trigger] t[i]) != key(
        #[trigger] t[j],
    ) by {
        assert(t[i] == f(s[i]));
        assert(t[j] == f(s[j]));
    }
}

/// A filter keeps the keys distinct.
pub proof fn lemma_filter_distinct<A, K>(s: Seq<A>, keep: spec_fn(A) -> bool, key: spec_fn(A) -> K)
    requires
        keys_distinct(s, key),
    ensures
        keys_distinct(s.filter(keep), key),
    decreases s.len(),
{
    reveal(Seq::filter);
    if s.len() > 0 {
        let r = s.drop_last();
        let x = s.last();
        assert(s =~= r.push(x));
        assert forall|i: int, j: int| 0 <= i < j < r.len() implies key(#[trigger] r[i]) != key(
            #[trigger] r[j],
        ) by {
            assert(r[i] == s[i]);
            assert(r[j] == s[j]);
        }
        lemma_filter_distinct(r, keep, key);
        r.lemma_filter_push(x, keep);
        if keep(x) {
            let fr = r.filter(keep);
            assert forall|i: int| 0 <= i < fr.len() implies key(#[trigger] fr[i]) != key(x) by {
                assert(fr.contains(fr[i]));
                r.lemma_filter_contains_rev(keep, fr[i]);
                let m = choose|m: int| 0 <= m < r.len() && r[m] == fr[i];
                assert(s[m] == r[m]);
                assert(s[s.len() - 1] == x);
            }
            lemma_push_distinct(fr, x, key);
        }
    }
}

/// What a filter leaves was there before, and satisfies the filter.
pub proof fn lemma_filter_member<A>(s: Seq<A>, keep: spec_fn(A) -> bool, i: int) -> (m: int)
    requires
        0 <= i < s.filter(keep).len(),
    ensures
        0 <= m < s.len(),
        s[m] == s.filter(keep)[i],
        keep(s[m]),
{
    let fr = s.filter(keep);
    assert(fr.contains(fr[i]));
    s.lemma_filter_contains_rev(keep, fr[i]);
    s.lemma_filter_pred(keep, i);
    choose|m: int| 0 <= m < s.len() && s[m] == fr[i]
}

/// What `f` makes of an element of `s` is among what it makes of `s`.
pub proof fn lemma_filter_map_has<A, B>(s: Seq<A>, f: spec_fn(A) -> Option<B>, i: int)
    requires
        0 <= i < s.len(),
        f(s[i]) is Some,
    ensures
        s.filter_map(f).contains(f(s[i])->Some_0),
    decreases s.len(),
{
    let x = f(s[i])->Some_0;
    let rest = s.drop_last();
    let made = rest.filter_map(f);
    if i == s.len() - 1 {
        let all = made + seq![x];
        assert(all[made.len() as int] == x);
    } else {
        assert(rest[i] == s[i]);
        lemma_filter_map_has(rest, f, i);
        let k = choose|k: int| 0 <= k < made.len() && made[k] == x;
        match f(s.last()) {
            Some(y) => {
                let all = made + seq![y];
                assert(all[k] == x);
            },
            None => {},
        }
    }
}

/// Filtering rows and then viewing them is filtering their views, where the
/// two predicates agree.
pub proof fn lemma_filter_views<T: DeepView>(
    s: Seq<T>,
    p: spec_fn(T) -> bool,
    pv: spec_fn(T::V) -> bool,
)
    requires
        forall|x: T| p(x) == pv(x.deep_view()),
    ensures
        views(s.filter(p)) == views(s).filter(pv),
    decreases s.len(),
{
    reveal(Seq::filter);
    if s.len() > 0 {
        lemma_filter_views(s.drop_last(), p, pv);
        assert(views(s).drop_last() == views(s.drop_last()));
    }
    assert(views(s.filter(p)) =~= views(s).filter(pv));
}

/// The position of the first element of `v` for which `pred` holds.
pub(crate) fn position<T, F: Fn(&T) -> bool>(v: &Vec<T>, pred: F, Ghost(p): Ghost<spec_fn(T) -> bool>) -> (r:
    Option<usize>)
    requires
        forall|x: T| pred.requires((&x,)),
        forall|x: T, b: bool| pred.ensures((&x,), b) ==> b == p(x),
    ensures
        match r {
            Some(i) => is_first(v@, p, i as int),
            None => none_match(v@, p),
        },
{
    let mut i: usize = 0;
    while i < v.len()
        invariant
            i <= v.len(),
            forall|x: T| pred.requires((&x,)),
            forall|x: T, b: bool| pred.ensures((&x,), b) ==> b == p(x),
            forall|j: int| 0 <= j < i ==> !p(#[trigger] v@[j]),
        decreases v.len() - i,
    {
        if pred(&v[i]) {
            return Some(i);
        }
        i += 1;
    }
    None
}

/// Removes from `v` every element for which `keep` does not hold; the rest
/// stay in their order.
pub(crate) fn retain_where<T, F: Fn(&T) -> bool>(v: &mut Vec<T>, keep: F, Ghost(p): Ghost<spec_fn(T) -> bool>)
    requires
        forall|x: T| keep.requires((&x,)),
        forall|x: T, b: bool| keep.ensures((&x,), b) ==> b == p(x),
    ensures
        final(v)@ == old(v)@.filter(p),
{
    let ghost orig = v@;
    let mut i: usize = 0;
    let ghost mut k: int = 0;
    while i < v.len()
        invariant
            forall|x: T| keep.requires((&x,)),
            forall|x: T, b: bool| keep.ensures((&x,), b) ==> b == p(x),
            0 <= i <= v.len(),
            0 <= k <= orig.len(),
            v.len() - i == orig.len() - k,
            v@.take(i as int) == orig.take(k).filter(p),
            v@.skip(i as int) == orig.skip(k),
        decreases v.len() - i,
    {
        proof {
            assert(v@[i as int] == v@.skip(i as int)[0]);
            assert(orig.take(k + 1) == orig.take(k).push(orig[k]));
            orig.take(k).lemma_filter_push(orig[k], p);
        }
        if keep(&v[i]) {
            proof {
                assert(v@.take(i + 1) == v@.take(i as int).push(v@[i as int]));
                assert(v@.skip(i + 1) == v@.skip(i as int).skip(1));
                assert(orig.skip(k + 1) == orig.skip(k).skip(1));
                k = k + 1;
            }
            i += 1;
        } else {
            let ghost before = v@;
            v.remove(i);
            proof {
                assert(v@.take(i as int) == before.take(i as int));
                assert(v@.skip(i as int) == before.skip(i as int).skip(1));
                assert(orig.skip(k + 1) == orig.skip(k).skip(1));
                k = k + 1;
            }
        }
    }
    proof {
        assert(v@.take(i as int) == v@);
        assert(orig.take(k) == orig);
    }
}

/// The position of the first row of `v` whose view satisfies `pv`.
pub(crate) fn find_row<T: DeepView, F: Fn(&T) -> bool>(
    v: &Vec<T>,
    pred: F,
    Ghost(pv): Ghost<spec_fn(T::V) -> bool>,
) -> (r: Option<usize>)
    requires
        forall|x: T| pred.requires((&x,)),
        forall|x: T, b: bool| pred.ensures((&x,), b) ==> b == pv(x.deep_view()),
    ensures
        match r {
            Some(i) => i < v.len() && is_first(views(v@), pv, i as int) && find_first(
                views(v@),
                pv,
            ) == Some(v@[i as int].deep_view()),
            None => none_match(views(v@), pv) && find_first(views(v@), pv) is None,
        },
{
    let r = position(v, pred, Ghost(|x: T| pv(x.deep_view())));
    proof {
        match r {
            Some(i) => {
                assert forall|j: int| 0 <= j < i implies !pv(#[trigger] views(v@)[j]) by {
                    assert(!pv(v@[j].deep_view()));
                }
                lemma_find_first_at(views(v@), pv, i as int);
            },
            None => {
                assert forall|j: int| 0 <= j < views(v@).len() implies !pv(
                    #[trigger] views(v@)[j],
                ) by {
                    assert(!pv(v@[j].deep_view()));
                }
                lemma_find_first_none(views(v@), pv);
            },
        }
    }
    r
}

/// Removes from `v` every row whose view does not satisfy `pv`.
pub(crate) fn retain_rows<T: DeepView, F: Fn(&T) -> bool>(
    v: &mut Vec<T>,
    keep: F,
    Ghost(pv): Ghost<spec_fn(T::V) -> bool>,
)
    requires
        forall|x: T| keep.requires((&x,)),
        forall|x: T, b: bool| keep.ensures((&x,), b) ==> b == pv(x.deep_view()),
    ensures
        views(final(v)@) == views(old(v)@).filter(pv),
{
    let ghost p = |x: T| pv(x.deep_view());
    retain_where(v, keep, Ghost(p));
    proof {
        lemma_filter_views(old(v)@, p, pv);
    }
}

/// Whether no two rows of `v` have the same key.
pub(crate) fn keys_are_distinct<T: DeepView, F: Fn(&T, &T) -> bool>(
    v: &Vec<T>,
    same_key: F,
    Ghost(key): Ghost<spec_fn(T::V) -> Seq<char>>,
) -> (b: bool)
    requires
        forall|x: T, y: T| same_key.requires((&x, &y)),
        forall|x: T, y: T, r: bool|
            same_key.ensures((&x, &y), r) ==> r == (key(x.deep_view()) == key(y.deep_view())),
    ensures
        b == keys_distinct(views(v@), key),
{
    let ghost s = views(v@);
    let mut j: usize = 0;
    while j < v.len()
        invariant
            j <= v.len(),
            s == views(v@),
            forall|x: T, y: T| same_key.requires((&x, &y)),
            forall|x: T, y: T, r: bool|
                same_key.ensures((&x, &y), r) ==> r == (key(x.deep_view()) == key(y.deep_view())),
            forall|a: int, b: int| 0 <= a < b < j ==> key(#[trigger] s[a]) != key(#[trigger] s[b]),
        decreases v.len() - j,
    {
        let mut i: usize = 0;
        while i < j
            invariant
                i <= j < v.len(),
                s == views(v@),
                forall|x: T, y: T| same_key.requires((&x, &y)),
                forall|x: T, y: T, r: bool|
                    same_key.ensures((&x, &y), r) ==> r == (key(x.deep_view()) == key(
                        y.deep_view(),
                    )),
                forall|a: int| 0 <= a < i ==> key(#[trigger] s[a]) != key(s[j as int]),
            decreases j - i,
        {
            if same_key(&v[i], &v[j]) {
                assert(key(s[i as int]) == key(s[j as int]));
                return false;
            }
            i += 1;
        }
        j += 1;
    }
    true
}

} // verus!
