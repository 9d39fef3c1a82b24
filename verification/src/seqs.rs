use vstd::prelude::*;

verus! {

/// `i` is the position of the first element of `s` satisfying `p`.
pub open spec fn is_first<A>(s: Seq<A>, p: spec_fn(A) -> bool, i: int) -> bool {
    &&& 0 <= i < s.len()
    &&& p(s[i])
    &&& forall|k: int| 0 <= k < i ==> !p(#[trigger] s[k])
}

/// The first element of `s` satisfying `p`, if any.
pub open spec fn first_of<A>(s: Seq<A>, p: spec_fn(A) -> bool) -> Option<A> {
    if exists|i: int| is_first(s, p, i) {
        Some(s[choose|i: int| is_first(s, p, i)])
    } else {
        None
    }
}

/// There is at most one first position.
pub proof fn lemma_first_unique<A>(s: Seq<A>, p: spec_fn(A) -> bool, i: int, j: int)
    requires
        is_first(s, p, i),
        is_first(s, p, j),
    ensures
        i == j,
{
    if i < j {
        assert(!p(s[i]));
    } else if j < i {
        assert(!p(s[j]));
    }
}

/// Having found the first position, `first_of` names its element.
pub proof fn lemma_first_of_found<A>(s: Seq<A>, p: spec_fn(A) -> bool, i: int)
    requires
        is_first(s, p, i),
    ensures
        first_of(s, p) == Some(s[i]),
{
    let j = choose|j: int| is_first(s, p, j);
    lemma_first_unique(s, p, i, j);
}

/// When no element satisfies `p`, `first_of` is `None`.
pub proof fn lemma_first_of_none<A>(s: Seq<A>, p: spec_fn(A) -> bool)
    requires
        forall|k: int| 0 <= k < s.len() ==> !p(#[trigger] s[k]),
    ensures
        first_of(s, p) == None::<A>,
{
    if exists|i: int| is_first(s, p, i) {
        let i = choose|i: int| is_first(s, p, i);
        assert(p(s[i]));
    }
}

/// The elements of `s` satisfying `f`, in order.
pub open spec fn select<A>(s: Seq<A>, f: spec_fn(A) -> bool) -> Seq<A>
    decreases s.len(),
{
    if s.len() == 0 {
        seq![]
    } else {
        let rest = select(s.drop_last(), f);
        if f(s.last()) {
            rest.push(s.last())
        } else {
            rest
        }
    }
}

/// Extending a prefix by one element extends its selection by that element when it is kept.
pub proof fn lemma_select_step<A>(s: Seq<A>, f: spec_fn(A) -> bool, i: int)
    requires
        0 <= i < s.len(),
    ensures
        select(s.take(i + 1), f) == if f(s[i]) {
            select(s.take(i), f).push(s[i])
        } else {
            select(s.take(i), f)
        },
{
    assert(s.take(i + 1).drop_last() =~= s.take(i));
    assert(s.take(i + 1).last() == s[i]);
}

/// Something is selected exactly when it occurs in `s` and satisfies `f`.
pub proof fn lemma_select_contains<A>(s: Seq<A>, f: spec_fn(A) -> bool, x: A)
    ensures
        select(s, f).contains(x) <==> (s.contains(x) && f(x)),
    decreases s.len(),
{
    if s.len() > 0 {
        let rest = s.drop_last();
        let last = s.last();
        lemma_select_contains(rest, f, x);
        let sel = select(s, f);
        let sr = select(rest, f);
        if s.contains(x) && f(x) {
            if x == last {
                assert(sel == sr.push(last));
                assert(sel[sel.len() - 1] == x);
            } else {
                let i = choose|i: int| 0 <= i < s.len() && s[i] == x;
                assert(i != s.len() - 1);
                assert(rest[i] == x);
                assert(rest.contains(x));
                let j = choose|j: int| 0 <= j < sr.len() && sr[j] == x;
                if f(last) {
                    assert(sel == sr.push(last));
                    assert(sel[j] == x);
                } else {
                    assert(sel == sr);
                }
            }
        }
        if sel.contains(x) {
            let j = choose|j: int| 0 <= j < sel.len() && sel[j] == x;
            if f(last) {
                assert(sel == sr.push(last));
                if j == sr.len() {
                    assert(s[s.len() - 1] == x);
                } else {
                    assert(sr[j] == x);
                    assert(sr.contains(x));
                    let k = choose|k: int| 0 <= k < rest.len() && rest[k] == x;
                    assert(s[k] == x);
                }
            } else {
                assert(sel == sr);
                assert(sr.contains(x));
                let k = choose|k: int| 0 <= k < rest.len() && rest[k] == x;
                assert(s[k] == x);
            }
        }
    }
}

} // verus!
