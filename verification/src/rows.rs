//! Sequences searched from the front, and sequences of viewed values.
use vstd::prelude::*;

verus! {

/// The place of the first item that has the property, or the length when none has it.
pub open spec fn find<A>(s: Seq<A>, p: spec_fn(A) -> bool) -> int
    decreases s.len(),
{
    if s.len() == 0 || p(s[0]) {
        0
    } else {
        1 + find(s.skip(1), p)
    }
}

/// The first item that has the property.
pub open spec fn first<A>(s: Seq<A>, p: spec_fn(A) -> bool) -> Option<A> {
    if find(s, p) < s.len() {
        Some(s[find(s, p)])
    } else {
        None
    }
}

/// How many items have the property.
pub open spec fn count<A>(s: Seq<A>, p: spec_fn(A) -> bool) -> nat {
    s.filter(p).len()
}

/// What `find` returns: nothing before that place has the property, and the
/// item there has it.
pub proof fn lemma_find<A>(s: Seq<A>, p: spec_fn(A) -> bool)
    ensures
        0 <= find(s, p) <= s.len(),
        find(s, p) < s.len() ==> p(s[find(s, p)]),
        forall|j: int| 0 <= j < find(s, p) ==> !p(#[trigger] s[j]),
    decreases s.len(),
{
    if s.len() > 0 && !p(s[0]) {
        lemma_find(s.skip(1), p);
        assert forall|j: int| 0 <= j < find(s, p) implies !p(#[trigger] s[j]) by {
            if j > 0 {
                assert(s[j] == s.skip(1)[j - 1]);
            }
        }
    }
}

/// The place found is the only one with nothing before it.
pub proof fn lemma_find_is<A>(s: Seq<A>, p: spec_fn(A) -> bool, i: int)
    requires
        0 <= i <= s.len(),
        forall|j: int| 0 <= j < i ==> !p(#[trigger] s[j]),
        i < s.len() ==> p(s[i]),
    ensures
        find(s, p) == i,
{
    lemma_find(s, p);
    if find(s, p) < i {
        assert(!p(s[find(s, p)]));
    }
    if i < find(s, p) {
        assert(!p(s[i]));
    }
}

/// Filtering one item more.
pub proof fn lemma_filter_take<A>(s: Seq<A>, p: spec_fn(A) -> bool, i: int)
    requires
        0 <= i < s.len(),
    ensures
        s.take(i + 1).filter(p) == if p(s[i]) {
            s.take(i).filter(p).push(s[i])
        } else {
            s.take(i).filter(p)
        },
{
    reveal(Seq::filter);
    assert(s.take(i + 1).drop_last() =~= s.take(i));
}

/// The views of the items of a vector.
pub open spec fn views<T: View>(s: Seq<T>) -> Seq<T::V> {
    s.map_values(|t: T| t@)
}

/// The view of an optional value.
pub open spec fn opt_view<T: View>(o: Option<T>) -> Option<T::V> {
    match o {
        Some(t) => Some(t@),
        None => None,
    }
}

/// The view of an outcome, its value and its error both viewed.
pub open spec fn res_view<T: View, E: View>(r: Result<T, E>) -> Result<T::V, E::V> {
    match r {
        Ok(t) => Ok(t@),
        Err(e) => Err(e@),
    }
}

/// The view of an outcome that is a list.
pub open spec fn res_views<T: View, E: View>(r: Result<Vec<T>, E>) -> Result<Seq<T::V>, E::V> {
    match r {
        Ok(v) => Ok(views(v@)),
        Err(e) => Err(e@),
    }
}

/// The view of an outcome that may be nothing.
pub open spec fn res_opt<T: View, E: View>(r: Result<Option<T>, E>) -> Result<
    Option<T::V>,
    E::V,
> {
    match r {
        Ok(o) => Ok(opt_view(o)),
        Err(e) => Err(e@),
    }
}

/// The view of an outcome whose value is plain.
pub open spec fn res_plain<T, E: View>(r: Result<T, E>) -> Result<T, E::V> {
    match r {
        Ok(t) => Ok(t),
        Err(e) => Err(e@),
    }
}

/// The views of pairs of texts.
pub open spec fn pair_views(s: Seq<(String, String)>) -> Seq<(Seq<char>, Seq<char>)> {
    s.map_values(|p: (String, String)| (p.0@, p.1@))
}

} // verus!
