//! The fallible search operation and its specification.

use vstd::prelude::*;
use crate::cursor::Cursor;

verus! {

/// The predicate may be called on every element of `s`.
pub open spec fn pred_callable_on<T, E, F: Fn(&T) -> Result<bool, E>>(f: F, s: Seq<T>) -> bool {
    forall|i: int| 0 <= i < s.len() ==> call_requires(f, (&s[i],))
}

/// One admitted outcome of the predicate on `pre[i]` is a match, and on every
/// earlier element one admitted outcome is a no-match.
pub open spec fn found_at<T, E, F: Fn(&T) -> Result<bool, E>>(f: F, pre: Seq<T>, i: int) -> bool {
    &&& 0 <= i < pre.len()
    &&& call_ensures(f, (&pre[i],), Ok::<bool, E>(true))
    &&& forall|j: int| 0 <= j < i ==> call_ensures(f, (&pre[j],), Ok::<bool, E>(false))
}

/// One admitted outcome of the predicate on `pre[i]` is the failure `e`, and on
/// every earlier element one admitted outcome is a no-match.
pub open spec fn failed_at<T, E, F: Fn(&T) -> Result<bool, E>>(
    f: F,
    pre: Seq<T>,
    i: int,
    e: E,
) -> bool {
    &&& 0 <= i < pre.len()
    &&& call_ensures(f, (&pre[i],), Err::<bool, E>(e))
    &&& forall|j: int| 0 <= j < i ==> call_ensures(f, (&pre[j],), Ok::<bool, E>(false))
}

/// On every element of `pre`, one admitted outcome of the predicate is a no-match.
pub open spec fn all_rejected<T, E, F: Fn(&T) -> Result<bool, E>>(f: F, pre: Seq<T>) -> bool {
    forall|j: int| 0 <= j < pre.len() ==> call_ensures(f, (&pre[j],), Ok::<bool, E>(false))
}

/// The search matched at position `i`: `x` is the element there, the elements
/// before it were each rejected once, and the cursor went on past position `i`.
pub open spec fn match_stop<T, E, F: Fn(&T) -> Result<bool, E>>(
    f: F,
    pre: Seq<T>,
    post: Seq<T>,
    x: T,
    i: int,
) -> bool {
    &&& found_at(f, pre, i)
    &&& x == pre[i]
    &&& post == pre.skip(i + 1)
}

/// The search failed at position `i` with error `e`: the elements before it
/// were each rejected once, and the cursor went on past position `i`.
pub open spec fn fail_stop<T, E, F: Fn(&T) -> Result<bool, E>>(
    f: F,
    pre: Seq<T>,
    post: Seq<T>,
    e: E,
    i: int,
) -> bool {
    &&& failed_at(f, pre, i, e)
    &&& post == pre.skip(i + 1)
}

/// What `try_find` guarantees: how the result `r` and the elements `post` left
/// on the cursor relate to the elements `pre` it started with.
pub open spec fn try_find_post<T, E, F: Fn(&T) -> Result<bool, E>>(
    f: F,
    pre: Seq<T>,
    post: Seq<T>,
    r: Result<Option<T>, E>,
) -> bool {
    &&& r is Ok && r->Ok_0 is Some ==> exists|i: int|
        match_stop(f, pre, post, r->Ok_0->Some_0, i)
    &&& r is Ok && r->Ok_0 is None ==> all_rejected(f, pre) && post == pre.skip(
        pre.len() as int,
    )
    &&& r is Err ==> exists|i: int| fail_stop(f, pre, post, r->Err_0, i)
}

/// A forward sequential traversal that can be searched with a fallible predicate.
pub trait TryFindExt<T>: Sized {
    /// The elements still to be traversed, in order.
    spec fn elems(&self) -> Seq<T>;

    /// Applies `f` to the elements in order and returns the first element `f`
    /// accepts, or the first failure `f` reports. Elements up to and including
    /// the stopping element are consumed; on a match the matching element is
    /// handed to the caller by value.
    fn try_find<E, F: Fn(&T) -> Result<bool, E>>(&mut self, f: F) -> (r: Result<Option<T>, E>)
        requires
            pred_callable_on(f, old(self).elems()),
        ensures
            try_find_post(f, old(self).elems(), final(self).elems(), r),
    ;
}

impl<T> TryFindExt<T> for Cursor<T> {
    open spec fn elems(&self) -> Seq<T> {
        self@
    }

    fn try_find<E, F: Fn(&T) -> Result<bool, E>>(&mut self, f: F) -> (r: Result<Option<T>, E>) {
        let ghost pre: Seq<T> = self@;
        let ghost mut i: int = 0;
        loop
            invariant
                pre == old(self).elems(),
                pred_callable_on(f, pre),
                0 <= i <= pre.len(),
                self@ == pre.skip(i),
                forall|j: int| 0 <= j < i ==> call_ensures(f, (&pre[j],), Ok::<bool, E>(false)),
            decreases pre.len() - i,
        {
            match self.next() {
                None => {
                    proof {
                        assert(pre.skip(i).len() == 0);
                        assert(self@ =~= pre.skip(pre.len() as int));
                    }
                    return Ok(None);
                },
                Some(x) => {
                    proof {
                        assert(x == pre.skip(i)[0]);
                        assert(x == pre[i]);
                        assert(self@ =~= pre.skip(i + 1));
                    }
                    match f(&x) {
                        Ok(true) => {
                            proof {
                                let ghost rr: Result<Option<T>, E> = Ok(Some(x));
                                assert(match_stop(f, pre, self@, rr->Ok_0->Some_0, i));
                                assert(try_find_post(f, pre, self@, rr));
                            }
                            return Ok(Some(x));
                        },
                        Ok(false) => {
                            proof {
                                i = i + 1;
                            }
                        },
                        Err(e) => {
                            proof {
                                let ghost rr: Result<Option<T>, E> = Err(e);
                                assert(fail_stop(f, pre, self@, rr->Err_0, i));
                                assert(try_find_post(f, pre, self@, rr));
                            }
                            return Err(e);
                        },
                    }
                },
            }
        }
    }
}

} // verus!
