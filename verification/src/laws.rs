//! Laws of the fallible search, proved against [`crate::find::try_find_post`].
//!
//! Each lemma takes the elements `pre` a cursor started with, the elements
//! `post` it was left with, and the result `r` of the search, together with the
//! guarantee `try_find_post(f, pre, post, r)` that `try_find` ensures, and pins
//! the result down for a class of predicates.

use vstd::prelude::*;
use crate::find::{fail_stop, match_stop, try_find_post};

verus! {

/// On `x`, every outcome the predicate admits is a no-match.
pub open spec fn only_rejects<T, E, F: Fn(&T) -> Result<bool, E>>(f: F, x: T) -> bool {
    forall|r: Result<bool, E>| #[trigger] call_ensures(f, (&x,), r) ==> r == Ok::<bool, E>(false)
}

/// On `x`, every outcome the predicate admits is a match.
pub open spec fn only_accepts<T, E, F: Fn(&T) -> Result<bool, E>>(f: F, x: T) -> bool {
    forall|r: Result<bool, E>| #[trigger] call_ensures(f, (&x,), r) ==> r == Ok::<bool, E>(true)
}

/// On `x`, every outcome the predicate admits is the failure `e`.
pub open spec fn only_fails_with<T, E, F: Fn(&T) -> Result<bool, E>>(f: F, x: T, e: E) -> bool {
    forall|r: Result<bool, E>| #[trigger] call_ensures(f, (&x,), r) ==> r == Err::<bool, E>(e)
}

/// On an empty cursor the search returns `Ok(None)`, whatever the predicate,
/// and the cursor stays empty.
pub proof fn lemma_empty_finds_none<T, E, F: Fn(&T) -> Result<bool, E>>(
    f: F,
    pre: Seq<T>,
    post: Seq<T>,
    r: Result<Option<T>, E>,
)
    requires
        pre.len() == 0,
        try_find_post(f, pre, post, r),
    ensures
        r == Ok::<Option<T>, E>(None),
        post.len() == 0,
{
    if r is Ok && r->Ok_0 is Some {
        let i = choose|i: int| match_stop(f, pre, post, r->Ok_0->Some_0, i);
        assert(false);
    }
    if r is Err {
        let i = choose|i: int| fail_stop(f, pre, post, r->Err_0, i);
        assert(false);
    }
}

/// A predicate that can only reject leaves the search with `Ok(None)` and an
/// exhausted cursor: every element was consumed, none matched, none failed.
pub proof fn lemma_all_rejected_finds_none<T, E, F: Fn(&T) -> Result<bool, E>>(
    f: F,
    pre: Seq<T>,
    post: Seq<T>,
    r: Result<Option<T>, E>,
)
    requires
        try_find_post(f, pre, post, r),
        forall|i: int| 0 <= i < pre.len() ==> #[trigger] only_rejects(f, pre[i]),
    ensures
        r == Ok::<Option<T>, E>(None),
        post.len() == 0,
{
    if r is Ok && r->Ok_0 is Some {
        let i = choose|i: int| match_stop(f, pre, post, r->Ok_0->Some_0, i);
        assert(only_rejects(f, pre[i]));
        assert(false);
    }
    if r is Err {
        let i = choose|i: int| fail_stop(f, pre, post, r->Err_0, i);
        assert(only_rejects(f, pre[i]));
        assert(false);
    }
}

/// If the predicate first matches at position `i` — before `i` it can only
/// reject, at `i` it can only match — the search returns the element at `i`
/// and consumes exactly the elements up to and including position `i`.
pub proof fn lemma_first_match<T, E, F: Fn(&T) -> Result<bool, E>>(
    f: F,
    pre: Seq<T>,
    post: Seq<T>,
    r: Result<Option<T>, E>,
    i: int,
)
    requires
        try_find_post(f, pre, post, r),
        0 <= i < pre.len(),
        only_accepts(f, pre[i]),
        forall|j: int| 0 <= j < i ==> #[trigger] only_rejects(f, pre[j]),
    ensures
        r == Ok::<Option<T>, E>(Some(pre[i])),
        post == pre.skip(i + 1),
{
    if r is Ok && r->Ok_0 is None {
        assert(call_ensures(f, (&pre[i],), Ok::<bool, E>(false)));
        assert(false);
    }
    if r is Err {
        let k = choose|k: int| fail_stop(f, pre, post, r->Err_0, k);
        if k < i {
            assert(only_rejects(f, pre[k]));
        } else if k > i {
            assert(call_ensures(f, (&pre[i],), Ok::<bool, E>(false)));
        }
        assert(false);
    }
    let k = choose|k: int| match_stop(f, pre, post, r->Ok_0->Some_0, k);
    if k < i {
        assert(only_rejects(f, pre[k]));
        assert(false);
    }
    if k > i {
        assert(call_ensures(f, (&pre[i],), Ok::<bool, E>(false)));
        assert(false);
    }
    assert(r == Ok::<Option<T>, E>(Some(pre[i])));
}

/// If the predicate first fails at position `j` — before `j` it can only
/// reject, at `j` it can only fail with `e` — the search returns `Err(e)`
/// and consumes exactly the elements up to and including position `j`.
pub proof fn lemma_first_failure<T, E, F: Fn(&T) -> Result<bool, E>>(
    f: F,
    pre: Seq<T>,
    post: Seq<T>,
    r: Result<Option<T>, E>,
    j: int,
    e: E,
)
    requires
        try_find_post(f, pre, post, r),
        0 <= j < pre.len(),
        only_fails_with(f, pre[j], e),
        forall|k: int| 0 <= k < j ==> #[trigger] only_rejects(f, pre[k]),
    ensures
        r == Err::<Option<T>, E>(e),
        post == pre.skip(j + 1),
{
    if r is Ok && r->Ok_0 is None {
        assert(call_ensures(f, (&pre[j],), Ok::<bool, E>(false)));
        assert(false);
    }
    if r is Ok && r->Ok_0 is Some {
        let k = choose|k: int| match_stop(f, pre, post, r->Ok_0->Some_0, k);
        if k < j {
            assert(only_rejects(f, pre[k]));
        } else if k > j {
            assert(call_ensures(f, (&pre[j],), Ok::<bool, E>(false)));
        }
        assert(false);
    }
    let k = choose|k: int| fail_stop(f, pre, post, r->Err_0, k);
    if k < j {
        assert(only_rejects(f, pre[k]));
        assert(false);
    }
    if k > j {
        assert(call_ensures(f, (&pre[j],), Ok::<bool, E>(false)));
        assert(false);
    }
    assert(r == Err::<Option<T>, E>(e));
}

/// After a match at position `i`, the cursor holds exactly the elements after
/// position `i`, in their original order: traversal resumes at the element
/// right after the match, no element is skipped, none is presented again.
pub proof fn lemma_resume_after_match<T, E, F: Fn(&T) -> Result<bool, E>>(
    f: F,
    pre: Seq<T>,
    post: Seq<T>,
    x: T,
    i: int,
)
    requires
        match_stop(f, pre, post, x, i),
    ensures
        post.len() == pre.len() - (i + 1),
        forall|k: int| 0 <= k < post.len() ==> post[k] == pre[i + 1 + k],
{
}

/// After a failure at position `i`, the cursor holds exactly the elements
/// after position `i`, in their original order: traversal resumes at the
/// element right after the failure, no element is skipped, none is presented
/// again.
pub proof fn lemma_resume_after_failure<T, E, F: Fn(&T) -> Result<bool, E>>(
    f: F,
    pre: Seq<T>,
    post: Seq<T>,
    e: E,
    i: int,
)
    requires
        fail_stop(f, pre, post, e, i),
    ensures
        post.len() == pre.len() - (i + 1),
        forall|k: int| 0 <= k < post.len() ==> post[k] == pre[i + 1 + k],
{
}

} // verus!
