//! Converting a sequence item by item, stopping at the first item that fails.
use vstd::prelude::*;

use crate::error::RustErrorView;

verus! {

/// What converting each item of `s` by `f`, in order, gives: the error of the
/// first item that fails, else every item's result in order.
pub open spec fn first_error_or_all<A, B>(
    s: Seq<A>,
    f: spec_fn(A) -> Result<B, RustErrorView>,
) -> Result<Seq<B>, RustErrorView>
    decreases s.len(),
{
    if s.len() == 0 {
        Ok(seq![])
    } else {
        match first_error_or_all(s.drop_last(), f) {
            Err(e) => Err(e),
            Ok(prefix) => match f(s.last()) {
                Ok(b) => Ok(prefix.push(b)),
                Err(e) => Err(e),
            },
        }
    }
}

/// Once converting a prefix has failed, converting the whole sequence fails
/// with the same error.
pub proof fn lemma_error_persists<A, B>(
    s: Seq<A>,
    f: spec_fn(A) -> Result<B, RustErrorView>,
    k: int,
)
    requires
        0 <= k <= s.len(),
        first_error_or_all(s.take(k), f) is Err,
    ensures
        first_error_or_all(s, f) == first_error_or_all(s.take(k), f),
    decreases s.len() - k,
{
    if k == s.len() {
        assert(s.take(k) =~= s);
    } else {
        assert(s.take(k + 1).drop_last() =~= s.take(k));
        lemma_error_persists(s, f, k + 1);
    }
}

/// Converting a sequence succeeds exactly when every item converts, and then
/// gives each item's result at its own position.
pub proof fn lemma_first_error_or_all_pointwise<A, B>(
    s: Seq<A>,
    f: spec_fn(A) -> Result<B, RustErrorView>,
)
    ensures
        first_error_or_all(s, f) is Ok <==> forall|i: int| 0 <= i < s.len() ==> (#[trigger] f(s[i])) is Ok,
        first_error_or_all(s, f) matches Ok(v) ==> v.len() == s.len() && forall|i: int|
            0 <= i < s.len() ==> Ok::<B, RustErrorView>(#[trigger] v[i]) == f(s[i]),
    decreases s.len(),
{
    if s.len() > 0 {
        let init = s.drop_last();
        lemma_first_error_or_all_pointwise(init, f);
        assert forall|i: int| 0 <= i < init.len() implies init[i] == s[i] by {}
        if first_error_or_all(s, f) is Ok {
            assert forall|i: int| 0 <= i < s.len() implies (#[trigger] f(s[i])) is Ok by {
                if i < init.len() {
                    assert(init[i] == s[i]);
                }
            }
        } else {
            if first_error_or_all(init, f) is Ok {
                assert(!(f(s[s.len() - 1]) is Ok));
            } else {
                let j = choose|j: int| 0 <= j < init.len() && !(f(init[j]) is Ok);
                assert(init[j] == s[j]);
            }
        }
    }
}

} // verus!
