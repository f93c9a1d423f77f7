//! Joining the results of a batch of fetches: all of them or none.

use crate::error::DataError;
use vstd::prelude::*;

verus! {

/// Whether every fetch of the batch succeeded.
pub open spec fn all_ok<T>(results: Seq<Result<T, DataError>>) -> bool {
    forall|i: int| 0 <= i < results.len() ==> (#[trigger] results[i]) is Ok
}

/// What the fetches of a batch returned, in the order of the batch. It is
/// meant for a batch in which every fetch succeeded.
pub open spec fn fetched_values<T>(results: Seq<Result<T, DataError>>) -> Seq<T> {
    Seq::new(results.len(), |i: int| results[i]->Ok_0)
}

/// The failure of the first fetch of the batch that failed, if any did.
pub open spec fn first_failure<T>(results: Seq<Result<T, DataError>>) -> Option<DataError>
    decreases results.len(),
{
    if results.len() == 0 {
        None
    } else if results[0] is Err {
        Some(results[0]->Err_0)
    } else {
        first_failure(results.drop_first())
    }
}

/// A batch whose first `k` fetches succeeded and whose next one failed has
/// that failure as its first.
pub proof fn lemma_first_failure_at<T>(results: Seq<Result<T, DataError>>, k: int)
    requires
        0 <= k < results.len(),
        results[k] is Err,
        forall|j: int| 0 <= j < k ==> (#[trigger] results[j]) is Ok,
    ensures
        first_failure(results) == Some(results[k]->Err_0),
    decreases k,
{
    if k > 0 {
        let rest = results.drop_first();
        assert(results[0] is Ok);
        assert forall|j: int| 0 <= j < k - 1 implies (#[trigger] rest[j]) is Ok by {
            assert(rest[j] == results[j + 1]);
        }
        assert(rest[k - 1] == results[k]);
        lemma_first_failure_at(rest, k - 1);
    }
}

/// A batch has no first failure exactly when every fetch succeeded.
pub proof fn lemma_no_failure_iff_all_ok<T>(results: Seq<Result<T, DataError>>)
    ensures
        first_failure(results) is None <==> all_ok(results),
    decreases results.len(),
{
    if results.len() > 0 {
        let rest = results.drop_first();
        lemma_no_failure_iff_all_ok(rest);
        if results[0] is Ok {
            if all_ok(rest) {
                assert forall|i: int| 0 <= i < results.len() implies (#[trigger] results[i]) is Ok by {
                    if i > 0 {
                        assert(rest[i - 1] == results[i]);
                    }
                }
            }
            if all_ok(results) {
                assert forall|i: int| 0 <= i < rest.len() implies (#[trigger] rest[i]) is Ok by {
                    assert(rest[i] == results[i + 1]);
                }
            }
        }
    }
}

/// Joins a batch of fetch results. When every fetch succeeded, the values
/// come back in the order of the batch; otherwise all of them are dropped
/// and the first failure comes back.
pub fn collect_batch<T>(results: Vec<Result<T, DataError>>) -> (joined: Result<Vec<T>, DataError>)
    ensures
        match joined {
            Ok(values) => all_ok(results@) && values@ == fetched_values(results@),
            Err(e) => first_failure(results@) == Some(e),
        },
        joined is Ok <==> all_ok(results@),
{
    let ghost all = results@;
    let mut values: Vec<T> = Vec::new();
    for item in it: results
        invariant
            it.seq() == all,
            values@.len() == it.index(),
            forall|j: int| 0 <= j < it.index() ==> (#[trigger] all[j]) is Ok,
            forall|j: int| 0 <= j < it.index() ==> values@[j] == (#[trigger] all[j])->Ok_0,
    {
        match item {
            Ok(value) => {
                values.push(value);
            },
            Err(e) => {
                proof {
                    lemma_first_failure_at(all, it.index() as int);
                    lemma_no_failure_iff_all_ok(all);
                }
                return Err(e);
            },
        }
    }
    proof {
        assert(values@ =~= fetched_values(all));
    }
    Ok(values)
}

} // verus!
