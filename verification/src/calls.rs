//! Carrying out the calls of a request.
//!
//! The calls of a request are made one after the other, until one fails. What the
//! request changed in its records is stored only if none does; the error of the one that
//! failed is the error of the request.

use vstd::prelude::*;

verus! {

/// What comes of calls with these results: the error of the first that failed, if any.
pub open spec fn result_of<E>(results: Seq<Result<(), E>>) -> Result<(), E>
    decreases results.len(),
{
    if results.len() == 0 {
        Ok(())
    } else {
        match result_of(results.drop_last()) {
            Err(e) => Err(e),
            Ok(_) => results.last(),
        }
    }
}

/// The number of the call to make, of `calls` in all, when those made so far had these
/// results: none when all are made or one has failed.
pub open spec fn next<E>(calls: nat, results: Seq<Result<(), E>>) -> Option<nat> {
    if results.len() < calls && result_of(results) is Ok {
        Some(results.len())
    } else {
        None
    }
}

/// These results come from making calls, of `calls` in all, one after the other until
/// one fails.
pub open spec fn is_run<E>(calls: nat, results: Seq<Result<(), E>>) -> bool {
    &&& results.len() <= calls
    &&& forall|i: int| 0 <= i < results.len() - 1 ==> (#[trigger] results[i]) is Ok
}

/// What is left to do once the calls are made.
pub struct Settled<R, E> {
    /// The records to store.
    pub records: R,
    /// What the request returns.
    pub result: Result<(), E>,
}

/// The records to store and the result of a request that would change its records from
/// `before` to `after`, when its calls had these results.
pub open spec fn settled<R, E>(before: R, after: R, results: Seq<Result<(), E>>) -> Settled<R, E> {
    Settled {
        records: if result_of(results) is Ok {
            after
        } else {
            before
        },
        result: result_of(results),
    }
}

/// Once a call has failed, what comes after does not matter.
proof fn lemma_first_error_stays<E>(results: Seq<Result<(), E>>, n: int)
    requires
        0 <= n <= results.len(),
        result_of(results.take(n)) is Err,
    ensures
        result_of(results) == result_of(results.take(n)),
    decreases results.len(),
{
    if n == results.len() {
        assert(results.take(n) =~= results);
    } else {
        assert(results.drop_last().take(n) =~= results.take(n));
        lemma_first_error_stays(results.drop_last(), n);
    }
}

/// Calls that all went through have no error.
proof fn lemma_all_went_through<E>(results: Seq<Result<(), E>>)
    requires
        forall|i: int| 0 <= i < results.len() ==> (#[trigger] results[i]) is Ok,
    ensures
        result_of(results) is Ok,
    decreases results.len(),
{
    if results.len() > 0 {
        assert forall|i: int| 0 <= i < results.drop_last().len() implies (
        #[trigger] results.drop_last()[i]) is Ok by {
            assert(results[i] is Ok);
        }
        lemma_all_went_through(results.drop_last());
        assert(results[results.len() - 1] is Ok);
    }
}

/// Finds the first call that failed.
fn find_failure<E>(results: &Vec<Result<(), E>>) -> (r: Option<usize>)
    ensures
        match r {
            None => result_of(results@) is Ok,
            Some(i) => i < results@.len() && results@[i as int] is Err && result_of(results@)
                == results@[i as int],
        },
{
    let mut i: usize = 0;
    assert(result_of(results@.take(0)) is Ok);
    while i < results.len()
        invariant
            i <= results@.len(),
            result_of(results@.take(i as int)) is Ok,
        decreases results@.len() - i,
    {
        assert(results@.take(i + 1).drop_last() =~= results@.take(i as int));
        if results[i].is_err() {
            proof {
                lemma_first_error_stays(results@, i + 1);
            }
            return Some(i);
        }
        i += 1;
    }
    assert(results@.take(i as int) =~= results@);
    None
}

/// The number of the call to make next, if one is to be made.
pub fn next_call<E>(calls: usize, results: &Vec<Result<(), E>>) -> (r: Option<usize>)
    ensures
        match r {
            Some(number) => next(calls as nat, results@) == Some(number as nat),
            None => next(calls as nat, results@) is None,
        },
{
    if results.len() < calls && find_failure(results).is_none() {
        Some(results.len())
    } else {
        None
    }
}

/// Decides which records to store, and what the request returns, once its calls are
/// made.
pub fn settle<R, E>(before: R, after: R, results: Vec<Result<(), E>>) -> (r: Settled<R, E>)
    ensures
        r == settled(before, after, results@),
{
    match find_failure(&results) {
        None => {
            assert(result_of(results@)->Ok_0 == ());
            Settled { records: after, result: Ok(()) }
        },
        Some(i) => {
            let mut made = results;
            Settled { records: before, result: made.remove(i) }
        },
    }
}

/// Making the call that is next, whatever its result, continues a run.
pub proof fn law_next_call_continues_the_run<E>(
    calls: nat,
    results: Seq<Result<(), E>>,
    result: Result<(), E>,
)
    requires
        is_run(calls, results),
        next(calls, results) is Some,
    ensures
        is_run(calls, results.push(result)),
{
    let made = results.push(result);
    assert forall|i: int| 0 <= i < made.len() - 1 implies (#[trigger] made[i]) is Ok by {
        assert(made[i] == results[i]);
        if i == results.len() - 1 {
            assert(result_of(results) is Ok);
            assert(result_of(results.drop_last()) is Ok);
        }
    }
}

/// No call is made after one that failed.
pub proof fn law_no_call_after_a_failure<E>(
    calls: nat,
    results: Seq<Result<(), E>>,
    failure: int,
)
    requires
        0 <= failure < results.len(),
        results[failure] is Err,
    ensures
        next(calls, results) is None,
{
    let made = results.take(failure + 1);
    assert(made.last() == results[failure]);
    assert(result_of(made) is Err);
    lemma_first_error_stays(results, failure + 1);
}

/// A run that is over either made all calls, and none failed, or ended with the one that
/// failed. In the first case the new records are stored; in the second the records stay
/// as they were, and the error of that call is handed on.
pub proof fn law_run_is_all_or_nothing<R, E>(
    calls: nat,
    results: Seq<Result<(), E>>,
    before: R,
    after: R,
)
    requires
        is_run(calls, results),
        next(calls, results) is None,
    ensures
        settled(before, after, results).result is Ok ==> {
            &&& results.len() == calls
            &&& forall|i: int| 0 <= i < results.len() ==> (#[trigger] results[i]) is Ok
            &&& settled(before, after, results).records == after
        },
        settled(before, after, results).result is Err ==> {
            &&& results.len() > 0
            &&& results.last() == settled(before, after, results).result
            &&& settled(before, after, results).records == before
        },
{
    if results.len() > 0 {
        let earlier = results.drop_last();
        assert forall|i: int| 0 <= i < earlier.len() implies (#[trigger] earlier[i]) is Ok by {
            assert(results[i] is Ok);
        }
        lemma_all_went_through(earlier);
    }
}

/// When all calls went through, the new records are stored and the request succeeds.
pub proof fn law_success_stores_the_new_records<R, E>(
    before: R,
    after: R,
    results: Seq<Result<(), E>>,
)
    requires
        forall|i: int| 0 <= i < results.len() ==> (#[trigger] results[i]) is Ok,
    ensures
        settled(before, after, results).records == after,
        settled(before, after, results).result is Ok,
{
    lemma_all_went_through(results);
}

/// When a call failed, the records stay as they were and the request fails with the error
/// of the first call that did, whatever came after it.
pub proof fn law_failure_keeps_the_old_records<R, E>(
    before: R,
    after: R,
    results: Seq<Result<(), E>>,
    failure: int,
)
    requires
        0 <= failure < results.len(),
        results[failure] is Err,
        forall|i: int| 0 <= i < failure ==> (#[trigger] results[i]) is Ok,
    ensures
        settled(before, after, results).records == before,
        settled(before, after, results).result == results[failure],
{
    let made = results.take(failure + 1);
    let earlier = made.drop_last();
    assert forall|i: int| 0 <= i < earlier.len() implies (#[trigger] earlier[i]) is Ok by {
        assert(results[i] is Ok);
    }
    lemma_all_went_through(earlier);
    assert(made.last() == results[failure]);
    lemma_first_error_stays(results, failure + 1);
}

/// As long as calls are left and those made so far went through, the next one is made, in
/// order; when none is left, none is.
pub proof fn law_calls_are_made_in_order<E>(calls: nat, results: Seq<Result<(), E>>)
    requires
        forall|i: int| 0 <= i < results.len() ==> (#[trigger] results[i]) is Ok,
    ensures
        results.len() < calls ==> next(calls, results) == Some(results.len()),
        results.len() >= calls ==> next(calls, results) is None,
{
    lemma_all_went_through(results);
}

} // verus!
