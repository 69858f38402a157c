use vstd::prelude::*;

verus! {

/// A failed host call, carrying the raw (negative) status the host returned.
#[derive(Debug, Clone, Copy, PartialEq, Eq, Structural)]
pub struct HResult(pub i32);

/// What a single host status means: success for any non-negative value.
pub open spec fn status_result(status: i32) -> Result<(), HResult> {
    if status >= 0 {
        Ok(())
    } else {
        Err(HResult(status))
    }
}

/// The outcome of a sequence of host calls issued in order: the first
/// failure, if any.
pub open spec fn first_failure_of(statuses: Seq<i32>) -> Result<(), HResult>
    decreases statuses.len(),
{
    if statuses.len() == 0 {
        Ok(())
    } else if statuses[0] < 0 {
        Err(HResult(statuses[0]))
    } else {
        first_failure_of(statuses.drop_first())
    }
}

/// Whether `statuses` is what a caller that stops at the first failure
/// collects from running `n` host calls: all `n` succeeded, or the last one
/// collected is the first that failed.
pub open spec fn ran_until_failure(statuses: Seq<i32>, n: nat) -> bool {
    &&& statuses.len() <= n
    &&& forall|i: int| 0 <= i < statuses.len() - 1 ==> statuses[i] >= 0
    &&& (statuses.len() < n ==> statuses.len() > 0 && statuses.last() < 0)
}

/// Normalizes a host status into a `Result`.
pub fn map_err(result: i32) -> (r: Result<(), HResult>)
    ensures
        r == status_result(result),
{
    if result >= 0 {
        Ok(())
    } else {
        Err(HResult(result))
    }
}

/// The first failure among statuses of host calls made in order.
pub fn first_failure(statuses: &[i32]) -> (r: Result<(), HResult>)
    ensures
        r == first_failure_of(statuses@),
{
    let mut i: usize = 0;
    assert(statuses@.subrange(0, statuses@.len() as int) =~= statuses@);
    while i < statuses.len()
        invariant
            0 <= i <= statuses@.len(),
            first_failure_of(statuses@) == first_failure_of(statuses@.subrange(i as int, statuses@.len() as int)),
        decreases statuses@.len() - i,
    {
        let s = statuses[i];
        let ghost rest = statuses@.subrange(i as int, statuses@.len() as int);
        assert(rest.drop_first() =~= statuses@.subrange(i + 1, statuses@.len() as int));
        if s < 0 {
            return Err(HResult(s));
        }
        i = i + 1;
    }
    assert(statuses@.subrange(i as int, statuses@.len() as int) =~= Seq::<i32>::empty());
    Ok(())
}

} // verus!
