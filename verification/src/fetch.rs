//! Resource fetcher: tries an ordered list of candidate source URLs until one
//! succeeds. Only the selection logic lives here; the transport itself is an
//! outside concern that reports one outcome per attempt.

use vstd::prelude::*;

verus! {

/// Why a whole fetch failed.
#[derive(Debug, PartialEq, Eq, Clone, Copy)]
pub enum FetchError {
    /// Every candidate URL failed at the transport level.
    AllSourcesExhausted,
    /// The destination file could not be created or written.
    LocalWrite,
}

/// Outcome of one download attempt against one candidate URL.
#[derive(Debug, PartialEq, Eq, Clone, Copy)]
pub enum AttemptOutcome {
    /// The response was a success and its body replaced the destination file.
    Fetched,
    /// The transport failed or the response was not a success.
    TransportFailed,
    /// The destination file could not be created.
    WriteFailed,
}

/// What the fetch loop does after one attempt.
#[derive(Debug, PartialEq, Eq, Clone, Copy)]
pub enum FetchStep {
    /// Try the candidate URL at this index next.
    Try(usize),
    /// The fetch is over: the index of the URL that served the resource, or
    /// the reason none did.
    Done(Result<usize, FetchError>),
}

/// The result of trying the candidates from position `i` on: the first
/// position at which a download succeeds, stopping early if a destination
/// write fails, exhausting the list otherwise.
pub open spec fn spec_fetch_from(outcomes: Seq<AttemptOutcome>, i: int) -> Result<int, FetchError>
    decreases outcomes.len() - i,
{
    if i < 0 || i >= outcomes.len() {
        Result::Err(FetchError::AllSourcesExhausted)
    } else {
        match outcomes[i] {
            AttemptOutcome::Fetched => Result::Ok(i),
            AttemptOutcome::WriteFailed => Result::Err(FetchError::LocalWrite),
            AttemptOutcome::TransportFailed => spec_fetch_from(outcomes, i + 1),
        }
    }
}

/// A fetch that succeeds does so on the first URL whose download succeeded:
/// every candidate tried before it failed at the transport level, so none of
/// the failed attempts wrote anything to the destination.
pub proof fn lemma_fetch_uses_first_success(outcomes: Seq<AttemptOutcome>, start: int, i: int)
    requires
        0 <= start,
        spec_fetch_from(outcomes, start) == Result::<int, FetchError>::Ok(i),
    ensures
        start <= i < outcomes.len(),
        outcomes[i] == AttemptOutcome::Fetched,
        forall|j: int| start <= j < i ==> outcomes[j] == AttemptOutcome::TransportFailed,
    decreases outcomes.len() - start,
{
    if start < outcomes.len() {
        match outcomes[start] {
            AttemptOutcome::Fetched => {
            },
            AttemptOutcome::WriteFailed => {
            },
            AttemptOutcome::TransportFailed => {
                lemma_fetch_uses_first_success(outcomes, start + 1, i);
            },
        }
    }
}

/// A fetch that exhausted its sources saw every candidate fail at the
/// transport level: nothing was ever written to the destination.
pub proof fn lemma_fetch_exhausted_all_transport(outcomes: Seq<AttemptOutcome>, start: int)
    requires
        0 <= start,
        spec_fetch_from(outcomes, start) == Result::<int, FetchError>::Err(
            FetchError::AllSourcesExhausted,
        ),
    ensures
        forall|j: int|
            start <= j < outcomes.len() ==> outcomes[j] == AttemptOutcome::TransportFailed,
    decreases outcomes.len() - start,
{
    if start < outcomes.len() {
        match outcomes[start] {
            AttemptOutcome::Fetched => {
            },
            AttemptOutcome::WriteFailed => {
            },
            AttemptOutcome::TransportFailed => {
                lemma_fetch_exhausted_all_transport(outcomes, start + 1);
            },
        }
    }
}

/// One turn of the fetch loop: after the attempt at `index` (of `url_count`
/// candidates) ended in `outcome`, either the fetch is done or the next
/// candidate is up.
pub fn fetch_step(url_count: usize, index: usize, outcome: AttemptOutcome) -> (step: FetchStep)
    requires
        index < url_count,
    ensures
        match outcome {
            AttemptOutcome::Fetched => step == FetchStep::Done(
                Result::<usize, FetchError>::Ok(index),
            ),
            AttemptOutcome::WriteFailed => step == FetchStep::Done(
                Result::<usize, FetchError>::Err(FetchError::LocalWrite),
            ),
            AttemptOutcome::TransportFailed => if index + 1 < url_count {
                step == FetchStep::Try((index + 1) as usize)
            } else {
                step == FetchStep::Done(
                    Result::<usize, FetchError>::Err(FetchError::AllSourcesExhausted),
                )
            },
        },
{
    match outcome {
        AttemptOutcome::Fetched => FetchStep::Done(Result::Ok(index)),
        AttemptOutcome::WriteFailed => FetchStep::Done(Result::Err(FetchError::LocalWrite)),
        AttemptOutcome::TransportFailed => {
            if index < url_count - 1 {
                FetchStep::Try(index + 1)
            } else {
                FetchStep::Done(Result::Err(FetchError::AllSourcesExhausted))
            }
        },
    }
}

/// The whole fetch over a recorded list of per-URL outcomes: returns the
/// index of the first URL whose download succeeded, `LocalWrite` if a
/// destination write failed first, and `AllSourcesExhausted` if every
/// candidate failed at the transport level.
pub fn fetch_attempts(outcomes: &Vec<AttemptOutcome>) -> (r: Result<usize, FetchError>)
    ensures
        match r {
            Result::Ok(i) => spec_fetch_from(outcomes@, 0) == Result::<int, FetchError>::Ok(
                i as int,
            ),
            Result::Err(e) => spec_fetch_from(outcomes@, 0) == Result::<int, FetchError>::Err(e),
        },
{
    let mut i: usize = 0;
    while i < outcomes.len()
        invariant
            i <= outcomes@.len(),
            spec_fetch_from(outcomes@, 0) == spec_fetch_from(outcomes@, i as int),
        decreases outcomes@.len() - i,
    {
        match outcomes[i] {
            AttemptOutcome::Fetched => {
                return Result::Ok(i);
            },
            AttemptOutcome::WriteFailed => {
                return Result::Err(FetchError::LocalWrite);
            },
            AttemptOutcome::TransportFailed => {
                i = i + 1;
            },
        }
    }
    Result::Err(FetchError::AllSourcesExhausted)
}

} // verus!
