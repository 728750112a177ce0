//! Ingestion: classifying fetch failures, judging candidate records, and the
//! bounded retry policy that turns fetch results into a record or an error.
//!
//! The policy is a state machine: the caller performs each fetch (and each
//! wait between attempts) and hands the result to `on_fetch_result`, which
//! says what to do next.

use vstd::prelude::*;
use crate::extract::{error_title, unknown_title};
use crate::model::Fanfiction;
use crate::text::{contains, seq_contains, text_eq};

verus! {

/// A transport-level failure; retried up to the attempt bound.
#[derive(Clone, Copy, Debug, PartialEq, Eq, Structural)]
pub enum TransportFailure {
    Timeout,
    TlsFailure,
    OtherTransport,
}

/// Why a single fetch of a work page failed.
#[derive(Clone, Copy, Debug, PartialEq, Eq, Structural)]
pub enum FetchFailure {
    /// The archive confirms that the work does not exist or cannot be seen;
    /// never retried.
    NotFound,
    Transport(TransportFailure),
}

/// Why an attempt that may be retried failed.
#[derive(Clone, Copy, Debug, PartialEq, Eq, Structural)]
pub enum AttemptFailure {
    Transient(TransportFailure),
    /// The page was fetched, but the record read from it is unusable.
    InvalidContent,
}

/// Why ingestion gave no record.
#[derive(Clone, Copy, Debug, PartialEq, Eq, Structural)]
pub enum IngestError {
    NotFound,
    /// Every attempt failed; `last` is how the final one did.
    ExhaustedRetries { attempts: u32, last: AttemptFailure },
}

/// The number of fetches ingestion makes at most.
pub const MAX_ATTEMPTS: u32 = 3;

/// Classifies a failed fetch: an HTTP 404 or a "not found" message means the
/// work is missing; otherwise a TLS handshake failure, a timeout, or another
/// transport failure.
pub open spec fn fetch_failure_of(timed_out: bool, status: Option<u16>, message: Seq<char>) -> FetchFailure {
    if status == Some(404u16) {
        FetchFailure::NotFound
    } else if seq_contains(message, "SSL handshake failed"@) {
        FetchFailure::Transport(TransportFailure::TlsFailure)
    } else if timed_out || seq_contains(message, "operation timed out"@) {
        FetchFailure::Transport(TransportFailure::Timeout)
    } else if seq_contains(message, "404"@) || seq_contains(message, "Not Found"@) {
        FetchFailure::NotFound
    } else {
        FetchFailure::Transport(TransportFailure::OtherTransport)
    }
}

/// Classifies a failed fetch from what the transport reported: see
/// `fetch_failure_of`.
pub fn classify_fetch_error(timed_out: bool, status: Option<u16>, message: &str) -> (r: FetchFailure)
    ensures
        r == fetch_failure_of(timed_out, status, message@),
{
    if status == Some(404u16) {
        FetchFailure::NotFound
    } else if contains(message, "SSL handshake failed") {
        FetchFailure::Transport(TransportFailure::TlsFailure)
    } else if timed_out || contains(message, "operation timed out") {
        FetchFailure::Transport(TransportFailure::Timeout)
    } else if contains(message, "404") || contains(message, "Not Found") {
        FetchFailure::NotFound
    } else {
        FetchFailure::Transport(TransportFailure::OtherTransport)
    }
}

/// A candidate record is usable unless its title is a sentinel of failed
/// extraction, or it has no words, no authors and no fandoms at once.
pub open spec fn usable(f: Fanfiction) -> bool {
    &&& f.title@ != unknown_title()
    &&& f.title@ != error_title()
    &&& !(f.words == 0 && f.authors@.len() == 0 && f.fandoms@.len() == 0)
}

/// Judges whether a candidate record may be kept: see `usable`.
pub fn is_usable(fic: &Fanfiction) -> (r: bool)
    ensures
        r == usable(*fic),
{
    let t = fic.title.as_str();
    if text_eq(t, "Unknown Title") || text_eq(t, "Unknown Title (Error Loading)") {
        return false;
    }
    !(fic.words == 0 && fic.authors.len() == 0 && fic.fandoms.len() == 0)
}

/// Where ingestion stands: the number of the attempt whose result is awaited,
/// counted from 1.
#[derive(Clone, Copy, Debug, PartialEq, Eq, Structural)]
pub struct IngestState {
    pub attempt: u32,
}

/// What the caller does next.
#[derive(Debug)]
pub enum IngestStep {
    /// Wait this many seconds, then fetch again.
    Retry { wait_secs: u64 },
    /// Ingestion is over.
    Done(Result<Fanfiction, IngestError>),
}

/// The state before the first fetch.
pub fn begin_ingest() -> (r: IngestState)
    ensures
        r == (IngestState { attempt: 1 }),
{
    IngestState { attempt: 1 }
}

/// After a failed attempt `attempt`: retry after `2 * attempt` seconds while
/// attempts remain, else give up with that failure.
pub open spec fn after_failure(attempt: u32, f: AttemptFailure) -> (IngestState, IngestStep) {
    if attempt < MAX_ATTEMPTS {
        (IngestState { attempt: (attempt + 1) as u32 }, IngestStep::Retry { wait_secs: (2 * attempt) as u64 })
    } else {
        (
            IngestState { attempt },
            IngestStep::Done(Err(IngestError::ExhaustedRetries { attempts: MAX_ATTEMPTS, last: f })),
        )
    }
}

/// The next state and step after a fetch result: a missing work ends
/// ingestion at once, a usable record ends it with that record, and a
/// transport failure or an unusable record is retried.
pub open spec fn next_step(state: IngestState, result: Result<Fanfiction, FetchFailure>) -> (IngestState, IngestStep) {
    match result {
        Err(FetchFailure::NotFound) => (state, IngestStep::Done(Err(IngestError::NotFound))),
        Err(FetchFailure::Transport(k)) => after_failure(state.attempt, AttemptFailure::Transient(k)),
        Ok(c) => if usable(c) {
            (state, IngestStep::Done(Ok(c)))
        } else {
            after_failure(state.attempt, AttemptFailure::InvalidContent)
        },
    }
}

/// Decides what follows a fetch result: see `next_step`.
pub fn on_fetch_result(state: IngestState, result: Result<Fanfiction, FetchFailure>) -> (r: (IngestState, IngestStep))
    requires
        1 <= state.attempt <= MAX_ATTEMPTS,
    ensures
        r == next_step(state, result),
        1 <= r.0.attempt <= MAX_ATTEMPTS,
        r.1 is Retry ==> r.0.attempt == state.attempt + 1,
{
    let failure = match result {
        Err(FetchFailure::NotFound) => {
            return (state, IngestStep::Done(Err(IngestError::NotFound)));
        },
        Err(FetchFailure::Transport(k)) => AttemptFailure::Transient(k),
        Ok(c) => {
            if is_usable(&c) {
                return (state, IngestStep::Done(Ok(c)));
            }
            AttemptFailure::InvalidContent
        },
    };
    if state.attempt < MAX_ATTEMPTS {
        (
            IngestState { attempt: state.attempt + 1 },
            IngestStep::Retry { wait_secs: 2 * state.attempt as u64 },
        )
    } else {
        (
            state,
            IngestStep::Done(Err(IngestError::ExhaustedRetries { attempts: MAX_ATTEMPTS, last: failure })),
        )
    }
}

/// How an ingestion went: its result, the number of fetches made and the
/// waits between them, in seconds.
#[derive(Debug)]
pub struct IngestRun {
    pub result: Result<Fanfiction, IngestError>,
    pub fetch_calls: u32,
    pub waits: Vec<u64>,
}

/// The ingestion that the fetch results `outs` drive from `state`, one result
/// consumed per fetch: its result, its number of fetches and its waits.
pub open spec fn run_from(outs: Seq<Result<Fanfiction, FetchFailure>>, state: IngestState) -> (
    Result<Fanfiction, IngestError>,
    nat,
    Seq<u64>,
)
    decreases MAX_ATTEMPTS - state.attempt,
{
    if state.attempt < 1 || state.attempt > MAX_ATTEMPTS || outs.len() == 0 {
        (Err(IngestError::NotFound), 0, Seq::empty())
    } else {
        match next_step(state, outs[0]) {
            (s, IngestStep::Retry { wait_secs }) => if s.attempt > state.attempt {
                let rest = run_from(outs.drop_first(), s);
                (rest.0, rest.1 + 1, seq![wait_secs] + rest.2)
            } else {
                (Err(IngestError::NotFound), 0, Seq::empty())
            },
            (_, IngestStep::Done(res)) => (res, 1, Seq::empty()),
        }
    }
}

/// Runs ingestion against a fixed sequence of fetch results, one per fetch,
/// as a stand-in fetcher would give them.
pub fn ingest_scripted(outcomes: Vec<Result<Fanfiction, FetchFailure>>) -> (r: IngestRun)
    requires
        outcomes@.len() >= MAX_ATTEMPTS,
    ensures
        (r.result, r.fetch_calls as nat, r.waits@) == run_from(outcomes@, IngestState { attempt: 1 }),
{
    let ghost whole = outcomes@;
    let mut outs = outcomes;
    let mut state = begin_ingest();
    let mut calls: u32 = 0;
    let mut waits: Vec<u64> = Vec::new();
    loop
        invariant
            whole == outcomes@,
            1 <= state.attempt <= MAX_ATTEMPTS,
            calls == state.attempt - 1,
            outs@.len() >= MAX_ATTEMPTS - state.attempt + 1,
            ({
                let rest = run_from(outs@, state);
                run_from(whole, IngestState { attempt: 1 }) == (rest.0, (rest.1 + calls) as nat, waits@ + rest.2)
            }),
        decreases MAX_ATTEMPTS - state.attempt,
    {
        let ghost before = outs@;
        let result = outs.remove(0);
        assert(before.drop_first() =~= outs@);
        let (next, step) = on_fetch_result(state, result);
        match step {
            IngestStep::Retry { wait_secs } => {
                let ghost old_waits = waits@;
                waits.push(wait_secs);
                assert(waits@ + run_from(outs@, next).2 =~= old_waits + (seq![wait_secs] + run_from(outs@, next).2));
                calls = calls + 1;
                state = next;
            },
            IngestStep::Done(res) => {
                assert(before[0] == result);
                assert(next_step(state, before[0]).1 == IngestStep::Done(res));
                assert(run_from(before, state) == (res, 1nat, Seq::<u64>::empty()));
                assert(waits@ + Seq::<u64>::empty() =~= waits@);
                return IngestRun { result: res, fetch_calls: calls + 1, waits };
            },
        }
    }
}

/// When every fetch fails in transport, ingestion fetches exactly
/// `MAX_ATTEMPTS` times, waits 2 and then 4 seconds between them, and gives up
/// with `ExhaustedRetries` holding the last transport failure.
pub proof fn lemma_retry_bound(outs: Seq<Result<Fanfiction, FetchFailure>>)
    requires
        outs.len() >= MAX_ATTEMPTS,
        forall|i: int| 0 <= i < outs.len() ==> (#[trigger] outs[i] is Err && outs[i]->Err_0 is Transport),
    ensures
        run_from(outs, IngestState { attempt: 1 }).1 == MAX_ATTEMPTS as nat,
        run_from(outs, IngestState { attempt: 1 }).2 == seq![2u64, 4u64],
        run_from(outs, IngestState { attempt: 1 }).0 == Err::<Fanfiction, IngestError>(
            IngestError::ExhaustedRetries {
                attempts: MAX_ATTEMPTS,
                last: AttemptFailure::Transient(outs[2]->Err_0->Transport_0),
            },
        ),
{
    let o1 = outs.drop_first();
    let o2 = o1.drop_first();
    assert(outs[0] is Err && outs[0]->Err_0 is Transport);
    assert(o1[0] == outs[1]);
    assert(outs[1] is Err && outs[1]->Err_0 is Transport);
    assert(o2[0] == outs[2]);
    assert(outs[2] is Err && outs[2]->Err_0 is Transport);
    let r3 = run_from(o2, IngestState { attempt: 3 });
    assert(r3.1 == 1 && r3.2 == Seq::<u64>::empty());
    let r2 = run_from(o1, IngestState { attempt: 2 });
    assert(r2.2 == seq![4u64] + r3.2);
    assert(seq![4u64] + Seq::<u64>::empty() =~= seq![4u64]);
    let r1 = run_from(outs, IngestState { attempt: 1 });
    assert(r1.2 == seq![2u64] + r2.2);
    assert(seq![2u64] + seq![4u64] =~= seq![2u64, 4u64]);
}

/// When the first fetch reports the work missing, ingestion fetches once and
/// fails with `NotFound`.
pub proof fn lemma_not_found_short_circuit(outs: Seq<Result<Fanfiction, FetchFailure>>)
    requires
        outs.len() >= 1,
        outs[0] == Err::<Fanfiction, FetchFailure>(FetchFailure::NotFound),
    ensures
        run_from(outs, IngestState { attempt: 1 }).1 == 1,
        run_from(outs, IngestState { attempt: 1 }).0 == Err::<Fanfiction, IngestError>(IngestError::NotFound),
{
}

} // verus!
