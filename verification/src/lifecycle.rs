//! What holds of a fetch job over several calls, proved of the transitions
//! that the job's functions are specified by.

use crate::fetch::{admitted, record_of, FetchRequest, FetchView};
use crate::progress::{snapshot_of, ProgressNotification};
use vstd::prelude::*;

verus! {

/// No event in `events` is the terminal marker.
pub open spec fn all_steps(events: Seq<ProgressNotification>) -> bool {
    forall|i: int| 0 <= i < events.len() ==> events[i] != ProgressNotification::Done
}

/// From each step of `events` to every later one neither the count nor the
/// total falls.
pub open spec fn steps_ascend(events: Seq<ProgressNotification>) -> bool {
    forall|i: int, j: int|
        0 <= i <= j < events.len() ==> match (#[trigger] events[i], #[trigger] events[j]) {
            (
                ProgressNotification::Update { current: c1, total: t1, .. },
                ProgressNotification::Update { current: c2, total: t2, .. },
            ) => c1 <= c2 && t1 <= t2,
            _ => true,
        }
}

/// Relaying events neither admits nor releases a job and leaves the last
/// result as it was. While a job is active and the events hold a step, the
/// progress is the snapshot of the last step; without an active job the
/// progress is untouched.
pub proof fn relay_seq_keeps_job(m: FetchView, events: Seq<ProgressNotification>)
    ensures
        m.relay_seq(events).state == m.state,
        m.relay_seq(events).last_result == m.last_result,
        !m.is_pending() ==> m.relay_seq(events) == m,
        m.is_pending() && all_steps(events) && events.len() > 0 ==> m.relay_seq(events).progress
            == snapshot_of(events.last()),
    decreases events.len(),
{
    if events.len() > 0 {
        relay_seq_keeps_job(m, events.drop_last());
    }
}

/// Single flight: once a request was made, a second one before the job ends
/// is not admitted, whatever was relayed in between. The job stays pending
/// over both calls, the state after the second call is the state before it,
/// and the active job is still the one that was active after the first.
pub proof fn single_flight(
    m: FetchView,
    first: FetchRequest,
    events: Seq<ProgressNotification>,
    second: FetchRequest,
)
    ensures
        m.request(first).is_pending(),
        admitted(m.request(first).relay_seq(events), second) is None,
        m.request(first).relay_seq(events).request(second) == m.request(first).relay_seq(events),
        m.request(first).relay_seq(events).request(second).is_pending(),
        m.request(first).relay_seq(events).request(second).state == m.request(first).state,
        !m.is_pending() ==> m.request(first).relay_seq(events).request(second).state == Some(first),
{
    relay_seq_keeps_job(m.request(first), events);
}

/// A request made while a job is active changes neither the job, nor the
/// progress, nor the last result, and hands no job out.
pub proof fn request_while_pending_is_noop(m: FetchView, params: FetchRequest)
    requires
        m.is_pending(),
    ensures
        m.request(params) == m,
        admitted(m, params) is None,
{
}

/// A request made while no job is active is admitted with its own
/// parameters, and unsets the progress.
pub proof fn request_while_idle_is_admitted(m: FetchView, params: FetchRequest)
    requires
        !m.is_pending(),
    ensures
        admitted(m, params) == Some(params),
        m.request(params).state == Some(params),
        m.request(params).progress is None,
        m.request(params).last_result == m.last_result,
{
}

/// When the active job ends, with success or with failure, it is no longer
/// pending, a result is there, and the next request is admitted.
pub proof fn completion_releases(m: FetchView, outcome: Result<usize, Seq<char>>, next: FetchRequest)
    requires
        m.is_pending(),
    ensures
        !m.complete(outcome).is_pending(),
        m.complete(outcome).last_result is Some,
        m.complete(outcome).last_result == Some(record_of(outcome)),
        admitted(m.complete(outcome), next) == Some(next),
{
}

/// The record of a success is its metric with an empty message; the record
/// of a failure is zero with the failure's message. So, failures having a
/// message that is not empty, a record's message is empty exactly where the
/// job succeeded.
pub proof fn result_shape(m: FetchView, outcome: Result<usize, Seq<char>>)
    requires
        m.is_pending(),
    ensures
        outcome matches Ok(metric) ==> m.complete(outcome).last_result == Some(
            (metric, Seq::<char>::empty()),
        ),
        outcome matches Err(message) ==> m.complete(outcome).last_result == Some((0usize, message)),
        (outcome matches Err(message) ==> message.len() > 0) ==> (outcome is Ok
            <==> record_of(outcome).1.len() == 0),
{
}

/// A failed job is released like any other: after its end nothing is
/// pending.
pub proof fn failure_releases(m: FetchView, message: Seq<char>)
    requires
        m.is_pending(),
    ensures
        !m.complete(Err(message)).is_pending(),
        m.complete(Err(message)).last_result == Some((0usize, message)),
{
}

/// While a job runs and its steps ascend, the snapshots read after any two
/// points of the relay ascend too: the later one has neither a lower count
/// nor a lower total.
pub proof fn progress_ascends(m: FetchView, events: Seq<ProgressNotification>, i: int, j: int)
    requires
        m.is_pending(),
        all_steps(events),
        steps_ascend(events),
        0 < i <= j <= events.len(),
    ensures
        m.relay_seq(events.take(i)).progress matches Some(earlier) && (m.relay_seq(
            events.take(j),
        ).progress matches Some(later) && earlier.not_after(later)),
{
    relay_seq_keeps_job(m, events.take(i));
    relay_seq_keeps_job(m, events.take(j));
    assert(events.take(i).last() == events[i - 1]);
    assert(events.take(j).last() == events[j - 1]);
}

/// A step that arrives while no job is active writes nothing: what a
/// finished job reported late cannot reach the progress.
pub proof fn idle_relay_writes_nothing(m: FetchView, ev: ProgressNotification)
    requires
        !m.is_pending(),
    ensures
        m.relay(ev) == m,
{
}

/// After two jobs the result is that of the second alone, and the progress
/// of the first is gone once the second is admitted.
pub proof fn second_job_replaces_result(
    m: FetchView,
    first: Result<usize, Seq<char>>,
    params: FetchRequest,
    second: Result<usize, Seq<char>>,
)
    requires
        m.is_pending(),
    ensures
        m.complete(first).request(params).progress is None,
        m.complete(first).request(params).complete(second).last_result == Some(record_of(second)),
        !m.complete(first).request(params).complete(second).is_pending(),
{
}

/// Every snapshot a job holds has its total at or above its count: the idle
/// job holds none, and no transition writes another kind.
pub proof fn snapshots_stay_well_formed(
    m: FetchView,
    params: FetchRequest,
    ev: ProgressNotification,
    outcome: Result<usize, Seq<char>>,
)
    requires
        m.wf(),
    ensures
        FetchView::idle().wf(),
        m.request(params).wf(),
        m.relay(ev).wf(),
        m.complete(outcome).wf(),
{
}

} // verus!
