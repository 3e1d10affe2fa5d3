//! The fetch job: admission of one request at a time, the progress relay,
//! result capture and release, as transitions of one state that the worker
//! and the foreground share.

use crate::error::JobError;
use crate::progress::{snapshot_of, AsyncNotification, ProgressNotification, RemoteProgress};
use vstd::prelude::*;

verus! {

/// The sending half of a `crossbeam_channel` channel, carried through as an
/// opaque handle.
#[verifier::external_type_specification]
#[verifier::external_body]
#[verifier::reject_recursive_types(T)]
pub struct ExSender<T>(crossbeam_channel::Sender<T>);

/// `Sender::clone` of `crossbeam_channel`: a second handle to the same
/// channel. The copy holds the same channel reference as `sender` and nothing
/// else, so it is claimed equal to it. The call ends the process where more
/// than `isize::MAX` handles of one channel are alive.
#[verifier::external_body]
fn clone_sender(
    sender: &crossbeam_channel::Sender<AsyncNotification>,
) -> (handle: crossbeam_channel::Sender<AsyncNotification>)
    ensures
        handle == *sender,
{
    sender.clone()
}

/// `Sender::try_send` of `crossbeam_channel`: hands `tag` to the channel
/// without waiting and reports whether the channel took it. It does not when
/// the receiving side is gone or a bounded channel is full, so nothing is
/// claimed of the answer.
#[verifier::external_body]
fn try_notify(
    sender: &crossbeam_channel::Sender<AsyncNotification>,
    tag: AsyncNotification,
) -> (delivered: bool) {
    sender.try_send(tag).is_ok()
}

/// A user name and a password, either of which may be missing.
#[derive(Debug, Default)]
pub struct BasicAuthCredential {
    pub username: Option<String>,
    pub password: Option<String>,
}

/// The parameters of one fetch.
#[derive(Debug, Default)]
pub struct FetchRequest {
    pub remote: String,
    pub branch: String,
    pub basic_credential: Option<BasicAuthCredential>,
}

fn clone_text(text: &Option<String>) -> (copy: Option<String>)
    ensures
        copy == *text,
{
    match text {
        Some(s) => Some(s.clone()),
        None => None,
    }
}

impl Clone for BasicAuthCredential {
    fn clone(&self) -> (copy: Self)
        ensures
            copy == *self,
    {
        BasicAuthCredential {
            username: clone_text(&self.username),
            password: clone_text(&self.password),
        }
    }
}

impl Clone for FetchRequest {
    fn clone(&self) -> (copy: Self)
        ensures
            copy == *self,
    {
        let basic_credential = match &self.basic_credential {
            Some(c) => Some(c.clone()),
            None => None,
        };
        FetchRequest { remote: self.remote.clone(), branch: self.branch.clone(), basic_credential }
    }
}

/// The marker of an active job: the request that started it.
struct FetchState {
    request: FetchRequest,
}

/// What the foreground can observe of a fetch job.
pub ghost struct FetchView {
    /// The request of the active job, if one is active.
    pub state: Option<FetchRequest>,
    /// Metric and message of the job that finished last.
    pub last_result: Option<(usize, Seq<char>)>,
    /// The latest snapshot of the current run.
    pub progress: Option<RemoteProgress>,
}

/// The record kept of an outcome: the metric with an empty message on
/// success, zero with the failure's message otherwise.
pub open spec fn record_of(outcome: Result<usize, Seq<char>>) -> (usize, Seq<char>) {
    match outcome {
        Ok(metric) => (metric, Seq::<char>::empty()),
        Err(message) => (0usize, message),
    }
}

/// An outcome with its message as a sequence of characters.
pub open spec fn outcome_view(outcome: Result<usize, String>) -> Result<usize, Seq<char>> {
    match outcome {
        Ok(metric) => Ok(metric),
        Err(message) => Err(message@),
    }
}

/// A record with its message as a sequence of characters.
pub open spec fn record_view(record: Option<(usize, String)>) -> Option<(usize, Seq<char>)> {
    match record {
        Some(r) => Some((r.0, r.1@)),
        None => None,
    }
}

impl FetchView {
    /// No job active, nothing reported, nothing finished.
    pub open spec fn idle() -> FetchView {
        FetchView { state: None, last_result: None, progress: None }
    }

    /// A job is active.
    pub open spec fn is_pending(self) -> bool {
        self.state is Some
    }

    /// Every snapshot held has its total at or above its count.
    pub open spec fn wf(self) -> bool {
        self.progress matches Some(p) ==> p.wf()
    }

    /// A request: dropped while a job is active; otherwise it becomes the
    /// active job and the progress is unset.
    pub open spec fn request(self, params: FetchRequest) -> FetchView {
        if self.is_pending() {
            self
        } else {
            FetchView { state: Some(params), last_result: self.last_result, progress: None }
        }
    }

    /// One event of the active job: a step overwrites the progress, the
    /// terminal marker changes nothing. Without an active job nothing is
    /// written.
    pub open spec fn relay(self, ev: ProgressNotification) -> FetchView {
        if self.is_pending() && snapshot_of(ev) is Some {
            FetchView { state: self.state, last_result: self.last_result, progress: snapshot_of(ev) }
        } else {
            self
        }
    }

    /// The events relayed one after the other, first to last.
    pub open spec fn relay_seq(self, events: Seq<ProgressNotification>) -> FetchView
        decreases events.len(),
    {
        if events.len() == 0 {
            self
        } else {
            self.relay_seq(events.drop_last()).relay(events.last())
        }
    }

    /// The end of the active job: its outcome is recorded and the job is
    /// released. Without an active job nothing changes.
    pub open spec fn complete(self, outcome: Result<usize, Seq<char>>) -> FetchView {
        if self.is_pending() {
            FetchView { state: None, last_result: Some(record_of(outcome)), progress: self.progress }
        } else {
            self
        }
    }
}

/// What `request` decided.
pub open spec fn admitted(before: FetchView, params: FetchRequest) -> Option<FetchRequest> {
    if before.is_pending() {
        None
    } else {
        Some(params)
    }
}

/// What became of one relayed event.
#[derive(Clone, Copy, Debug, PartialEq, Eq, Structural)]
pub enum RelayStep {
    /// The terminal marker: the relay is over.
    Finished,
    /// A step was written to the progress and a wake-up was sent;
    /// `delivered` tells whether the channel took it.
    Forwarded { delivered: bool },
    /// A step arrived while no job was active and was dropped.
    Ignored,
}

/// What became of a completion.
#[derive(Clone, Copy, Debug, PartialEq, Eq, Structural)]
pub enum Completion {
    /// No job was active: nothing was recorded.
    NoJob,
    /// The outcome was recorded and the job released; `notified` tells
    /// whether the channel took the final wake-up.
    Released { notified: bool },
}

/// `taken` is the number of events before the first terminal marker in
/// `events`, or the length of `events` where it holds none.
pub open spec fn is_live_prefix(events: Seq<ProgressNotification>, taken: int) -> bool {
    &&& 0 <= taken <= events.len()
    &&& forall|i: int| 0 <= i < taken ==> events[i] != ProgressNotification::Done
    &&& taken < events.len() ==> events[taken] == ProgressNotification::Done
}

/// A fetch job of which at most one run is active at a time.
pub struct AsyncFetch {
    state: Option<FetchState>,
    last_result: Option<(usize, String)>,
    progress: Option<RemoteProgress>,
    sender: crossbeam_channel::Sender<AsyncNotification>,
}

impl View for AsyncFetch {
    type V = FetchView;

    closed spec fn view(&self) -> FetchView {
        FetchView {
            state: match self.state {
                Some(s) => Some(s.request),
                None => None,
            },
            last_result: record_view(self.last_result),
            progress: self.progress,
        }
    }
}

impl AsyncFetch {
    /// The snapshot held, if any, has its total at or above its count.
    #[verifier::type_invariant]
    closed spec fn snapshot_is_normal(self) -> bool {
        self.progress matches Some(p) ==> p.wf()
    }

    /// The handle through which the job sends its wake-ups.
    pub closed spec fn channel(&self) -> crossbeam_channel::Sender<AsyncNotification> {
        self.sender
    }

    /// An idle job that sends its wake-ups through `sender`.
    pub fn new(sender: &crossbeam_channel::Sender<AsyncNotification>) -> (fetch: Self)
        ensures
            fetch@ == FetchView::idle(),
            fetch.channel() == *sender,
    {
        AsyncFetch { state: None, last_result: None, progress: None, sender: clone_sender(sender) }
    }

    /// Whether a job is active.
    pub fn is_pending(&self) -> (pending: bool)
        ensures
            pending == self@.is_pending(),
    {
        self.state.is_some()
    }

    /// Metric and message of the job that finished last; the message is
    /// empty where it succeeded.
    pub fn last_result(&self) -> (record: Option<(usize, String)>)
        ensures
            record_view(record) == self@.last_result,
    {
        match &self.last_result {
            Some(r) => Some((r.0, r.1.clone())),
            None => None,
        }
    }

    /// The latest snapshot of the current run.
    pub fn progress(&self) -> (snapshot: Option<RemoteProgress>)
        ensures
            snapshot == self@.progress,
            snapshot matches Some(p) ==> p.wf(),
    {
        proof {
            use_type_invariant(self);
        }
        self.progress
    }

    /// Asks for a fetch. While a job is active the call changes nothing and
    /// returns `None`. Otherwise `params` becomes the active job, the
    /// progress is unset, and the parameters come back for the worker to
    /// run.
    pub fn request(&mut self, params: FetchRequest) -> (job: Option<FetchRequest>)
        ensures
            final(self)@ == old(self)@.request(params),
            final(self).channel() == old(self).channel(),
            job == admitted(old(self)@, params),
    {
        match self.set_request(&params) {
            Ok(()) => {
                self.progress = None;
                Some(params)
            },
            Err(_) => None,
        }
    }

    /// Installs `params` as the active job, or fails with the message
    /// "pending request" where a job is active already.
    fn set_request(&mut self, params: &FetchRequest) -> (res: Result<(), JobError>)
        ensures
            old(self)@.is_pending() ==> final(self)@ == old(self)@ && res is Err
                && res->Err_0.message_view() == "pending request"@,
            !old(self)@.is_pending() ==> res is Ok && final(self)@ == (FetchView {
                state: Some(*params),
                last_result: old(self)@.last_result,
                progress: old(self)@.progress,
            }),
            final(self).channel() == old(self).channel(),
    {
        proof {
            use_type_invariant(&*self);
        }
        if self.state.is_some() {
            return Err(JobError::Generic("pending request".to_owned()));
        }
        self.state = Some(FetchState { request: params.clone() });
        Ok(())
    }

    /// Releases the job.
    fn clear_request(&mut self)
        ensures
            final(self)@ == (FetchView {
                state: None,
                last_result: old(self)@.last_result,
                progress: old(self)@.progress,
            }),
            final(self).channel() == old(self).channel(),
    {
        proof {
            use_type_invariant(&*self);
        }
        self.state = None;
    }

    /// Records an outcome: the metric with an empty message, or zero with
    /// the failure's message.
    fn set_result(&mut self, res: Result<usize, String>)
        ensures
            final(self)@ == (FetchView {
                state: old(self)@.state,
                last_result: Some(record_of(outcome_view(res))),
                progress: old(self)@.progress,
            }),
            final(self).channel() == old(self).channel(),
    {
        proof {
            use_type_invariant(&*self);
        }
        self.last_result = match res {
            Ok(bytes) => Some((bytes, String::new())),
            Err(message) => Some((0, message)),
        };
    }

    /// Relays one event of the active job. A step is normalized, overwrites
    /// the progress, and a wake-up is sent; the terminal marker ends the
    /// relay and writes nothing. A step that arrives while no job is active
    /// is dropped.
    pub fn relay(&mut self, ev: ProgressNotification) -> (step: RelayStep)
        ensures
            final(self)@ == old(self)@.relay(ev),
            final(self).channel() == old(self).channel(),
            step == RelayStep::Finished <==> ev == ProgressNotification::Done,
            step == RelayStep::Ignored <==> ev != ProgressNotification::Done && !old(self)@.is_pending(),
    {
        match RemoteProgress::from_event(ev) {
            None => RelayStep::Finished,
            Some(snapshot) => {
                if self.state.is_some() {
                    self.progress = Some(snapshot);
                    let delivered = try_notify(&self.sender, AsyncNotification::Fetch);
                    RelayStep::Forwarded { delivered }
                } else {
                    RelayStep::Ignored
                }
            },
        }
    }

    /// Relays `events` in order up to the first terminal marker and returns
    /// how many steps came before it.
    pub fn relay_all(&mut self, events: &Vec<ProgressNotification>) -> (taken: usize)
        ensures
            is_live_prefix(events@, taken as int),
            final(self)@ == old(self)@.relay_seq(events@.take(taken as int)),
            final(self).channel() == old(self).channel(),
    {
        let mut i: usize = 0;
        while i < events.len()
            invariant
                0 <= i <= events.len(),
                forall|k: int| 0 <= k < i ==> events@[k] != ProgressNotification::Done,
                self@ == old(self)@.relay_seq(events@.take(i as int)),
                self.channel() == old(self).channel(),
            decreases events.len() - i,
        {
            let step = self.relay(events[i]);
            if step == RelayStep::Finished {
                return i;
            }
            proof {
                assert(events@.take(i + 1).drop_last() =~= events@.take(i as int));
            }
            i = i + 1;
        }
        i
    }

    /// Ends the active job: records `outcome`, releases the job, then sends
    /// the final wake-up, in this order. Whether or not the wake-up is
    /// taken, the job is released. Without an active job nothing changes.
    pub fn complete(&mut self, outcome: Result<usize, String>) -> (done: Completion)
        ensures
            final(self)@ == old(self)@.complete(outcome_view(outcome)),
            final(self).channel() == old(self).channel(),
            done == Completion::NoJob <==> !old(self)@.is_pending(),
    {
        if !self.is_pending() {
            return Completion::NoJob;
        }
        self.set_result(outcome);
        self.clear_request();
        let notified = try_notify(&self.sender, AsyncNotification::Fetch);
        Completion::Released { notified }
    }
}

} // verus!
