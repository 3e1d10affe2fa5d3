//! Progress events as the operation reports them, the snapshot the
//! foreground reads, and the tags of the wake-up notifications.

use vstd::prelude::*;

verus! {

/// Tag of a wake-up notification: which kind of job has news.
#[derive(Clone, Copy, Debug, PartialEq, Eq, Structural)]
pub enum AsyncNotification {
    Status,
    Diff,
    Log,
    CommitFiles,
    Tags,
    Push,
    PushTags,
    Fetch,
}

/// The stage a remote operation is in.
#[derive(Clone, Copy, Debug, PartialEq, Eq, Structural)]
pub enum RemoteProgressState {
    Packing,
    Transfer,
    Pushing,
}

/// One step reported by the running operation, or the marker that no
/// further step will follow.
#[derive(Clone, Copy, Debug, PartialEq, Eq, Structural)]
pub enum ProgressNotification {
    /// `current` of `total` units of `state` are done.
    Update { state: RemoteProgressState, current: usize, total: usize },
    /// The operation has returned; nothing follows.
    Done,
}

/// The last known progress of the active job. `total` is never below
/// `current`.
#[derive(Clone, Copy, Debug, PartialEq, Eq, Structural)]
pub struct RemoteProgress {
    pub state: RemoteProgressState,
    pub current: usize,
    pub total: usize,
}

/// The snapshot that stands for an event: the event's stage and count, with
/// the total raised to the count where the event reported less. The terminal
/// marker has no snapshot.
pub open spec fn snapshot_of(ev: ProgressNotification) -> Option<RemoteProgress> {
    match ev {
        ProgressNotification::Update { state, current, total } => Some(
            RemoteProgress { state, current, total: if total < current { current } else { total } },
        ),
        ProgressNotification::Done => None,
    }
}

impl ProgressNotification {
    /// Whether this is the terminal marker.
    pub fn is_done(&self) -> (done: bool)
        ensures
            done == (*self == ProgressNotification::Done),
    {
        match self {
            ProgressNotification::Done => true,
            _ => false,
        }
    }
}

impl RemoteProgress {
    /// `current <= total`.
    pub open spec fn wf(self) -> bool {
        self.current <= self.total
    }

    /// Neither the count nor the total of `later` is below that of `self`.
    pub open spec fn not_after(self, later: RemoteProgress) -> bool {
        self.current <= later.current && self.total <= later.total
    }

    /// Normalizes an event into a snapshot; `None` for the terminal marker.
    pub fn from_event(ev: ProgressNotification) -> (snapshot: Option<RemoteProgress>)
        ensures
            snapshot == snapshot_of(ev),
            snapshot matches Some(p) ==> p.wf(),
    {
        match ev {
            ProgressNotification::Update { state, current, total } => {
                let total: usize = if total < current { current } else { total };
                Some(RemoteProgress { state, current, total })
            },
            ProgressNotification::Done => None,
        }
    }
}

} // verus!
