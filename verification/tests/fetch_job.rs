use asyncgit::error::JobError;
use asyncgit::fetch::{AsyncFetch, BasicAuthCredential, Completion, FetchRequest, RelayStep};
use asyncgit::progress::{
    AsyncNotification, ProgressNotification, RemoteProgress, RemoteProgressState,
};
use crossbeam_channel::{bounded, unbounded};

fn request_for(remote: &str, branch: &str) -> FetchRequest {
    FetchRequest {
        remote: remote.to_string(),
        branch: branch.to_string(),
        basic_credential: None,
    }
}

fn step(current: usize, total: usize) -> ProgressNotification {
    ProgressNotification::Update { state: RemoteProgressState::Transfer, current, total }
}

fn counts(fetch: &AsyncFetch) -> Option<(usize, usize)> {
    fetch.progress().map(|p| (p.current, p.total))
}

#[test]
fn nothing_requested_nothing_to_see() {
    let (sender, receiver) = unbounded();
    let fetch = AsyncFetch::new(&sender);
    assert!(!fetch.is_pending());
    assert_eq!(fetch.progress(), None);
    assert_eq!(fetch.last_result(), None);
    assert!(receiver.try_recv().is_err());
}

#[test]
fn successful_job_reports_progress_then_result() {
    let (sender, receiver) = unbounded();
    let mut fetch = AsyncFetch::new(&sender);

    let job = fetch.request(request_for("origin", "main")).expect("admitted");
    assert_eq!(job.remote, "origin");
    assert_eq!(job.branch, "main");
    assert!(job.basic_credential.is_none());
    assert!(fetch.is_pending());
    assert_eq!(fetch.progress(), None);

    assert_eq!(fetch.relay(step(1, 10)), RelayStep::Forwarded { delivered: true });
    assert_eq!(counts(&fetch), Some((1, 10)));
    assert_eq!(fetch.relay(step(10, 10)), RelayStep::Forwarded { delivered: true });
    assert_eq!(counts(&fetch), Some((10, 10)));
    assert_eq!(fetch.relay(ProgressNotification::Done), RelayStep::Finished);
    assert_eq!(counts(&fetch), Some((10, 10)));
    assert!(fetch.is_pending());

    assert_eq!(fetch.complete(Ok(512)), Completion::Released { notified: true });
    assert!(!fetch.is_pending());
    assert_eq!(fetch.last_result(), Some((512, String::new())));

    assert_eq!(receiver.try_recv(), Ok(AsyncNotification::Fetch));
    assert_eq!(receiver.try_recv(), Ok(AsyncNotification::Fetch));
    assert_eq!(receiver.try_recv(), Ok(AsyncNotification::Fetch));
    assert!(receiver.try_recv().is_err());
}

#[test]
fn second_request_while_busy_is_dropped() {
    let (sender, receiver) = unbounded();
    let mut fetch = AsyncFetch::new(&sender);

    let first = fetch.request(request_for("origin", "main"));
    let second = fetch.request(request_for("upstream", "dev"));
    assert_eq!(first.map(|job| job.branch), Some("main".to_string()));
    assert!(second.is_none());
    assert!(fetch.is_pending());
    assert_eq!(fetch.progress(), None);
    assert_eq!(fetch.last_result(), None);
    assert!(receiver.try_recv().is_err());
}

#[test]
fn busy_request_leaves_progress_and_result() {
    let (sender, _receiver) = unbounded();
    let mut fetch = AsyncFetch::new(&sender);
    assert!(fetch.request(request_for("origin", "main")).is_some());
    assert_eq!(fetch.complete(Ok(7)), Completion::Released { notified: true });
    assert!(fetch.request(request_for("origin", "next")).is_some());
    fetch.relay(step(3, 9));

    assert!(fetch.request(request_for("origin", "other")).is_none());
    assert!(fetch.is_pending());
    assert_eq!(counts(&fetch), Some((3, 9)));
    assert_eq!(fetch.last_result(), Some((7, String::new())));
}

#[test]
fn failed_job_keeps_message_and_releases() {
    let (sender, receiver) = unbounded();
    let mut fetch = AsyncFetch::new(&sender);
    assert!(fetch.request(request_for("origin", "main")).is_some());
    assert_eq!(fetch.relay(ProgressNotification::Done), RelayStep::Finished);
    let done = fetch.complete(Err("auth rejected".to_string()));
    assert_eq!(done, Completion::Released { notified: true });
    assert_eq!(fetch.last_result(), Some((0, "auth rejected".to_string())));
    assert!(!fetch.is_pending());
    assert_eq!(receiver.try_recv(), Ok(AsyncNotification::Fetch));
    assert!(receiver.try_recv().is_err());
    assert!(fetch.request(request_for("origin", "main")).is_some());
}

#[test]
fn second_job_replaces_first_result() {
    let (sender, _receiver) = unbounded();
    let mut fetch = AsyncFetch::new(&sender);
    assert!(fetch.request(request_for("origin", "main")).is_some());
    fetch.relay(step(4, 8));
    fetch.complete(Err("network unreachable".to_string()));
    assert_eq!(fetch.last_result(), Some((0, "network unreachable".to_string())));
    assert_eq!(counts(&fetch), Some((4, 8)));

    let job = fetch.request(request_for("backup", "release")).expect("admitted");
    assert_eq!(job.remote, "backup");
    assert_eq!(fetch.progress(), None);
    assert_eq!(fetch.last_result(), Some((0, "network unreachable".to_string())));
    fetch.complete(Ok(2048));
    assert_eq!(fetch.last_result(), Some((2048, String::new())));
    assert!(!fetch.is_pending());
}

#[test]
fn success_with_zero_metric_has_empty_message() {
    let (sender, _receiver) = unbounded();
    let mut fetch = AsyncFetch::new(&sender);
    fetch.request(request_for("origin", "main"));
    fetch.complete(Ok(0));
    assert_eq!(fetch.last_result(), Some((0, String::new())));
}

#[test]
fn credential_travels_with_the_job() {
    let (sender, _receiver) = unbounded();
    let mut fetch = AsyncFetch::new(&sender);
    let params = FetchRequest {
        remote: "origin".to_string(),
        branch: "main".to_string(),
        basic_credential: Some(BasicAuthCredential {
            username: Some("alice".to_string()),
            password: None,
        }),
    };
    let job = fetch.request(params).expect("admitted");
    let credential = job.basic_credential.expect("credential");
    assert_eq!(credential.username, Some("alice".to_string()));
    assert_eq!(credential.password, None);
}

#[test]
fn clone_of_request_keeps_every_field() {
    let params = FetchRequest {
        remote: "origin".to_string(),
        branch: "main".to_string(),
        basic_credential: Some(BasicAuthCredential {
            username: Some("bob".to_string()),
            password: Some("pw".to_string()),
        }),
    };
    let copy = params.clone();
    assert_eq!(copy.remote, "origin");
    assert_eq!(copy.branch, "main");
    let credential = copy.basic_credential.expect("credential");
    assert_eq!(credential.username, Some("bob".to_string()));
    assert_eq!(credential.password, Some("pw".to_string()));
    let empty = FetchRequest::default();
    assert_eq!(empty.remote, "");
    assert!(empty.basic_credential.is_none());
}

#[test]
fn step_without_job_is_ignored() {
    let (sender, receiver) = unbounded();
    let mut fetch = AsyncFetch::new(&sender);
    assert_eq!(fetch.relay(step(1, 2)), RelayStep::Ignored);
    assert_eq!(fetch.progress(), None);
    assert_eq!(fetch.relay(ProgressNotification::Done), RelayStep::Finished);
    assert!(receiver.try_recv().is_err());

    fetch.request(request_for("origin", "main"));
    fetch.relay(step(1, 2));
    fetch.complete(Ok(1));
    assert_eq!(fetch.relay(step(2, 2)), RelayStep::Ignored);
    assert_eq!(counts(&fetch), Some((1, 2)));
}

#[test]
fn completion_without_job_changes_nothing() {
    let (sender, receiver) = unbounded();
    let mut fetch = AsyncFetch::new(&sender);
    assert_eq!(fetch.complete(Ok(9)), Completion::NoJob);
    assert_eq!(fetch.last_result(), None);
    assert!(!fetch.is_pending());
    assert!(receiver.try_recv().is_err());
}

#[test]
fn batch_stops_at_terminal_marker() {
    let (sender, receiver) = unbounded();
    let mut fetch = AsyncFetch::new(&sender);
    fetch.request(request_for("origin", "main"));
    let events = vec![step(1, 10), step(10, 10), ProgressNotification::Done, step(3, 10)];
    assert_eq!(fetch.relay_all(&events), 2);
    assert_eq!(counts(&fetch), Some((10, 10)));
    assert_eq!(receiver.try_iter().count(), 2);

    let more = vec![step(11, 12)];
    assert_eq!(fetch.relay_all(&more), 1);
    assert_eq!(counts(&fetch), Some((11, 12)));
    assert_eq!(fetch.relay_all(&Vec::new()), 0);
    assert_eq!(fetch.relay_all(&vec![ProgressNotification::Done]), 0);
    assert_eq!(counts(&fetch), Some((11, 12)));
}

#[test]
fn progress_follows_ascending_steps() {
    let (sender, _receiver) = unbounded();
    let mut fetch = AsyncFetch::new(&sender);
    fetch.request(request_for("origin", "main"));
    let mut last = (0usize, 0usize);
    for (current, total) in [(0usize, 5usize), (1, 5), (3, 5), (3, 6), (6, 6)] {
        fetch.relay(step(current, total));
        let seen = counts(&fetch).expect("snapshot");
        assert!(last.0 <= seen.0 && last.1 <= seen.1);
        last = seen;
    }
    assert_eq!(last, (6, 6));
}

#[test]
fn job_is_released_when_nobody_listens() {
    let (sender, receiver) = unbounded();
    let mut fetch = AsyncFetch::new(&sender);
    drop(receiver);
    fetch.request(request_for("origin", "main"));
    assert_eq!(fetch.relay(step(1, 2)), RelayStep::Forwarded { delivered: false });
    assert_eq!(counts(&fetch), Some((1, 2)));
    assert_eq!(fetch.complete(Ok(3)), Completion::Released { notified: false });
    assert!(!fetch.is_pending());
    assert_eq!(fetch.last_result(), Some((3, String::new())));
}

#[test]
fn job_is_released_when_channel_is_full() {
    let (sender, receiver) = bounded(1);
    let mut fetch = AsyncFetch::new(&sender);
    fetch.request(request_for("origin", "main"));
    assert_eq!(fetch.relay(step(1, 2)), RelayStep::Forwarded { delivered: true });
    assert_eq!(fetch.complete(Err("remote not found".to_string())), Completion::Released {
        notified: false
    });
    assert!(!fetch.is_pending());
    assert_eq!(fetch.last_result(), Some((0, "remote not found".to_string())));
    assert_eq!(receiver.try_iter().count(), 1);
}

#[test]
fn snapshot_raises_total_to_count() {
    let ev = ProgressNotification::Update {
        state: RemoteProgressState::Packing,
        current: 12,
        total: 10,
    };
    assert_eq!(
        RemoteProgress::from_event(ev),
        Some(RemoteProgress { state: RemoteProgressState::Packing, current: 12, total: 12 })
    );
    let ev = ProgressNotification::Update {
        state: RemoteProgressState::Pushing,
        current: 2,
        total: 10,
    };
    assert_eq!(
        RemoteProgress::from_event(ev),
        Some(RemoteProgress { state: RemoteProgressState::Pushing, current: 2, total: 10 })
    );
    assert_eq!(RemoteProgress::from_event(ProgressNotification::Done), None);
    assert!(ProgressNotification::Done.is_done());
    assert!(!ev.is_done());
}

#[test]
fn error_hands_out_its_message() {
    let error = JobError::Generic("pending request".to_string());
    assert_eq!(error.message(), "pending request");
}

#[test]
fn wake_ups_go_to_the_given_channel() {
    let (sender, receiver) = unbounded();
    let (other_sender, other_receiver) = unbounded::<AsyncNotification>();
    let mut fetch = AsyncFetch::new(&sender);
    let mut other = AsyncFetch::new(&other_sender);
    drop(sender);

    fetch.request(request_for("origin", "main"));
    fetch.relay(step(1, 2));
    fetch.complete(Ok(1));
    assert_eq!(receiver.try_iter().count(), 2);
    assert!(other_receiver.try_recv().is_err());

    other.request(request_for("origin", "main"));
    other.complete(Ok(1));
    assert_eq!(other_receiver.try_iter().count(), 1);
    assert!(receiver.try_recv().is_err());
}
