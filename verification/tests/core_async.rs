//! Behavior of the asynchronous core: the single-flight scheduler, the
//! keyed caches and the push relay, driven step by step.

use gitui_core::notify::AsyncNotification;
use gitui_core::push::AsyncPush;
use gitui_core::push::PackStage;
use gitui_core::push::ProgressNotification;
use gitui_core::push::PushProgress;
use gitui_core::push::PushProgressState;
use gitui_core::push::PushRequest;
use gitui_core::scheduler::AsyncJob;
use gitui_core::scheduler::AsyncSingleJob;
use gitui_core::status::AsyncStatus2;
use gitui_core::status::Status2;
use gitui_core::status::StatusItem;
use gitui_core::status::StatusItemType;
use gitui_core::status::StatusParams;
use gitui_core::status::StatusType;

#[derive(Clone, Debug, PartialEq)]
struct TestJob {
    id: u32,
    times_run: u32,
}

impl TestJob {
    fn new(id: u32) -> Self {
        Self { id, times_run: 0 }
    }
}

impl AsyncJob for TestJob {
    fn run(&mut self) {
        self.times_run += 1;
    }
}

fn status_of(paths: &[&str]) -> Status2 {
    let mut items = Vec::new();
    for p in paths {
        items.push(StatusItem {
            path: String::from(*p),
            status: StatusItemType::Modified,
        });
    }
    Status2 { items }
}

#[test]
fn test_overwrite() {
    let (tx, rx) = crossbeam_channel::unbounded::<()>();
    let mut job: AsyncSingleJob<TestJob, ()> = AsyncSingleJob::new(tx, ());

    // first submission starts at once
    assert!(job.spawn(TestJob::new(1)));
    assert!(job.is_pending());
    // further submissions while busy queue up and coalesce
    assert!(!job.spawn(TestJob::new(2)));
    assert!(!job.spawn(TestJob::new(3)));
    // nothing extra can start while the slot is busy
    assert!(!job.check_for_job());

    // the worker runs the first job; the latest queued one is dispatched
    assert!(job.run_job());
    let first = job.take_last().expect("first job done");
    assert_eq!(first.id, 1);
    assert_eq!(first.times_run, 1);
    assert!(job.is_pending());

    // the worker runs the coalesced survivor: the last submission
    assert!(job.run_job());
    let second = job.take_last().expect("second job done");
    assert_eq!(second.id, 3);
    assert_eq!(second.times_run, 1);

    // exactly two executions, two notifications, and nothing left
    assert!(!job.is_pending());
    assert!(!job.run_job());
    assert!(job.take_last().is_none());
    assert_eq!(rx.try_iter().count(), 2);
}

#[test]
fn test_cancel() {
    let (tx, rx) = crossbeam_channel::unbounded::<()>();
    let mut job: AsyncSingleJob<TestJob, ()> = AsyncSingleJob::new(tx, ());

    assert!(job.spawn(TestJob::new(1)));
    assert!(!job.spawn(TestJob::new(2)));
    // the queued job is cleared; the running one is unaffected
    assert!(job.cancel());
    assert!(!job.cancel());

    assert!(job.run_job());
    assert_eq!(job.take_last().expect("ran").id, 1);
    assert!(!job.is_pending());
    assert!(!job.run_job());
    assert_eq!(rx.try_iter().count(), 1);
}

#[test]
fn test_scheduler_notification_value() {
    let (tx, rx) = crossbeam_channel::unbounded();
    let mut job: AsyncSingleJob<TestJob, AsyncNotification> =
        AsyncSingleJob::new(tx, AsyncNotification::SyntaxHighlighting);
    assert!(job.spawn(TestJob::new(7)));
    assert!(job.run_job());
    assert_eq!(rx.try_recv(), Ok(AsyncNotification::SyntaxHighlighting));
    assert!(rx.try_recv().is_err());
}

#[test]
fn test_fingerprint_dedup() {
    let (tx, _rx) = crossbeam_channel::unbounded();
    let mut cache = AsyncStatus2::new(tx);
    let params = StatusParams::new(1, StatusType::WorkingDir, true);

    // first fetch dispatches exactly one computation
    assert!(cache.fetch(params).is_none());
    assert!(cache.is_pending());
    // an identical fetch is deduplicated: no second computation
    assert!(cache.fetch(params).is_none());
    let (fp, taken) = cache.take_request().expect("one request");
    assert_eq!(taken, params);
    assert!(cache.take_request().is_none());

    // a different tick forces a fresh computation
    let newer = StatusParams::new(2, StatusType::WorkingDir, true);
    assert!(cache.fetch(newer).is_none());
    let (fp2, _) = cache.take_request().expect("second request");
    assert_ne!(fp, fp2);
}

#[test]
fn test_idempotent_refetch() {
    let (tx, rx) = crossbeam_channel::unbounded();
    let mut cache = AsyncStatus2::new(tx);
    let params = StatusParams::new(5, StatusType::Stage, false);

    assert!(cache.fetch(params).is_none());
    let (fp, taken) = cache.take_request().expect("request");
    cache.apply_fetched(fp, taken, status_of(&["foo"]));
    assert_eq!(rx.try_recv(), Ok(AsyncNotification::Status));
    assert!(!cache.is_pending());

    // the cached value returns without any new background work
    let hit = cache.fetch(params).expect("cached");
    assert_eq!(hit.items.len(), 1);
    assert_eq!(hit.items[0].path, "foo");
    assert!(cache.take_request().is_none());
    assert!(!cache.is_pending());
}

#[test]
fn test_staleness_guard() {
    let (tx, _rx) = crossbeam_channel::unbounded();
    let mut cache = AsyncStatus2::new(tx);
    let p1 = StatusParams::new(1, StatusType::WorkingDir, true);
    let p2 = StatusParams::new(2, StatusType::WorkingDir, true);

    assert!(cache.fetch(p1).is_none());
    let (f1, q1) = cache.take_request().expect("first");
    // a newer request supersedes the first before it completes
    assert!(cache.fetch(p2).is_none());
    let (f2, q2) = cache.take_request().expect("second");

    // the newer computation completes first and becomes authoritative
    cache.apply_fetched(f2, q2, status_of(&["new"]));
    assert_eq!(cache.fetch(p2).expect("current").items[0].path, "new");

    // the stale result arrives late: discarded from current, kept as last
    cache.apply_fetched(f1, q1, status_of(&["old"]));
    assert_eq!(cache.fetch(p2).expect("still current").items[0].path, "new");
    assert_eq!(cache.last().items[0].path, "old");
    assert!(!cache.is_pending());
}

#[test]
fn test_push_relay_terminal_ordering() {
    let (tx, rx) = crossbeam_channel::unbounded();
    let mut push = AsyncPush::new(tx);
    assert!(!push.is_pending());
    assert!(push.progress().is_none());

    // a request occupies the slot; a second one is rejected
    assert!(push.request(PushRequest {
        remote: String::from("origin"),
        branch: String::from("master"),
    }));
    assert!(push.is_pending());
    assert!(!push.request(PushRequest::default()));

    // non-terminal events overwrite the progress and notify
    assert!(!push.progress_event(ProgressNotification::Packing {
        stage: PackStage::AddingObjects,
        total: 10,
        current: 1,
    }));
    assert!(!push.progress_event(ProgressNotification::PushTransfer {
        current: 1,
        total: 2,
        bytes: 100,
    }));
    assert_eq!(
        push.progress(),
        Some(PushProgress::new(PushProgressState::Pushing, 60))
    );

    // the terminal event makes the relay exit and changes no progress;
    // only then may completion be reported
    assert!(push.progress_event(ProgressNotification::Done));
    assert_eq!(
        push.progress(),
        Some(PushProgress::new(PushProgressState::Pushing, 60))
    );
    push.finish(None);
    assert!(!push.is_pending());
    assert!(push.last_result().is_none());

    // two progress notifications and one completion notification
    let seen: Vec<AsyncNotification> = rx.try_iter().collect();
    assert_eq!(seen.len(), 3);
    assert!(seen.iter().all(|n| *n == AsyncNotification::Push));
}

#[test]
fn test_push_failure_result() {
    let (tx, _rx) = crossbeam_channel::unbounded();
    let mut push = AsyncPush::new(tx);
    assert!(push.request(PushRequest {
        remote: String::from("origin"),
        branch: String::from("master"),
    }));
    assert!(push.progress_event(ProgressNotification::Done));
    push.finish(Some(String::from("network down")));
    assert!(!push.is_pending());
    assert_eq!(push.last_result(), Some(String::from("network down")));
}

#[test]
fn test_push_progress_mapping() {
    let packing_early = ProgressNotification::Packing {
        stage: PackStage::AddingObjects,
        total: 4,
        current: 0,
    };
    let packing_late = ProgressNotification::Packing {
        stage: PackStage::Deltafication,
        total: 4,
        current: 2,
    };
    assert_eq!(
        PushProgress::from_notification(&packing_early),
        PushProgress::new(PushProgressState::PackingAddingObject, 10)
    );
    assert_eq!(
        PushProgress::from_notification(&packing_late),
        PushProgress::new(PushProgressState::PackingDeltafiction, 40)
    );
    assert_eq!(
        PushProgress::from_notification(&ProgressNotification::Done),
        PushProgress::new(PushProgressState::Pushing, 100)
    );
    assert_eq!(
        PushProgress::from_notification(&ProgressNotification::Transfer {
            objects: 1,
            total_objects: 2,
        }),
        PushProgress::new(PushProgressState::Pushing, 60)
    );
}

#[test]
fn test_fetch_component_flow() {
    let (tx, rx) = crossbeam_channel::unbounded();
    let mut f = gitui_core::fetch_view::FetchComponent::new(tx);
    assert!(!f.is_visible());
    assert_eq!(f.get_progress(), (String::from("no progress"), 0));

    // anonymous fetch goes out at once
    f.fetch(String::from("master"), String::from("origin"), false, None);
    assert!(f.is_visible());
    assert!(f.pending);
    assert!(f.git_fetch.is_pending());

    // the relay folds events; the terminal event ends it; completion after
    assert!(!f.git_fetch.progress_event(ProgressNotification::Transfer {
        objects: 1,
        total_objects: 2,
    }));
    assert!(f.git_fetch.progress_event(ProgressNotification::Done));
    f.git_fetch.finish(42, String::new());
    f.update_git(AsyncNotification::Fetch);
    assert!(!f.pending);
    assert!(!f.is_visible());
    assert!(f.merge_requested);
    assert_eq!(
        f.git_fetch.last_result(),
        Some((42, String::new()))
    );
    assert!(rx.try_iter().count() >= 2);

    // a failed fetch surfaces as an error popup event
    f.fetch(String::from("master"), String::from("origin"), false, None);
    assert!(f.git_fetch.progress_event(ProgressNotification::Done));
    f.git_fetch.finish(0, String::from("network down"));
    f.update_git(AsyncNotification::Fetch);
    match f.queue.pop_front() {
        Some(gitui_core::queue::InternalEvent::ShowErrorMsg(m)) => {
            assert_eq!(m, "fetch failed:\nnetwork down");
        }
        other => panic!("expected an error popup event, got {:?}", other),
    }

    // an incomplete credential opens the prompt instead of fetching
    f.fetch(String::from("master"), String::from("origin"), true, None);
    assert!(f.input_cred_visible);
    assert!(!f.git_fetch.is_pending());
    let cred = gitui_core::push::BasicAuthCredential::new(
        Some(String::from("user")),
        Some(String::from("SECRET-REDACTED")),
    );
    assert!(cred.is_complete());
    f.fetch(String::from("master"), String::from("origin"), true, Some(cred));
    assert!(!f.input_cred_visible);
    assert!(f.git_fetch.is_pending());
}
