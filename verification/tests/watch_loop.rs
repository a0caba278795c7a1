use dynsync::dispatch::{
    DestinationOutcome, Invocation, SyncAction, SyncEvent, SyncReport,
};
use dynsync::event::{RawEvent, WatchHandle, IN_CLOSE_WRITE, IN_CREATE, IN_ISDIR, IN_MOVED_TO};
use dynsync::ignore::IgnoreMatcher;
use dynsync::options::Options;
use dynsync::registry::{UnknownWatchError, WatchError, WatchFailure};
use dynsync::watch_loop::{Fatal, LoopAction, LoopEvent, LoopStep, Notice, Phase, WatchLoop};

fn options(destinations: &[&str], ignore_file: &str) -> Options {
    Options {
        debug: false,
        root: "/srv/data".to_string(),
        rsync: "/usr/bin/rsync".to_string(),
        rsync_params: "-v".to_string(),
        ignore_file: ignore_file.to_string(),
        interval: 500,
        destinations: destinations.iter().map(|d| d.to_string()).collect(),
    }
}

fn handle(id: i32) -> WatchHandle {
    WatchHandle { id }
}

fn event(wd: i32, mask: u32, name: &str) -> RawEvent {
    RawEvent { wd: handle(wd), mask, name: name.to_string() }
}

fn spawn(destination: &str) -> LoopAction {
    LoopAction::Transfer(SyncAction::Spawn(Invocation {
        program: "/usr/bin/rsync".to_string(),
        args: vec![
            "-a".to_string(),
            "--relative".to_string(),
            "--files-from=-".to_string(),
            "-v".to_string(),
            ".".to_string(),
            destination.to_string(),
        ],
    }))
}

fn plain(action: LoopAction) -> LoopStep {
    LoopStep { action, notice: None }
}

/// A loop whose tree holds the root alone, ready for notifications.
fn idle_loop(destinations: &[&str], ignore: Option<IgnoreMatcher>) -> WatchLoop {
    let mut watcher = WatchLoop::with_filter(options(destinations, ""), ignore);
    assert_eq!(watcher.step(LoopEvent::RootEntered), plain(LoopAction::Watch(".".to_string())));
    assert_eq!(
        watcher.step(LoopEvent::Watched(Ok(handle(1)))),
        plain(LoopAction::List(".".to_string()))
    );
    assert_eq!(watcher.step(LoopEvent::Listed(Vec::new())), plain(LoopAction::AwaitEvents));
    assert_eq!(watcher.phase(), Phase::Idle);
    watcher
}

#[test]
fn loop_starts_by_entering_the_root() {
    let watcher = WatchLoop::new(options(&["host:/backup"], ""), "").unwrap();
    assert_eq!(watcher.phase(), Phase::Bootstrapping);
    assert_eq!(watcher.action(), LoopAction::EnterRoot("/srv/data".to_string()));
    assert_eq!(watcher.registry().len(), 0);
    assert!(watcher.queue().is_empty());
}

#[test]
fn loop_with_malformed_ignore_file_does_not_start() {
    let made = WatchLoop::new(options(&["host:/backup"], "ignore.txt"), "(");
    assert!(made.is_err());
    let fine = WatchLoop::new(options(&["host:/backup"], ""), "(");
    assert!(fine.is_ok());
}

#[test]
fn loop_halts_when_the_root_cannot_be_entered() {
    let mut watcher = WatchLoop::new(options(&["host:/backup"], ""), "").unwrap();
    let step = watcher.step(LoopEvent::RootUnavailable);
    assert_eq!(step, plain(LoopAction::Halt(Fatal::RootUnavailable)));
    assert_eq!(watcher.phase(), Phase::Halted);
    let step = watcher.step(LoopEvent::RootEntered);
    assert_eq!(step, plain(LoopAction::Halt(Fatal::RootUnavailable)));
    assert_eq!(watcher.phase(), Phase::Halted);
}

#[test]
fn loop_halts_when_the_root_cannot_be_watched() {
    let mut watcher = WatchLoop::new(options(&["host:/backup"], ""), "").unwrap();
    watcher.step(LoopEvent::RootEntered);
    let step = watcher.step(LoopEvent::Watched(Err(WatchFailure::TableExhausted)));
    let error = WatchError { path: ".".to_string(), failure: WatchFailure::TableExhausted };
    assert_eq!(step, plain(LoopAction::Halt(Fatal::RootUnwatchable(error.clone()))));
    assert_eq!(watcher.phase(), Phase::Halted);
    assert_eq!(watcher.action(), LoopAction::Halt(Fatal::RootUnwatchable(error)));
}

#[test]
fn loop_walks_the_tree_before_it_waits() {
    let mut watcher = WatchLoop::new(options(&["host:/backup"], ""), "").unwrap();
    assert_eq!(watcher.step(LoopEvent::RootEntered), plain(LoopAction::Watch(".".to_string())));
    assert_eq!(watcher.phase(), Phase::Bootstrapping);
    assert_eq!(
        watcher.step(LoopEvent::Watched(Ok(handle(1)))),
        plain(LoopAction::List(".".to_string()))
    );
    assert_eq!(
        watcher.step(LoopEvent::Listed(vec!["a".to_string(), "b".to_string()])),
        plain(LoopAction::Watch("./b".to_string()))
    );
    assert_eq!(
        watcher.step(LoopEvent::Watched(Err(WatchFailure::Vanished))),
        LoopStep {
            action: LoopAction::Watch("./a".to_string()),
            notice: Some(Notice::Skipped(WatchError {
                path: "./b".to_string(),
                failure: WatchFailure::Vanished
            })),
        }
    );
    assert_eq!(
        watcher.step(LoopEvent::Watched(Ok(handle(2)))),
        plain(LoopAction::List("./a".to_string()))
    );
    assert_eq!(watcher.phase(), Phase::Bootstrapping);
    assert_eq!(watcher.step(LoopEvent::Listed(Vec::new())), plain(LoopAction::AwaitEvents));
    assert_eq!(watcher.phase(), Phase::Idle);
    assert_eq!(watcher.registry().len(), 2);
    assert_eq!(watcher.registry().directory(handle(2)), Some(&"./a".to_string()));
}

#[test]
fn loop_sleeps_when_nothing_is_pending() {
    let mut watcher = idle_loop(&["host:/backup"], None);
    let step = watcher.step(LoopEvent::Batch(vec![event(1, IN_CREATE, "not-yet-written")]));
    assert_eq!(step, plain(LoopAction::Sleep(500)));
    assert_eq!(watcher.phase(), Phase::Idle);
    assert_eq!(watcher.step(LoopEvent::Woke), plain(LoopAction::AwaitEvents));
    let step = watcher.step(LoopEvent::Batch(Vec::new()));
    assert_eq!(step, plain(LoopAction::Sleep(500)));
}

#[test]
fn loop_registers_new_directories_before_it_drains() {
    let mut watcher = idle_loop(&["host:/backup"], None);
    let step = watcher.step(LoopEvent::Batch(vec![
        event(1, IN_ISDIR | IN_CREATE, "photos"),
        event(1, IN_CLOSE_WRITE, "a.txt"),
        event(1, IN_ISDIR | IN_MOVED_TO, "music"),
    ]));
    assert_eq!(step, plain(LoopAction::Watch("./music".to_string())));
    assert_eq!(watcher.phase(), Phase::Idle);
    assert_eq!(watcher.queue().len(), 1);
    let step = watcher.step(LoopEvent::Watched(Err(WatchFailure::Vanished)));
    assert_eq!(
        step,
        LoopStep {
            action: LoopAction::Watch("./photos".to_string()),
            notice: Some(Notice::Skipped(WatchError {
                path: "./music".to_string(),
                failure: WatchFailure::Vanished
            })),
        }
    );
    let step = watcher.step(LoopEvent::Watched(Ok(handle(2))));
    assert_eq!(step, plain(spawn("host:/backup")));
    assert_eq!(watcher.phase(), Phase::Draining);
    assert_eq!(watcher.registry().len(), 2);
    assert_eq!(watcher.registry().directory(handle(2)), Some(&"./photos".to_string()));
}

#[test]
fn loop_drains_and_returns_to_idle() {
    let mut watcher = idle_loop(&["host1:/backup", "host2:/backup"], None);
    let step = watcher.step(LoopEvent::Batch(vec![
        event(1, IN_CLOSE_WRITE, "a.txt"),
        event(1, IN_MOVED_TO, "b.txt"),
    ]));
    assert_eq!(step, plain(spawn("host1:/backup")));
    assert_eq!(watcher.phase(), Phase::Draining);
    assert_eq!(watcher.action(), spawn("host1:/backup"));

    let step = watcher.step(LoopEvent::Sync(SyncEvent::SpawnFailed));
    assert_eq!(
        step,
        LoopStep {
            action: spawn("host2:/backup"),
            notice: Some(Notice::Synced(SyncReport {
                destination: "host1:/backup".to_string(),
                outcome: DestinationOutcome::SpawnFailed,
            })),
        }
    );
    assert_eq!(watcher.queue().len(), 2);

    let step = watcher.step(LoopEvent::Sync(SyncEvent::Spawned));
    assert_eq!(
        step,
        plain(LoopAction::Transfer(SyncAction::WriteList("./a.txt\n./b.txt\n".to_string())))
    );
    let step = watcher.step(LoopEvent::Sync(SyncEvent::ListWritten));
    assert_eq!(step, plain(LoopAction::Transfer(SyncAction::Wait)));
    assert_eq!(watcher.phase(), Phase::Draining);
    let step = watcher.step(LoopEvent::Sync(SyncEvent::Exited(Some(0))));
    assert_eq!(
        step,
        LoopStep {
            action: LoopAction::AwaitEvents,
            notice: Some(Notice::Synced(SyncReport {
                destination: "host2:/backup".to_string(),
                outcome: DestinationOutcome::Completed,
            })),
        }
    );
    assert_eq!(watcher.phase(), Phase::Idle);
    assert!(watcher.queue().is_empty());

    let step = watcher.step(LoopEvent::Batch(Vec::new()));
    assert_eq!(step, plain(LoopAction::Sleep(500)));
}

#[test]
fn loop_without_destinations_drops_the_queue() {
    let mut watcher = idle_loop(&[], None);
    let step = watcher.step(LoopEvent::Batch(vec![event(1, IN_CLOSE_WRITE, "a.txt")]));
    assert_eq!(step, plain(LoopAction::AwaitEvents));
    assert_eq!(watcher.phase(), Phase::Idle);
    assert!(watcher.queue().is_empty());
}

#[test]
fn loop_applies_the_ignore_filter() {
    let ignore = IgnoreMatcher::compile("^\\.tmp$").unwrap();
    let mut watcher = idle_loop(&["host:/backup"], Some(ignore));
    let step = watcher.step(LoopEvent::Batch(vec![event(1, IN_CLOSE_WRITE, ".tmp")]));
    assert_eq!(step, plain(LoopAction::Sleep(500)));
    assert!(watcher.queue().is_empty());
}

#[test]
fn loop_halts_on_an_unknown_handle() {
    let mut watcher = idle_loop(&["host:/backup"], None);
    let step = watcher.step(LoopEvent::Batch(vec![
        event(1, IN_CLOSE_WRITE, "a.txt"),
        event(4, IN_CLOSE_WRITE, "b.txt"),
    ]));
    let fatal = Fatal::UnknownWatch(UnknownWatchError { handle: handle(4) });
    assert_eq!(step, plain(LoopAction::Halt(fatal.clone())));
    assert_eq!(watcher.phase(), Phase::Halted);
    assert!(watcher.queue().is_empty());
    assert_eq!(watcher.step(LoopEvent::Woke), plain(LoopAction::Halt(fatal)));
}

#[test]
fn loop_ignores_an_event_that_answers_nothing() {
    let mut watcher = idle_loop(&["host:/backup"], None);
    assert_eq!(watcher.step(LoopEvent::Woke), plain(LoopAction::AwaitEvents));
    assert_eq!(
        watcher.step(LoopEvent::Sync(SyncEvent::Spawned)),
        plain(LoopAction::AwaitEvents)
    );
    assert_eq!(watcher.step(LoopEvent::Watched(Ok(handle(9)))), plain(LoopAction::AwaitEvents));
    assert_eq!(watcher.registry().len(), 1);
    watcher.step(LoopEvent::Batch(vec![event(1, IN_CLOSE_WRITE, "a.txt")]));
    assert_eq!(watcher.phase(), Phase::Draining);
    let step = watcher.step(LoopEvent::Batch(vec![event(1, IN_CLOSE_WRITE, "b.txt")]));
    assert_eq!(step, plain(spawn("host:/backup")));
    assert_eq!(watcher.queue().len(), 1);
}

#[test]
fn loop_files_in_new_directory_are_queued_on_a_later_pass() {
    let mut watcher = idle_loop(&["host:/backup"], None);
    let step = watcher.step(LoopEvent::Batch(vec![event(1, IN_ISDIR | IN_CREATE, "photos")]));
    assert_eq!(step, plain(LoopAction::Watch("./photos".to_string())));
    let step = watcher.step(LoopEvent::Watched(Ok(handle(2))));
    assert_eq!(step, plain(LoopAction::Sleep(500)));
    assert_eq!(watcher.step(LoopEvent::Woke), plain(LoopAction::AwaitEvents));
    let step = watcher.step(LoopEvent::Batch(vec![event(2, IN_CLOSE_WRITE, "a.jpg")]));
    assert_eq!(step, plain(spawn("host:/backup")));
    let step = watcher.step(LoopEvent::Sync(SyncEvent::Spawned));
    assert_eq!(
        step,
        plain(LoopAction::Transfer(SyncAction::WriteList("./photos/a.jpg\n".to_string())))
    );
}

#[test]
fn loop_with_empty_ignore_file_suppresses_nothing() {
    let mut watcher = WatchLoop::new(options(&["host:/backup"], "ignore.txt"), "").unwrap();
    watcher.step(LoopEvent::RootEntered);
    watcher.step(LoopEvent::Watched(Ok(handle(1))));
    watcher.step(LoopEvent::Listed(Vec::new()));
    let step = watcher.step(LoopEvent::Batch(vec![event(1, IN_CLOSE_WRITE, ".tmp")]));
    assert_eq!(step, plain(spawn("host:/backup")));
    assert_eq!(watcher.queue().len(), 1);
}

#[test]
fn loop_with_ignore_file_uses_its_patterns() {
    let mut watcher =
        WatchLoop::new(options(&["host:/backup"], "ignore.txt"), "^\\.tmp$\n").unwrap();
    watcher.step(LoopEvent::RootEntered);
    watcher.step(LoopEvent::Watched(Ok(handle(1))));
    watcher.step(LoopEvent::Listed(Vec::new()));
    let step = watcher.step(LoopEvent::Batch(vec![
        event(1, IN_CLOSE_WRITE, ".tmp"),
        event(1, IN_CLOSE_WRITE, "kept"),
    ]));
    assert_eq!(step, plain(spawn("host:/backup")));
    assert_eq!(watcher.queue().len(), 1);
    assert_eq!(watcher.queue().get(0), Some(&"./kept".to_string()));
}
