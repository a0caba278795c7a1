//! The watch loop: what the watcher does from its start on.
//!
//! The loop first walks the tree and puts every directory under watch.
//! From then on it waits for notifications, queues the files that they
//! name, puts new directories under watch, and hands the queue to the
//! transfer tool whenever it holds something.
//!
//! [`WatchLoop`] holds the registry and the queue and decides; the driver
//! acts. Each [`LoopAction`] is answered with a [`LoopEvent`], and
//! [`WatchLoop::step`] turns that into the next action.

use crate::classify::{
    batch_directories,
    batch_fault,
    batch_transfers,
    classify_batch,
    records,
    EventRecord,
};
use crate::dispatch::{
    begin_sync,
    do_sync,
    pending_action,
    sync_action,
    sync_begin,
    sync_next,
    sync_queue,
    sync_report,
    sync_target,
    SyncAction,
    SyncActionView,
    SyncEvent,
    SyncReport,
    SyncReportView,
    SyncState,
};
use crate::event::{RawEvent, WatchHandle};
use crate::ignore::{
    ignored_names,
    pattern_language,
    patterns_compile,
    read_ignore_regex,
    IgnoreError,
    IgnoreMatcher,
};
use crate::options::Options;
use crate::queue::TransferQueue;
use crate::registry::{
    UnknownWatchError,
    WatchError,
    WatchErrorView,
    WatchFailure,
    WatchRegistry,
};
use crate::text::{lines_of, texts};
use crate::walk::{
    walk_action,
    walk_next,
    walk_registry,
    walk_skipped,
    walk_start,
    TreeWalk,
    WalkAction,
    WalkActionView,
    WalkEvent,
    WalkEventView,
    WalkStageView,
    WalkStep,
    WalkView,
};
use vstd::prelude::*;
use vstd::string::*;

verus! {

/// The phases of the loop.
#[derive(Clone, Copy, Debug, PartialEq, Eq, Structural)]
pub enum Phase {
    /// The watched root is entered and its tree is walked.
    Bootstrapping,
    /// Notifications are awaited or worked off.
    Idle,
    /// The queue is handed to the transfer tool.
    Draining,
    /// The loop has given up.
    Halted,
}

/// Why the loop gives up.
#[derive(Clone, Debug, PartialEq, Eq)]
pub enum Fatal {
    /// The watched root cannot be entered.
    RootUnavailable,
    /// The watched root cannot be put under watch.
    RootUnwatchable(WatchError),
    /// A notification named a watch handle that the registry does not
    /// know.
    UnknownWatch(UnknownWatchError),
}

/// What the driver reports after it carried out a [`LoopAction`].
#[derive(Debug, PartialEq, Eq)]
pub enum LoopEvent {
    /// The watched root is now the working directory.
    RootEntered,
    /// The watched root could not be made the working directory.
    RootUnavailable,
    /// The attempt to put the directory under watch ended like this.
    Watched(Result<WatchHandle, WatchFailure>),
    /// The directory was listed: these are the names of its
    /// subdirectories.
    Listed(Vec<String>),
    /// These notifications came in.
    Batch(Vec<RawEvent>),
    /// The sleep is over.
    Woke,
    /// What became of the last step of the transfer.
    Sync(SyncEvent),
}

/// What the driver has to do next.
#[derive(Clone, Debug, PartialEq, Eq)]
pub enum LoopAction {
    /// Make this directory the working directory.
    EnterRoot(String),
    /// Put this directory under watch.
    Watch(String),
    /// List the subdirectories of this directory.
    List(String),
    /// Wait for notifications.
    AwaitEvents,
    /// Sleep for this many milliseconds.
    Sleep(u64),
    /// Carry out this step of the transfer.
    Transfer(SyncAction),
    /// Give up.
    Halt(Fatal),
}

/// What a step has to tell besides the next action.
#[derive(Clone, Debug, PartialEq, Eq)]
pub enum Notice {
    /// This directory could not be put under watch and stays unwatched.
    Skipped(WatchError),
    /// The transfer to one destination ended like this.
    Synced(SyncReport),
}

/// The answer of one step of the loop.
#[derive(Clone, Debug, PartialEq, Eq)]
pub struct LoopStep {
    /// What the driver has to do next.
    pub action: LoopAction,
    /// What the driver should log, if anything.
    pub notice: Option<Notice>,
}

/// What the loop waits on.
#[derive(Debug)]
enum Stage {
    EnteringRoot,
    Walking(TreeWalk),
    AwaitingEvents,
    Registering(Vec<String>, String),
    Sleeping,
    Draining(SyncState),
    Halted(Fatal),
}

/// The state of the watcher.
#[derive(Debug)]
pub struct WatchLoop {
    opts: Options,
    ignore: Option<IgnoreMatcher>,
    registry: WatchRegistry,
    queue: TransferQueue,
    stage: Stage,
}

/// A [`Fatal`] as plain values.
pub ghost enum FatalView {
    RootUnavailable,
    RootUnwatchable(WatchErrorView),
    UnknownWatch(UnknownWatchError),
}

/// A [`LoopEvent`] as plain values.
pub ghost enum LoopEventView {
    RootEntered,
    RootUnavailable,
    Watched(Result<WatchHandle, WatchFailure>),
    Listed(Seq<Seq<char>>),
    Batch(Seq<EventRecord>),
    Woke,
    Sync(SyncEvent),
}

/// A [`LoopAction`] as plain values.
pub ghost enum LoopActionView {
    EnterRoot(Seq<char>),
    Watch(Seq<char>),
    List(Seq<char>),
    AwaitEvents,
    Sleep(u64),
    Transfer(SyncActionView),
    Halt(FatalView),
}

/// A [`Notice`] as plain values.
pub ghost enum NoticeView {
    Skipped(WatchErrorView),
    Synced(SyncReportView),
}

/// What the loop waits on, as plain values.
pub ghost enum StageView {
    /// The driver is entering the watched root.
    EnteringRoot,
    /// The tree is being walked.
    Walking(WalkView),
    /// Notifications are awaited.
    AwaitingEvents,
    /// The directories that the last batch announced are being put under
    /// watch: the second one now, the first ones after it, last first.
    Registering(Seq<Seq<char>>, Seq<char>),
    /// The driver sleeps.
    Sleeping,
    /// The queue is being transferred.
    Draining(SyncState),
    /// The loop has given up.
    Halted(FatalView),
}

/// A [`WatchLoop`] as plain values.
pub ghost struct LoopView {
    pub registry: Map<WatchHandle, Seq<char>>,
    pub queue: Seq<Seq<char>>,
    pub stage: StageView,
}

impl View for Fatal {
    type V = FatalView;

    open spec fn view(&self) -> FatalView {
        match self {
            Fatal::RootUnavailable => FatalView::RootUnavailable,
            Fatal::RootUnwatchable(error) => FatalView::RootUnwatchable(error@),
            Fatal::UnknownWatch(error) => FatalView::UnknownWatch(*error),
        }
    }
}

impl View for LoopEvent {
    type V = LoopEventView;

    open spec fn view(&self) -> LoopEventView {
        match self {
            LoopEvent::RootEntered => LoopEventView::RootEntered,
            LoopEvent::RootUnavailable => LoopEventView::RootUnavailable,
            LoopEvent::Watched(attempt) => LoopEventView::Watched(*attempt),
            LoopEvent::Listed(names) => LoopEventView::Listed(texts(names@)),
            LoopEvent::Batch(events) => LoopEventView::Batch(records(events@)),
            LoopEvent::Woke => LoopEventView::Woke,
            LoopEvent::Sync(event) => LoopEventView::Sync(*event),
        }
    }
}

impl View for LoopAction {
    type V = LoopActionView;

    open spec fn view(&self) -> LoopActionView {
        match self {
            LoopAction::EnterRoot(dir) => LoopActionView::EnterRoot(dir@),
            LoopAction::Watch(dir) => LoopActionView::Watch(dir@),
            LoopAction::List(dir) => LoopActionView::List(dir@),
            LoopAction::AwaitEvents => LoopActionView::AwaitEvents,
            LoopAction::Sleep(interval) => LoopActionView::Sleep(*interval),
            LoopAction::Transfer(action) => LoopActionView::Transfer(action@),
            LoopAction::Halt(fatal) => LoopActionView::Halt(fatal@),
        }
    }
}

impl View for Notice {
    type V = NoticeView;

    open spec fn view(&self) -> NoticeView {
        match self {
            Notice::Skipped(error) => NoticeView::Skipped(error@),
            Notice::Synced(report) => NoticeView::Synced(report@),
        }
    }
}

impl View for Stage {
    type V = StageView;

    closed spec fn view(&self) -> StageView {
        match self {
            Stage::EnteringRoot => StageView::EnteringRoot,
            Stage::Walking(walk) => StageView::Walking(walk@),
            Stage::AwaitingEvents => StageView::AwaitingEvents,
            Stage::Registering(rest, dir) => StageView::Registering(texts(rest@), dir@),
            Stage::Sleeping => StageView::Sleeping,
            Stage::Draining(sync) => StageView::Draining(*sync),
            Stage::Halted(fatal) => StageView::Halted(fatal@),
        }
    }
}

impl View for WatchLoop {
    type V = LoopView;

    closed spec fn view(&self) -> LoopView {
        LoopView { registry: self.registry@, queue: self.queue@, stage: self.stage@ }
    }
}

/// An optional [`Notice`] as plain values.
pub open spec fn notice_view(notice: Option<Notice>) -> Option<NoticeView> {
    match notice {
        Some(notice) => Some(notice@),
        None => None,
    }
}

/// The directory that the walk starts at, once the watched root is the
/// working directory: the paths of the registry and of the queue are
/// relative to the root.
pub open spec fn walk_root() -> Seq<char> {
    "."@
}

/// The loop at its start: nothing is known and the root is to be entered.
pub open spec fn loop_start() -> LoopView {
    LoopView { registry: Map::empty(), queue: Seq::empty(), stage: StageView::EnteringRoot }
}

/// The phase that a stage belongs to.
pub open spec fn stage_phase(stage: StageView) -> Phase {
    match stage {
        StageView::EnteringRoot => Phase::Bootstrapping,
        StageView::Walking(_) => Phase::Bootstrapping,
        StageView::AwaitingEvents => Phase::Idle,
        StageView::Registering(_, _) => Phase::Idle,
        StageView::Sleeping => Phase::Idle,
        StageView::Draining(_) => Phase::Draining,
        StageView::Halted(_) => Phase::Halted,
    }
}

/// What the walk is told when the loop is told `event`.
pub open spec fn walk_event(event: LoopEventView) -> Option<WalkEventView> {
    match event {
        LoopEventView::Watched(attempt) => Some(WalkEventView::Watched(attempt)),
        LoopEventView::Listed(names) => Some(WalkEventView::Listed(names)),
        _ => None,
    }
}

/// The stage after a step of the walk: the loop turns idle when the walk
/// is over and gives up when the walk has failed.
pub open spec fn stage_after_walk(walk: WalkView) -> StageView {
    match walk.stage {
        WalkStageView::Done => StageView::AwaitingEvents,
        WalkStageView::Failed(error) => StageView::Halted(FatalView::RootUnwatchable(error)),
        _ => StageView::Walking(walk),
    }
}

/// How the loop goes on once a batch is classified. The directories
/// `found` are put under watch first, the last one first. Then the queue
/// is transferred if it holds anything; with an empty queue the driver
/// sleeps.
pub open spec fn loop_settle(
    opts: Options,
    registry: Map<WatchHandle, Seq<char>>,
    queue: Seq<Seq<char>>,
    found: Seq<Seq<char>>,
) -> LoopView {
    if found.len() > 0 {
        LoopView { registry, queue, stage: StageView::Registering(found.drop_last(), found.last()) }
    } else if queue.len() == 0 {
        LoopView { registry, queue, stage: StageView::Sleeping }
    } else {
        match sync_begin(opts.destinations@.len(), queue.len()) {
            SyncState::Finished => LoopView {
                registry,
                queue: Seq::empty(),
                stage: StageView::AwaitingEvents,
            },
            sync => LoopView { registry, queue, stage: StageView::Draining(sync) },
        }
    }
}

/// The loop after `event`, with the options `opts` and the suppressed
/// names `ignored`. An event that does not answer the pending action
/// changes nothing.
pub open spec fn loop_next(
    opts: Options,
    ignored: Set<Seq<char>>,
    state: LoopView,
    event: LoopEventView,
) -> LoopView {
    match state.stage {
        StageView::EnteringRoot => match event {
            LoopEventView::RootEntered => LoopView {
                registry: state.registry,
                queue: state.queue,
                stage: StageView::Walking(walk_start(walk_root())),
            },
            LoopEventView::RootUnavailable => LoopView {
                registry: state.registry,
                queue: state.queue,
                stage: StageView::Halted(FatalView::RootUnavailable),
            },
            _ => state,
        },
        StageView::Walking(walk) => match walk_event(event) {
            Some(told) => LoopView {
                registry: walk_registry(state.registry, walk, told),
                queue: state.queue,
                stage: stage_after_walk(walk_next(walk, told)),
            },
            None => state,
        },
        StageView::AwaitingEvents => match event {
            LoopEventView::Batch(events) => match batch_fault(events, state.registry) {
                Some(error) => LoopView {
                    registry: state.registry,
                    queue: state.queue,
                    stage: StageView::Halted(FatalView::UnknownWatch(error)),
                },
                None => loop_settle(
                    opts,
                    state.registry,
                    state.queue + batch_transfers(events, state.registry, ignored),
                    batch_directories(events, state.registry, ignored),
                ),
            },
            _ => state,
        },
        StageView::Registering(rest, dir) => match event {
            LoopEventView::Watched(Ok(handle)) => loop_settle(
                opts,
                state.registry.insert(handle, dir),
                state.queue,
                rest,
            ),
            LoopEventView::Watched(Err(_)) => loop_settle(opts, state.registry, state.queue, rest),
            _ => state,
        },
        StageView::Sleeping => match event {
            LoopEventView::Woke => LoopView {
                registry: state.registry,
                queue: state.queue,
                stage: StageView::AwaitingEvents,
            },
            _ => state,
        },
        StageView::Draining(sync) => match event {
            LoopEventView::Sync(told) => LoopView {
                registry: state.registry,
                queue: sync_queue(opts.destinations@.len(), state.queue, sync, told),
                stage: match sync_next(opts.destinations@.len(), sync, told) {
                    SyncState::Finished => StageView::AwaitingEvents,
                    next => StageView::Draining(next),
                },
            },
            _ => state,
        },
        StageView::Halted(_) => state,
    }
}

/// The action that the loop waits on.
pub open spec fn loop_action(opts: Options, state: LoopView) -> LoopActionView {
    match state.stage {
        StageView::EnteringRoot => LoopActionView::EnterRoot(opts.root@),
        StageView::Walking(walk) => match walk_action(walk) {
            WalkActionView::Watch(dir) => LoopActionView::Watch(dir),
            WalkActionView::List(dir) => LoopActionView::List(dir),
            WalkActionView::Done => LoopActionView::AwaitEvents,
            WalkActionView::Fail(error) => LoopActionView::Halt(FatalView::RootUnwatchable(error)),
        },
        StageView::AwaitingEvents => LoopActionView::AwaitEvents,
        StageView::Registering(_, dir) => LoopActionView::Watch(dir),
        StageView::Sleeping => LoopActionView::Sleep(opts.interval),
        StageView::Draining(sync) => LoopActionView::Transfer(
            sync_action(&opts, state.queue, sync),
        ),
        StageView::Halted(fatal) => LoopActionView::Halt(fatal),
    }
}

/// What the step that `event` makes has to tell: the directory that it
/// gave up on, or the outcome of the transfer that it ended.
pub open spec fn loop_notice(opts: Options, state: LoopView, event: LoopEventView) -> Option<
    NoticeView,
> {
    match state.stage {
        StageView::Walking(walk) => match walk_event(event) {
            Some(told) => match walk_skipped(walk, told) {
                Some(error) => Some(NoticeView::Skipped(error)),
                None => None,
            },
            None => None,
        },
        StageView::Registering(_, dir) => match event {
            LoopEventView::Watched(Err(failure)) => Some(
                NoticeView::Skipped(WatchErrorView { path: dir, failure }),
            ),
            _ => None,
        },
        StageView::Draining(sync) => match event {
            LoopEventView::Sync(told) => match sync_report(&opts, sync, told) {
                Some(report) => Some(NoticeView::Synced(report)),
                None => None,
            },
            _ => None,
        },
        _ => None,
    }
}

/// Whether the loop hangs together: a walk that is under way is not over,
/// a transfer that is under way works on one of the destinations and has
/// files to send, and nothing is queued while the loop walks the tree,
/// waits for notifications or sleeps.
pub open spec fn loop_wf(opts: Options, state: LoopView) -> bool {
    match state.stage {
        StageView::EnteringRoot => state.queue.len() == 0,
        StageView::Walking(walk) => {
            &&& !(walk.stage is Done || walk.stage is Failed)
            &&& state.queue.len() == 0
        },
        StageView::AwaitingEvents => state.queue.len() == 0,
        StageView::Registering(_, _) => true,
        StageView::Sleeping => state.queue.len() == 0,
        StageView::Draining(sync) => {
            &&& sync_target(opts.destinations@.len(), sync) is Some
            &&& state.queue.len() > 0
        },
        StageView::Halted(_) => true,
    }
}

/// A copy of `error`.
fn copy_error(error: &WatchError) -> (copy: WatchError)
    ensures
        copy@ == error@,
{
    WatchError { path: error.path.clone(), failure: error.failure }
}

/// A copy of `fatal`.
fn copy_fatal(fatal: &Fatal) -> (copy: Fatal)
    ensures
        copy@ == fatal@,
{
    match fatal {
        Fatal::RootUnavailable => Fatal::RootUnavailable,
        Fatal::RootUnwatchable(error) => Fatal::RootUnwatchable(copy_error(error)),
        Fatal::UnknownWatch(error) => Fatal::UnknownWatch(*error),
    }
}

impl WatchLoop {
    /// The options of the run.
    pub closed spec fn options(&self) -> Options {
        self.opts
    }

    /// The names that the ignore filter of the run suppresses.
    pub closed spec fn ignored(&self) -> Set<Seq<char>> {
        ignored_names(self.ignore)
    }

    /// The loop at its start, with the ignore filter `ignore`.
    pub fn with_filter(opts: Options, ignore: Option<IgnoreMatcher>) -> (made: WatchLoop)
        ensures
            made.options() == opts,
            made.ignored() == ignored_names(ignore),
            made@ == loop_start(),
            loop_wf(opts, made@),
    {
        WatchLoop {
            opts,
            ignore,
            registry: WatchRegistry::new(),
            queue: TransferQueue::new(),
            stage: Stage::EnteringRoot,
        }
    }

    /// The loop at its start. `ignore_content` is what the configured
    /// ignore file holds; without a configured file it is not looked at
    /// and nothing is suppressed. The loop cannot start exactly when a
    /// file is configured and its lines do not compile. A file without
    /// any line gives a loop that suppresses nothing.
    pub fn new(opts: Options, ignore_content: &str) -> (made: Result<WatchLoop, IgnoreError>)
        ensures
            made is Err <==> opts.has_ignore_file() && !patterns_compile(
                lines_of(ignore_content@),
            ),
            made matches Ok(watcher) ==> {
                &&& watcher.options() == opts
                &&& watcher@ == loop_start()
                &&& loop_wf(opts, watcher@)
                &&& watcher.ignored() == if opts.has_ignore_file() {
                    pattern_language(lines_of(ignore_content@))
                } else {
                    Set::empty()
                }
            },
            opts.has_ignore_file() && lines_of(ignore_content@).len() == 0 ==> (made matches Ok(
                watcher,
            ) && watcher.ignored() == Set::<Seq<char>>::empty()),
    {
        match read_ignore_regex(&opts, ignore_content) {
            Ok(ignore) => Ok(WatchLoop::with_filter(opts, ignore)),
            Err(error) => Err(error),
        }
    }

    /// The phase that the loop is in.
    pub fn phase(&self) -> (phase: Phase)
        ensures
            phase == stage_phase(self@.stage),
    {
        match &self.stage {
            Stage::EnteringRoot => Phase::Bootstrapping,
            Stage::Walking(_) => Phase::Bootstrapping,
            Stage::AwaitingEvents => Phase::Idle,
            Stage::Registering(_, _) => Phase::Idle,
            Stage::Sleeping => Phase::Idle,
            Stage::Draining(_) => Phase::Draining,
            Stage::Halted(_) => Phase::Halted,
        }
    }

    /// The registry of the loop.
    pub fn registry(&self) -> (registry: &WatchRegistry)
        ensures
            registry@ == self@.registry,
    {
        &self.registry
    }

    /// The queue of the loop.
    pub fn queue(&self) -> (queue: &TransferQueue)
        ensures
            queue@ == self@.queue,
    {
        &self.queue
    }

    /// The action that the loop waits on. At the start this is the first
    /// thing that the driver has to do.
    pub fn action(&self) -> (action: LoopAction)
        ensures
            action@ == loop_action(self.options(), self@),
    {
        match &self.stage {
            Stage::EnteringRoot => LoopAction::EnterRoot(self.opts.root.clone()),
            Stage::Walking(walk) => from_walk(walk.action()),
            Stage::AwaitingEvents => LoopAction::AwaitEvents,
            Stage::Registering(_, dir) => LoopAction::Watch(dir.clone()),
            Stage::Sleeping => LoopAction::Sleep(self.opts.interval),
            Stage::Draining(sync) => LoopAction::Transfer(
                pending_action(&self.opts, &self.queue, *sync),
            ),
            Stage::Halted(fatal) => LoopAction::Halt(copy_fatal(fatal)),
        }
    }

    /// Goes on once a batch is classified: see [`loop_settle`].
    fn settle(&mut self, found: Vec<String>) -> (action: LoopAction)
        ensures
            final(self)@ == loop_settle(
                old(self).opts,
                old(self)@.registry,
                old(self)@.queue,
                texts(found@),
            ),
            final(self).opts == old(self).opts,
            final(self).ignore == old(self).ignore,
            action@ == loop_action(final(self).opts, final(self)@),
    {
        let mut found = found;
        proof {
            if found@.len() > 0 {
                assert(texts(found@.drop_last()) =~= texts(found@).drop_last());
            }
        }
        match found.pop() {
            Some(dir) => {
                let action = LoopAction::Watch(dir.clone());
                self.stage = Stage::Registering(found, dir);
                action
            },
            None => {
                if self.queue.is_empty() {
                    self.stage = Stage::Sleeping;
                    LoopAction::Sleep(self.opts.interval)
                } else {
                    let begun = begin_sync(&self.opts, &mut self.queue);
                    match begun.state {
                        SyncState::Finished => {
                            self.stage = Stage::AwaitingEvents;
                            LoopAction::AwaitEvents
                        },
                        sync => {
                            self.stage = Stage::Draining(sync);
                            LoopAction::Transfer(begun.action)
                        },
                    }
                }
            },
        }
    }

    /// Takes over what a step of the walk left: see [`stage_after_walk`].
    fn after_walk(&mut self, walk: TreeWalk, action: WalkAction) -> (next: LoopAction)
        requires
            action@ == walk_action(walk@),
        ensures
            final(self)@ == (LoopView {
                registry: old(self)@.registry,
                queue: old(self)@.queue,
                stage: stage_after_walk(walk@),
            }),
            final(self).opts == old(self).opts,
            final(self).ignore == old(self).ignore,
            next@ == loop_action(final(self).opts, final(self)@),
    {
        match action {
            WalkAction::Watch(dir) => {
                self.stage = Stage::Walking(walk);
                LoopAction::Watch(dir)
            },
            WalkAction::List(dir) => {
                self.stage = Stage::Walking(walk);
                LoopAction::List(dir)
            },
            WalkAction::Done => {
                self.stage = Stage::AwaitingEvents;
                LoopAction::AwaitEvents
            },
            WalkAction::Fail(error) => {
                self.stage = Stage::Halted(Fatal::RootUnwatchable(copy_error(&error)));
                LoopAction::Halt(Fatal::RootUnwatchable(error))
            },
        }
    }

    /// Takes the loop one step further: `event` is what became of the
    /// action that the loop waited on. The answer holds the next action.
    pub fn step(&mut self, event: LoopEvent) -> (step: LoopStep)
        ensures
            final(self)@ == loop_next(old(self).options(), old(self).ignored(), old(self)@, event@),
            final(self).options() == old(self).options(),
            final(self).ignored() == old(self).ignored(),
            step.action@ == loop_action(final(self).options(), final(self)@),
            notice_view(step.notice) == loop_notice(old(self).options(), old(self)@, event@),
            loop_wf(old(self).options(), old(self)@) ==> loop_wf(
                final(self).options(),
                final(self)@,
            ),
    {
        proof {
            if loop_wf(self.options(), self@) {
                lemma_loop_keeps_wf(self.options(), self.ignored(), self@, event@);
            }
        }
        let mut stage = Stage::Sleeping;
        core::mem::swap(&mut self.stage, &mut stage);
        match (stage, event) {
            (Stage::EnteringRoot, LoopEvent::RootEntered) => {
                let walk = TreeWalk::start(String::from_str("."));
                let action = walk.action();
                let next = self.after_walk(walk, action);
                LoopStep { action: next, notice: None }
            },
            (Stage::EnteringRoot, LoopEvent::RootUnavailable) => {
                self.stage = Stage::Halted(Fatal::RootUnavailable);
                LoopStep { action: LoopAction::Halt(Fatal::RootUnavailable), notice: None }
            },
            (Stage::Walking(walk), LoopEvent::Watched(attempt)) => {
                let mut walk = walk;
                let stepped = walk.step(&mut self.registry, WalkEvent::Watched(attempt));
                let next = self.after_walk(walk, stepped.action);
                LoopStep { action: next, notice: skipped_notice(stepped.skipped) }
            },
            (Stage::Walking(walk), LoopEvent::Listed(names)) => {
                let mut walk = walk;
                let stepped = walk.step(&mut self.registry, WalkEvent::Listed(names));
                let next = self.after_walk(walk, stepped.action);
                LoopStep { action: next, notice: skipped_notice(stepped.skipped) }
            },
            (Stage::AwaitingEvents, LoopEvent::Batch(events)) => {
                match classify_batch(&events, &self.registry, &self.ignore, &mut self.queue) {
                    Ok(found) => {
                        let next = self.settle(found);
                        LoopStep { action: next, notice: None }
                    },
                    Err(error) => {
                        self.stage = Stage::Halted(Fatal::UnknownWatch(error));
                        LoopStep { action: LoopAction::Halt(Fatal::UnknownWatch(error)), notice: None }
                    },
                }
            },
            (Stage::Registering(rest, dir), LoopEvent::Watched(attempt)) => {
                match self.registry.register(dir, attempt) {
                    Ok(_) => {
                        let next = self.settle(rest);
                        LoopStep { action: next, notice: None }
                    },
                    Err(error) => {
                        let next = self.settle(rest);
                        LoopStep { action: next, notice: Some(Notice::Skipped(error)) }
                    },
                }
            },
            (Stage::Sleeping, LoopEvent::Woke) => {
                self.stage = Stage::AwaitingEvents;
                LoopStep { action: LoopAction::AwaitEvents, notice: None }
            },
            (Stage::Draining(sync), LoopEvent::Sync(told)) => {
                let stepped = do_sync(&self.opts, &mut self.queue, sync, told);
                let notice = match stepped.report {
                    Some(report) => Some(Notice::Synced(report)),
                    None => None,
                };
                match stepped.state {
                    SyncState::Finished => {
                        self.stage = Stage::AwaitingEvents;
                        LoopStep { action: LoopAction::AwaitEvents, notice }
                    },
                    next => {
                        self.stage = Stage::Draining(next);
                        LoopStep { action: LoopAction::Transfer(stepped.action), notice }
                    },
                }
            },
            (stage, _) => {
                self.stage = stage;
                LoopStep { action: self.action(), notice: None }
            },
        }
    }
}

/// The action of the loop for an action of the walk.
fn from_walk(action: WalkAction) -> (next: LoopAction)
    ensures
        next@ == match action@ {
            WalkActionView::Watch(dir) => LoopActionView::Watch(dir),
            WalkActionView::List(dir) => LoopActionView::List(dir),
            WalkActionView::Done => LoopActionView::AwaitEvents,
            WalkActionView::Fail(error) => LoopActionView::Halt(FatalView::RootUnwatchable(error)),
        },
{
    match action {
        WalkAction::Watch(dir) => LoopAction::Watch(dir),
        WalkAction::List(dir) => LoopAction::List(dir),
        WalkAction::Done => LoopAction::AwaitEvents,
        WalkAction::Fail(error) => LoopAction::Halt(Fatal::RootUnwatchable(error)),
    }
}

/// The notice for a directory that the walk gave up on.
fn skipped_notice(skipped: Option<WatchError>) -> (notice: Option<Notice>)
    ensures
        notice_view(notice) == match skipped {
            Some(error) => Some(NoticeView::Skipped(error@)),
            None => None,
        },
{
    match skipped {
        Some(error) => Some(Notice::Skipped(error)),
        None => None,
    }
}

/// The loop hangs together at its start.
pub proof fn lemma_loop_starts_wf(opts: Options)
    ensures
        loop_wf(opts, loop_start()),
{
}

/// The loop hangs together after every step if it did before.
pub proof fn lemma_loop_keeps_wf(
    opts: Options,
    ignored: Set<Seq<char>>,
    state: LoopView,
    event: LoopEventView,
)
    requires
        loop_wf(opts, state),
    ensures
        loop_wf(opts, loop_next(opts, ignored, state, event)),
{
}

/// The driver is never asked to finish a transfer: when the last
/// destination has had its turn the loop waits for notifications again.
pub proof fn lemma_loop_never_asks_to_finish(opts: Options, state: LoopView)
    requires
        loop_wf(opts, state),
    ensures
        loop_action(opts, state) != LoopActionView::Transfer(SyncActionView::Finish),
{
}

/// The phases follow each other as they should: the loop leaves the
/// bootstrap for the idle phase or gives up, the idle phase leads to
/// draining, and draining leads back to the idle phase. Nothing leads back
/// to the bootstrap, and a loop that has given up stays so.
pub proof fn lemma_phases_in_order(
    opts: Options,
    ignored: Set<Seq<char>>,
    state: LoopView,
    event: LoopEventView,
)
    ensures
        ({
            let before = stage_phase(state.stage);
            let after = stage_phase(loop_next(opts, ignored, state, event).stage);
            match before {
                Phase::Bootstrapping => after != Phase::Draining,
                Phase::Idle => after != Phase::Bootstrapping,
                Phase::Draining => after == Phase::Draining || after == Phase::Idle,
                Phase::Halted => after == Phase::Halted,
            }
        }),
{
}

/// When the loop leaves the draining phase the queue is empty, whatever
/// the outcomes at the destinations were.
pub proof fn lemma_queue_empty_after_draining(
    opts: Options,
    ignored: Set<Seq<char>>,
    state: LoopView,
    event: LoopEventView,
)
    requires
        loop_wf(opts, state),
        stage_phase(state.stage) == Phase::Draining,
        stage_phase(loop_next(opts, ignored, state, event).stage) != Phase::Draining,
    ensures
        loop_next(opts, ignored, state, event).queue.len() == 0,
{
}

/// The loop drains only a queue that holds something: with an empty queue
/// no transfer is begun.
pub proof fn lemma_empty_queue_is_not_drained(
    opts: Options,
    ignored: Set<Seq<char>>,
    state: LoopView,
    event: LoopEventView,
)
    requires
        stage_phase(state.stage) != Phase::Draining,
        stage_phase(loop_next(opts, ignored, state, event).stage) == Phase::Draining,
    ensures
        loop_next(opts, ignored, state, event).queue.len() > 0,
{
}

/// The registry of the loop only grows: a handle that is known stays
/// known after every step.
pub proof fn lemma_loop_registry_grows(
    opts: Options,
    ignored: Set<Seq<char>>,
    state: LoopView,
    event: LoopEventView,
)
    ensures
        state.registry.dom().subset_of(loop_next(opts, ignored, state, event).registry.dom()),
{
}

} // verus!
