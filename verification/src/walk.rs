//! The first walk over the watched tree: every directory is put under
//! watch and then listed, and what the listing finds is walked in turn.
//!
//! The driver watches and lists; [`TreeWalk`] decides what comes next. A
//! directory is always put under watch before it is listed, so that an
//! entry that appears while the walk goes on is not missed.

use crate::event::WatchHandle;
use crate::registry::{WatchError, WatchErrorView, WatchFailure, WatchRegistry};
use crate::text::{join_path, lemma_texts_push, path_join, texts};
use vstd::prelude::*;

verus! {

/// What the walk waits on.
#[derive(Clone, Debug, PartialEq, Eq)]
pub enum WalkStage {
    /// The root is being put under watch.
    WatchingRoot(String),
    /// This directory below the root is being put under watch.
    Watching(String),
    /// This directory, now under watch, is being listed.
    Listing(String),
    /// Every directory that was found has been dealt with.
    Done,
    /// The root could not be put under watch: the walk has failed.
    Failed(WatchError),
}

/// What the driver reports after it carried out a [`WalkAction`].
#[derive(Debug, PartialEq, Eq)]
pub enum WalkEvent {
    /// The attempt to put the directory under watch ended like this.
    Watched(Result<WatchHandle, WatchFailure>),
    /// The directory was listed: these are the names of its
    /// subdirectories.
    Listed(Vec<String>),
}

/// What the driver has to do next.
#[derive(Clone, Debug, PartialEq, Eq)]
pub enum WalkAction {
    /// Put this directory under watch.
    Watch(String),
    /// List the subdirectories of this directory.
    List(String),
    /// Nothing: the walk is over.
    Done,
    /// Give up: the root cannot be watched.
    Fail(WatchError),
}

/// The answer of one step of the walk.
#[derive(Clone, Debug, PartialEq, Eq)]
pub struct WalkStep {
    /// What the driver has to do next.
    pub action: WalkAction,
    /// The directory that this step gave up on, if it gave up on one.
    pub skipped: Option<WatchError>,
}

/// The state of the walk: the directories found and not yet dealt with,
/// and what is being waited on.
#[derive(Debug)]
pub struct TreeWalk {
    pending: Vec<String>,
    stage: WalkStage,
}

/// A [`WalkStage`] as plain values.
pub ghost enum WalkStageView {
    WatchingRoot(Seq<char>),
    Watching(Seq<char>),
    Listing(Seq<char>),
    Done,
    Failed(WatchErrorView),
}

/// A [`TreeWalk`] as plain values.
pub ghost struct WalkView {
    pub pending: Seq<Seq<char>>,
    pub stage: WalkStageView,
}

/// A [`WalkEvent`] as plain values.
pub ghost enum WalkEventView {
    Watched(Result<WatchHandle, WatchFailure>),
    Listed(Seq<Seq<char>>),
}

/// A [`WalkAction`] as plain values.
pub ghost enum WalkActionView {
    Watch(Seq<char>),
    List(Seq<char>),
    Done,
    Fail(WatchErrorView),
}

impl View for WalkStage {
    type V = WalkStageView;

    open spec fn view(&self) -> WalkStageView {
        match self {
            WalkStage::WatchingRoot(dir) => WalkStageView::WatchingRoot(dir@),
            WalkStage::Watching(dir) => WalkStageView::Watching(dir@),
            WalkStage::Listing(dir) => WalkStageView::Listing(dir@),
            WalkStage::Done => WalkStageView::Done,
            WalkStage::Failed(error) => WalkStageView::Failed(error@),
        }
    }
}

impl View for TreeWalk {
    type V = WalkView;

    closed spec fn view(&self) -> WalkView {
        WalkView { pending: texts(self.pending@), stage: self.stage@ }
    }
}

impl View for WalkEvent {
    type V = WalkEventView;

    open spec fn view(&self) -> WalkEventView {
        match self {
            WalkEvent::Watched(attempt) => WalkEventView::Watched(*attempt),
            WalkEvent::Listed(names) => WalkEventView::Listed(texts(names@)),
        }
    }
}

impl View for WalkAction {
    type V = WalkActionView;

    open spec fn view(&self) -> WalkActionView {
        match self {
            WalkAction::Watch(dir) => WalkActionView::Watch(dir@),
            WalkAction::List(dir) => WalkActionView::List(dir@),
            WalkAction::Done => WalkActionView::Done,
            WalkAction::Fail(error) => WalkActionView::Fail(error@),
        }
    }
}

/// An optional [`WatchError`] as plain values.
pub open spec fn skipped_view(skipped: Option<WatchError>) -> Option<WatchErrorView> {
    match skipped {
        Some(error) => Some(error@),
        None => None,
    }
}

/// The paths of the entries `names` of the directory `dir`.
pub open spec fn children_paths(dir: Seq<char>, names: Seq<Seq<char>>) -> Seq<Seq<char>> {
    Seq::new(names.len(), |i: int| path_join(dir, names[i]))
}

/// The walk that goes on with the directories `pending`: the last one is
/// put under watch next; with none left the walk is over.
pub open spec fn walk_resume(pending: Seq<Seq<char>>) -> WalkView {
    if pending.len() == 0 {
        WalkView { pending, stage: WalkStageView::Done }
    } else {
        WalkView { pending: pending.drop_last(), stage: WalkStageView::Watching(pending.last()) }
    }
}

/// The walk at its start: the root is to be put under watch.
pub open spec fn walk_start(root: Seq<char>) -> WalkView {
    WalkView { pending: Seq::empty(), stage: WalkStageView::WatchingRoot(root) }
}

/// The walk after `event`.
///
/// A directory that is now under watch is listed next. If the root cannot
/// be watched the walk fails. Any other directory that cannot be watched
/// is given up and the walk goes on. The subdirectories that a listing
/// finds are added to the pending directories. An event that does not
/// answer the pending action changes nothing.
pub open spec fn walk_next(walk: WalkView, event: WalkEventView) -> WalkView {
    match (walk.stage, event) {
        (WalkStageView::WatchingRoot(dir), WalkEventView::Watched(Ok(_))) => WalkView {
            pending: walk.pending,
            stage: WalkStageView::Listing(dir),
        },
        (WalkStageView::WatchingRoot(dir), WalkEventView::Watched(Err(failure))) => WalkView {
            pending: walk.pending,
            stage: WalkStageView::Failed(WatchErrorView { path: dir, failure }),
        },
        (WalkStageView::Watching(dir), WalkEventView::Watched(Ok(_))) => WalkView {
            pending: walk.pending,
            stage: WalkStageView::Listing(dir),
        },
        (WalkStageView::Watching(_), WalkEventView::Watched(Err(_))) => walk_resume(walk.pending),
        (WalkStageView::Listing(dir), WalkEventView::Listed(names)) => walk_resume(
            walk.pending + children_paths(dir, names),
        ),
        _ => walk,
    }
}

/// The action that `walk` waits on.
pub open spec fn walk_action(walk: WalkView) -> WalkActionView {
    match walk.stage {
        WalkStageView::WatchingRoot(dir) => WalkActionView::Watch(dir),
        WalkStageView::Watching(dir) => WalkActionView::Watch(dir),
        WalkStageView::Listing(dir) => WalkActionView::List(dir),
        WalkStageView::Done => WalkActionView::Done,
        WalkStageView::Failed(error) => WalkActionView::Fail(error),
    }
}

/// The registry after `event`: a directory that is now under watch is
/// recorded under its handle.
pub open spec fn walk_registry(
    registry: Map<WatchHandle, Seq<char>>,
    walk: WalkView,
    event: WalkEventView,
) -> Map<WatchHandle, Seq<char>> {
    match (walk.stage, event) {
        (WalkStageView::WatchingRoot(dir), WalkEventView::Watched(Ok(handle))) => registry.insert(
            handle,
            dir,
        ),
        (WalkStageView::Watching(dir), WalkEventView::Watched(Ok(handle))) => registry.insert(
            handle,
            dir,
        ),
        _ => registry,
    }
}

/// The directory that the walk gives up on at `event`, if it gives up on
/// one.
pub open spec fn walk_skipped(walk: WalkView, event: WalkEventView) -> Option<WatchErrorView> {
    match (walk.stage, event) {
        (WalkStageView::Watching(dir), WalkEventView::Watched(Err(failure))) => Some(
            WatchErrorView { path: dir, failure },
        ),
        _ => None,
    }
}

impl TreeWalk {
    /// The walk over the tree below `root`, at its start.
    pub fn start(root: String) -> (walk: TreeWalk)
        ensures
            walk@ == walk_start(root@),
    {
        let walk = TreeWalk { pending: Vec::new(), stage: WalkStage::WatchingRoot(root) };
        proof {
            assert(texts(walk.pending@) =~= Seq::<Seq<char>>::empty());
        }
        walk
    }

    /// Whether the walk is over, well or badly.
    pub fn is_over(&self) -> (over: bool)
        ensures
            over == (self@.stage is Done || self@.stage is Failed),
    {
        match &self.stage {
            WalkStage::Done => true,
            WalkStage::Failed(_) => true,
            _ => false,
        }
    }

    /// The action that the walk waits on.
    pub fn action(&self) -> (action: WalkAction)
        ensures
            action@ == walk_action(self@),
    {
        match &self.stage {
            WalkStage::WatchingRoot(dir) => WalkAction::Watch(dir.clone()),
            WalkStage::Watching(dir) => WalkAction::Watch(dir.clone()),
            WalkStage::Listing(dir) => WalkAction::List(dir.clone()),
            WalkStage::Done => WalkAction::Done,
            WalkStage::Failed(error) => WalkAction::Fail(
                WatchError { path: error.path.clone(), failure: error.failure },
            ),
        }
    }

    /// Goes on with the pending directories.
    fn resume(&mut self)
        ensures
            final(self)@ == walk_resume(old(self)@.pending),
    {
        proof {
            if self.pending@.len() > 0 {
                assert(texts(self.pending@.drop_last()) =~= texts(self.pending@).drop_last());
            }
        }
        match self.pending.pop() {
            Some(dir) => {
                self.stage = WalkStage::Watching(dir);
            },
            None => {
                self.stage = WalkStage::Done;
            },
        }
    }

    /// Adds the entries `names` of `dir` to the pending directories.
    fn discover(&mut self, dir: &String, names: &Vec<String>)
        ensures
            final(self).stage == old(self).stage,
            final(self)@.pending == old(self)@.pending + children_paths(dir@, texts(names@)),
    {
        let mut i: usize = 0;
        while i < names.len()
            invariant
                i <= names.len(),
                self.stage == old(self).stage,
                self@.pending == old(self)@.pending + children_paths(dir@, texts(names@)).take(
                    i as int,
                ),
            decreases names.len() - i,
        {
            let path = join_path(dir.as_str(), names[i].as_str());
            proof {
                lemma_texts_push(self.pending@, path);
                let all = children_paths(dir@, texts(names@));
                assert((old(self)@.pending + all.take(i as int)).push(path@) =~= old(self)@.pending
                    + all.take(i + 1));
            }
            self.pending.push(path);
            i = i + 1;
        }
    }

    /// Takes the walk one step further: `event` is what became of the
    /// action that the walk waited on. A directory that is now under watch
    /// is recorded in `registry`.
    pub fn step(&mut self, registry: &mut WatchRegistry, event: WalkEvent) -> (step: WalkStep)
        ensures
            final(self)@ == walk_next(old(self)@, event@),
            final(registry)@ == walk_registry(old(registry)@, old(self)@, event@),
            step.action@ == walk_action(final(self)@),
            skipped_view(step.skipped) == walk_skipped(old(self)@, event@),
    {
        let mut stage = WalkStage::Done;
        core::mem::swap(&mut self.stage, &mut stage);
        let mut skipped: Option<WatchError> = None;
        match (stage, event) {
            (WalkStage::WatchingRoot(dir), WalkEvent::Watched(Ok(handle))) => {
                registry.insert(handle, dir.clone());
                self.stage = WalkStage::Listing(dir);
            },
            (WalkStage::WatchingRoot(dir), WalkEvent::Watched(Err(failure))) => {
                self.stage = WalkStage::Failed(WatchError { path: dir, failure });
            },
            (WalkStage::Watching(dir), WalkEvent::Watched(Ok(handle))) => {
                registry.insert(handle, dir.clone());
                self.stage = WalkStage::Listing(dir);
            },
            (WalkStage::Watching(dir), WalkEvent::Watched(Err(failure))) => {
                skipped = Some(WatchError { path: dir, failure });
                self.resume();
            },
            (WalkStage::Listing(dir), WalkEvent::Listed(names)) => {
                self.discover(&dir, &names);
                self.resume();
            },
            (stage, _) => {
                self.stage = stage;
            },
        }
        WalkStep { action: self.action(), skipped }
    }
}

/// A directory is listed only once it is under watch: when a step makes
/// the walk list a directory, the registry after that step knows it.
pub proof fn lemma_watched_before_listed(
    registry: Map<WatchHandle, Seq<char>>,
    walk: WalkView,
    event: WalkEventView,
)
    requires
        !(walk.stage is Listing),
    ensures
        walk_next(walk, event).stage matches WalkStageView::Listing(dir) ==> walk_registry(
            registry,
            walk,
            event,
        ).values().contains(dir),
{
    if let WalkStageView::Listing(dir) = walk_next(walk, event).stage {
        let handle = event->Watched_0->Ok_0;
        let grown = walk_registry(registry, walk, event);
        assert(grown.contains_key(handle) && grown[handle] == dir);
    }
}

/// Every directory that the walk asks to watch is the root or an entry of
/// a directory that was listed: a step adds to the pending directories
/// nothing but the entries that its listing names.
pub proof fn lemma_walk_finds_listed_entries(walk: WalkView, event: WalkEventView)
    ensures
        ({
            let next = walk_next(walk, event);
            let before = match walk.stage {
                WalkStageView::Listing(dir) => match event {
                    WalkEventView::Listed(names) => walk.pending + children_paths(dir, names),
                    _ => walk.pending,
                },
                _ => walk.pending,
            };
            match next.stage {
                WalkStageView::Watching(dir) => next.stage == walk.stage || (before.len() > 0
                    && dir == before.last() && next.pending == before.drop_last()),
                _ => true,
            }
        }),
{
}

} // verus!
