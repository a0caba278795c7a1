//! One drain cycle: the pending files are offered to every destination in
//! turn, one run of the transfer tool for each.
//!
//! The driver runs the tool; this module decides what it has to do next.
//! [`begin_sync`] opens a cycle and [`do_sync`] takes the cycle from one step
//! to the next: it is told what became of the last action and answers with
//! the next one.

use crate::options::Options;
use crate::queue::{file_list_of, TransferQueue};
use crate::text::{lemma_texts_push, split_whitespace, texts, words_of};
use vstd::prelude::*;
use vstd::string::*;

verus! {

/// Where a drain cycle stands. The number is the position of the
/// destination at work, in the order of the options.
#[derive(Clone, Copy, Debug, PartialEq, Eq, Structural)]
pub enum SyncState {
    /// The tool is being started for this destination.
    Spawning(usize),
    /// The tool runs and is being fed the file list.
    Feeding(usize),
    /// The tool has the list; its exit is awaited.
    Waiting(usize),
    /// Every destination has had its turn.
    Finished,
}

/// What the driver reports after it carried out a [`SyncAction`].
#[derive(Clone, Copy, Debug, PartialEq, Eq, Structural)]
pub enum SyncEvent {
    /// The tool was started.
    Spawned,
    /// The tool could not be started.
    SpawnFailed,
    /// The tool runs, but its standard input cannot be had.
    StdinUnavailable,
    /// The whole file list was written to the tool.
    ListWritten,
    /// Writing the file list failed.
    WriteFailed,
    /// The tool ended, with this exit code if it had one.
    Exited(Option<i32>),
    /// Waiting for the tool failed.
    WaitFailed,
}

/// How the attempt at one destination ended.
#[derive(Clone, Copy, Debug, PartialEq, Eq, Structural)]
pub enum DestinationOutcome {
    /// The tool ran and exited with status 0.
    Completed,
    /// The tool could not be started.
    SpawnFailed,
    /// The file list could not be handed over: no standard input.
    StdinUnavailable,
    /// The file list could not be handed over: the write failed.
    WriteFailed,
    /// Waiting for the tool failed.
    WaitFailed,
    /// The tool ended otherwise than with status 0.
    ExitedWith(Option<i32>),
}

/// The outcome at one destination, for the driver to log.
#[derive(Clone, Debug, PartialEq, Eq)]
pub struct SyncReport {
    /// The destination as configured.
    pub destination: String,
    /// How the attempt ended.
    pub outcome: DestinationOutcome,
}

/// One run of the transfer tool.
#[derive(Clone, Debug, PartialEq, Eq)]
pub struct Invocation {
    /// Path of the tool.
    pub program: String,
    /// Its arguments, in order.
    pub args: Vec<String>,
}

/// What the driver has to do next.
#[derive(Clone, Debug, PartialEq, Eq)]
pub enum SyncAction {
    /// Start the tool, in the watched root, with a pipe as standard input.
    Spawn(Invocation),
    /// Write this text to the standard input of the tool and close it.
    WriteList(String),
    /// Wait until the tool ends.
    Wait,
    /// Nothing: the cycle is over.
    Finish,
}

/// The answer of one step of a drain cycle.
#[derive(Clone, Debug, PartialEq, Eq)]
pub struct SyncStep {
    /// Where the cycle stands now.
    pub state: SyncState,
    /// What the driver has to do next.
    pub action: SyncAction,
    /// The outcome at the destination that this step finished, if it
    /// finished one.
    pub report: Option<SyncReport>,
}

/// A [`SyncReport`] as plain values.
pub ghost struct SyncReportView {
    pub destination: Seq<char>,
    pub outcome: DestinationOutcome,
}

/// An [`Invocation`] as plain values.
pub ghost struct InvocationView {
    pub program: Seq<char>,
    pub args: Seq<Seq<char>>,
}

/// A [`SyncAction`] as plain values.
pub ghost enum SyncActionView {
    Spawn(InvocationView),
    WriteList(Seq<char>),
    Wait,
    Finish,
}

impl View for SyncReport {
    type V = SyncReportView;

    open spec fn view(&self) -> SyncReportView {
        SyncReportView { destination: self.destination@, outcome: self.outcome }
    }
}

impl View for Invocation {
    type V = InvocationView;

    open spec fn view(&self) -> InvocationView {
        InvocationView { program: self.program@, args: texts(self.args@) }
    }
}

impl View for SyncAction {
    type V = SyncActionView;

    open spec fn view(&self) -> SyncActionView {
        match self {
            SyncAction::Spawn(run) => SyncActionView::Spawn(run@),
            SyncAction::WriteList(list) => SyncActionView::WriteList(list@),
            SyncAction::Wait => SyncActionView::Wait,
            SyncAction::Finish => SyncActionView::Finish,
        }
    }
}

/// An optional [`SyncReport`] as plain values.
pub open spec fn report_view(report: Option<SyncReport>) -> Option<SyncReportView> {
    match report {
        Some(report) => Some(report@),
        None => None,
    }
}

/// The destination that `state` works on, among `n` destinations.
pub open spec fn sync_target(n: nat, state: SyncState) -> Option<nat> {
    match state {
        SyncState::Spawning(i) | SyncState::Feeding(i) | SyncState::Waiting(i) => if i < n {
            Some(i as nat)
        } else {
            None
        },
        SyncState::Finished => None,
    }
}

/// The state in which destination `i` of `n` gets its turn.
pub open spec fn sync_enter(n: nat, i: nat) -> SyncState {
    if i < n {
        SyncState::Spawning(i as usize)
    } else {
        SyncState::Finished
    }
}

/// How `event` ends the attempt that `state` is in the middle of, if it
/// ends it.
pub open spec fn sync_outcome(state: SyncState, event: SyncEvent) -> Option<DestinationOutcome> {
    match (state, event) {
        (SyncState::Spawning(_), SyncEvent::SpawnFailed) => Some(DestinationOutcome::SpawnFailed),
        (SyncState::Feeding(_), SyncEvent::StdinUnavailable) => Some(
            DestinationOutcome::StdinUnavailable,
        ),
        (SyncState::Feeding(_), SyncEvent::WriteFailed) => Some(DestinationOutcome::WriteFailed),
        (SyncState::Waiting(_), SyncEvent::WaitFailed) => Some(DestinationOutcome::WaitFailed),
        (SyncState::Waiting(_), SyncEvent::Exited(code)) => if code == Some(0i32) {
            Some(DestinationOutcome::Completed)
        } else {
            Some(DestinationOutcome::ExitedWith(code))
        },
        _ => None,
    }
}

/// Whether `event` answers the action that `state` waits on.
pub open spec fn sync_expects(state: SyncState, event: SyncEvent) -> bool {
    ||| sync_outcome(state, event) is Some
    ||| (state is Spawning && event is Spawned)
    ||| (state is Feeding && event is ListWritten)
}

/// The state after `event`, with `n` destinations. An event that ends the
/// attempt at a destination, well or badly, gives the turn to the next
/// one. An event that does not answer the pending action changes nothing.
pub open spec fn sync_next(n: nat, state: SyncState, event: SyncEvent) -> SyncState {
    match sync_target(n, state) {
        None => SyncState::Finished,
        Some(i) => if sync_outcome(state, event) is Some {
            sync_enter(n, i + 1)
        } else {
            match (state, event) {
                (SyncState::Spawning(_), SyncEvent::Spawned) => SyncState::Feeding(i as usize),
                (SyncState::Feeding(_), SyncEvent::ListWritten) => SyncState::Waiting(i as usize),
                _ => state,
            }
        },
    }
}

/// The state in which a cycle over `n` destinations opens, with `waiting`
/// files in the queue. With nothing in the queue there is nothing to do.
pub open spec fn sync_begin(n: nat, waiting: nat) -> SyncState {
    if waiting == 0 {
        SyncState::Finished
    } else {
        sync_enter(n, 0)
    }
}

/// The steps that a cycle in `state` has still to take at most, with `n`
/// destinations.
pub open spec fn sync_remaining(n: nat, state: SyncState) -> nat {
    match sync_target(n, state) {
        None => 0,
        Some(i) => match state {
            SyncState::Spawning(_) => (3 * (n - i)) as nat,
            SyncState::Feeding(_) => (3 * (n - i) - 1) as nat,
            _ => (3 * (n - i) - 2) as nat,
        },
    }
}

/// The arguments of the transfer tool for one destination: archive mode,
/// relative paths, the file list on standard input, the extra arguments,
/// the current directory as source, and the destination.
pub open spec fn transfer_arguments(params: Seq<char>, destination: Seq<char>) -> Seq<Seq<char>> {
    seq!["-a"@, "--relative"@, "--files-from=-"@] + words_of(params) + seq!["."@, destination]
}

/// The action that `state` waits on, for the options `opts` and the queued
/// paths `files`: the run of the tool for the destination at work, the file
/// list to feed it, or the wait for its end.
pub open spec fn sync_action(opts: &Options, files: Seq<Seq<char>>, state: SyncState) -> SyncActionView {
    match sync_target(opts.destinations@.len(), state) {
        None => SyncActionView::Finish,
        Some(i) => match state {
            SyncState::Spawning(_) => SyncActionView::Spawn(
                InvocationView {
                    program: opts.rsync@,
                    args: transfer_arguments(opts.rsync_params@, opts.destinations@[i as int]@),
                },
            ),
            SyncState::Feeding(_) => SyncActionView::WriteList(file_list_of(files)),
            _ => SyncActionView::Wait,
        },
    }
}

/// The report of the step that `event` makes from `state`: the outcome at
/// the destination at work, if the event ends the attempt at it.
pub open spec fn sync_report(opts: &Options, state: SyncState, event: SyncEvent) -> Option<
    SyncReportView,
> {
    match (sync_target(opts.destinations@.len(), state), sync_outcome(state, event)) {
        (Some(i), Some(outcome)) => Some(
            SyncReportView { destination: opts.destinations@[i as int]@, outcome },
        ),
        _ => None,
    }
}

/// The queue after the step that `event` makes from `state`: it is emptied
/// when the step ends the cycle, and left alone otherwise.
pub open spec fn sync_queue(n: nat, files: Seq<Seq<char>>, state: SyncState, event: SyncEvent) -> Seq<
    Seq<char>,
> {
    if sync_target(n, state) is Some && sync_next(n, state, event) is Finished {
        Seq::empty()
    } else {
        files
    }
}

/// Builds the arguments of the transfer tool for `destination`.
pub fn build_arguments(params: &str, destination: &str) -> (args: Vec<String>)
    ensures
        texts(args@) == transfer_arguments(params@, destination@),
{
    let mut args: Vec<String> = Vec::new();
    let archive = String::from_str("-a");
    let relative = String::from_str("--relative");
    let files_from = String::from_str("--files-from=-");
    let source = String::from_str(".");
    let target = String::from_str(destination);
    let mut extra = split_whitespace(params);
    proof {
        lemma_texts_push(args@, archive);
        lemma_texts_push(args@.push(archive), relative);
        lemma_texts_push(args@.push(archive).push(relative), files_from);
    }
    args.push(archive);
    args.push(relative);
    args.push(files_from);
    args.append(&mut extra);
    proof {
        lemma_texts_push(args@, source);
        lemma_texts_push(args@.push(source), target);
    }
    args.push(source);
    args.push(target);
    args
}

/// The destination that `state` works on, if it works on one of the
/// `n` destinations.
pub fn current_destination(n: usize, state: SyncState) -> (target: Option<usize>)
    ensures
        match target {
            Some(i) => sync_target(n as nat, state) == Some(i as nat),
            None => sync_target(n as nat, state) is None,
        },
{
    match state {
        SyncState::Spawning(i) | SyncState::Feeding(i) | SyncState::Waiting(i) => if i < n {
            Some(i)
        } else {
            None
        },
        SyncState::Finished => None,
    }
}

/// How `event` ends the attempt that `state` is in the middle of, if it
/// ends it.
pub fn outcome_of(state: SyncState, event: SyncEvent) -> (outcome: Option<DestinationOutcome>)
    ensures
        outcome == sync_outcome(state, event),
{
    match (state, event) {
        (SyncState::Spawning(_), SyncEvent::SpawnFailed) => Some(DestinationOutcome::SpawnFailed),
        (SyncState::Feeding(_), SyncEvent::StdinUnavailable) => Some(
            DestinationOutcome::StdinUnavailable,
        ),
        (SyncState::Feeding(_), SyncEvent::WriteFailed) => Some(DestinationOutcome::WriteFailed),
        (SyncState::Waiting(_), SyncEvent::WaitFailed) => Some(DestinationOutcome::WaitFailed),
        (SyncState::Waiting(_), SyncEvent::Exited(code)) => match code {
            Some(0i32) => Some(DestinationOutcome::Completed),
            _ => Some(DestinationOutcome::ExitedWith(code)),
        },
        _ => None,
    }
}

/// The action that `state` waits on.
pub fn pending_action(opts: &Options, queue: &TransferQueue, state: SyncState) -> (action:
    SyncAction)
    ensures
        action@ == sync_action(opts, queue@, state),
{
    match current_destination(opts.destinations.len(), state) {
        None => SyncAction::Finish,
        Some(i) => match state {
            SyncState::Spawning(_) => {
                let args = build_arguments(
                    opts.rsync_params.as_str(),
                    opts.destinations[i].as_str(),
                );
                SyncAction::Spawn(Invocation { program: opts.rsync.clone(), args })
            },
            SyncState::Feeding(_) => SyncAction::WriteList(queue.file_list()),
            _ => SyncAction::Wait,
        },
    }
}

/// Opens a drain cycle. With an empty queue the cycle is over at once and
/// no tool is run. Otherwise the first destination gets its turn; with no
/// destination at all, the queue is dropped.
pub fn begin_sync(opts: &Options, queue: &mut TransferQueue) -> (step: SyncStep)
    ensures
        step.state == sync_begin(opts.destinations@.len(), old(queue)@.len()),
        step.action@ == sync_action(opts, old(queue)@, step.state),
        step.report is None,
        final(queue)@ == if step.state is Finished {
            Seq::<Seq<char>>::empty()
        } else {
            old(queue)@
        },
{
    if queue.is_empty() || opts.destinations.len() == 0 {
        queue.clear();
        SyncStep { state: SyncState::Finished, action: SyncAction::Finish, report: None }
    } else {
        let state = SyncState::Spawning(0);
        let action = pending_action(opts, queue, state);
        SyncStep { state, action, report: None }
    }
}

/// Takes a drain cycle one step further: `state` is where it stood and
/// `event` what became of the action it waited on.
///
/// A failure at one destination ends the attempt at that destination only:
/// it is reported and the next destination gets its turn. When the last
/// destination has had its turn the queue is cleared, whatever the
/// outcomes were. An event that does not answer the pending action changes
/// nothing, and the action is asked for again.
pub fn do_sync(opts: &Options, queue: &mut TransferQueue, state: SyncState, event: SyncEvent) -> (step:
    SyncStep)
    ensures
        step.state == sync_next(opts.destinations@.len(), state, event),
        step.action@ == sync_action(opts, old(queue)@, step.state),
        report_view(step.report) == sync_report(opts, state, event),
        final(queue)@ == sync_queue(opts.destinations@.len(), old(queue)@, state, event),
{
    let n: usize = opts.destinations.len();
    match current_destination(n, state) {
        None => SyncStep { state: SyncState::Finished, action: SyncAction::Finish, report: None },
        Some(i) => match outcome_of(state, event) {
            Some(outcome) => {
                let report = SyncReport { destination: opts.destinations[i].clone(), outcome };
                if i + 1 < n {
                    let next = SyncState::Spawning(i + 1);
                    let action = pending_action(opts, queue, next);
                    SyncStep { state: next, action, report: Some(report) }
                } else {
                    queue.clear();
                    SyncStep {
                        state: SyncState::Finished,
                        action: SyncAction::Finish,
                        report: Some(report),
                    }
                }
            },
            None => {
                let next = match (state, event) {
                    (SyncState::Spawning(_), SyncEvent::Spawned) => SyncState::Feeding(i),
                    (SyncState::Feeding(_), SyncEvent::ListWritten) => SyncState::Waiting(i),
                    _ => state,
                };
                let action = pending_action(opts, queue, next);
                SyncStep { state: next, action, report: None }
            },
        },
    }
}

/// An event that answers the pending action brings the cycle nearer to its
/// end: a cycle over `n` destinations is over after at most `3 * n` such
/// events.
pub proof fn lemma_sync_advances(n: nat, state: SyncState, event: SyncEvent)
    requires
        n <= usize::MAX,
        sync_target(n, state) is Some,
        sync_expects(state, event),
    ensures
        sync_remaining(n, sync_next(n, state, event)) < sync_remaining(n, state),
{
}

/// No destination is passed over: after any event the cycle works on the
/// same destination or on the one that follows it, and it is over only
/// once the last destination has had its turn. A failure does not end the
/// cycle early.
pub proof fn lemma_sync_visits_every_destination(n: nat, state: SyncState, event: SyncEvent)
    requires
        sync_target(n, state) is Some,
    ensures
        ({
            let i = sync_target(n, state)->0;
            let next = sync_next(n, state, event);
            if sync_outcome(state, event) is Some {
                if i + 1 < n {
                    next == SyncState::Spawning((i + 1) as usize)
                } else {
                    next == SyncState::Finished
                }
            } else {
                sync_target(n, next) == Some(i)
            }
        }),
{
}

/// Draining twice is draining once: the step that ends a cycle leaves the
/// queue empty, whatever the outcomes at the destinations were, and the
/// cycle that is then opened on that queue is over at once and asks for no
/// run of the tool.
pub proof fn lemma_drained_queue_needs_no_run(
    opts: &Options,
    files: Seq<Seq<char>>,
    state: SyncState,
    event: SyncEvent,
)
    requires
        sync_target(opts.destinations@.len(), state) is Some,
        sync_next(opts.destinations@.len(), state, event) is Finished,
    ensures
        ({
            let n = opts.destinations@.len();
            let left = sync_queue(n, files, state, event);
            &&& left.len() == 0
            &&& sync_begin(n, left.len()) == SyncState::Finished
            &&& sync_action(opts, left, sync_begin(n, left.len())) == SyncActionView::Finish
        }),
{
}

/// A cycle asks for a run of the tool only while it works on a
/// destination: a cycle that is over asks for nothing, and a cycle on an
/// empty queue is over from the start.
pub proof fn lemma_no_run_without_files(opts: &Options, files: Seq<Seq<char>>)
    requires
        files.len() == 0,
    ensures
        sync_begin(opts.destinations@.len(), files.len()) == SyncState::Finished,
        sync_action(opts, files, SyncState::Finished) == SyncActionView::Finish,
{
}

} // verus!
