//! The host of the laws: a mathematical one.
//!
//! It is the data directory that it names, the texts of its files by their
//! paths, and the actions that it refuses. A refused action fails and leaves
//! the files alone, except that a refused write may leave a torn file behind.
//! A task is followed over such a host from its first action to its end, or
//! to an interruption.

use crate::location::{data_file_path, temp_file_path};
use crate::store::{begin, next_step, ActionView, EventView, GoalView, StepView};
use vstd::prelude::*;

verus! {

/// A host.
pub struct Host {
    /// The data directory that the host names.
    pub data_dir: Seq<char>,
    /// The text of each file, by its path.
    pub files: Map<Seq<char>, Seq<char>>,
    /// The actions that the host refuses.
    pub refuses: Set<ActionView>,
    /// What the host gives as the cause when it refuses.
    pub cause: Seq<char>,
    /// What a refused write leaves at its path, if anything.
    pub torn: Option<Seq<char>>,
}

/// The event by which the host reports that it refused an action. A probe
/// that is refused finds nothing.
pub open spec fn refusal(host: Host, action: ActionView) -> EventView {
    match action {
        ActionView::FindDataDir => EventView::DataDir(Err(host.cause)),
        ActionView::ProbeFile { .. } => EventView::Found(false),
        ActionView::ReadFile { .. } => EventView::Content(Err(host.cause)),
        _ => EventView::Completed(Err(host.cause)),
    }
}

/// What the host does when asked for an action: how its files change, and
/// the event that it reports.
pub open spec fn answer(host: Host, action: ActionView) -> (Host, EventView) {
    if host.refuses.contains(action) {
        match (action, host.torn) {
            (ActionView::WriteFile { path, .. }, Some(text)) => (
                Host { files: host.files.insert(path, text), ..host },
                refusal(host, action),
            ),
            _ => (host, refusal(host, action)),
        }
    } else {
        match action {
            ActionView::FindDataDir => (host, EventView::DataDir(Ok(host.data_dir))),
            ActionView::CreateDir { .. } => (host, EventView::Completed(Ok(()))),
            ActionView::ProbeFile { path } => (
                host,
                EventView::Found(host.files.contains_key(path)),
            ),
            ActionView::ReadFile { path } => if host.files.contains_key(path) {
                (host, EventView::Content(Ok(host.files[path])))
            } else {
                (host, EventView::Content(Err(host.cause)))
            },
            ActionView::WriteFile { path, text } => (
                Host { files: host.files.insert(path, text), ..host },
                EventView::Completed(Ok(())),
            ),
            ActionView::ReplaceFile { from, to } => if host.files.contains_key(from) {
                (
                    Host { files: host.files.remove(from).insert(to, host.files[from]), ..host },
                    EventView::Completed(Ok(())),
                )
            } else {
                (host, EventView::Completed(Err(host.cause)))
            },
        }
    }
}

/// The host and the step after the host has performed at most `actions`
/// actions of a task, each followed by the store's decision.
pub open spec fn run(host: Host, step: StepView, actions: nat) -> (Host, StepView)
    decreases actions,
{
    match step {
        StepView::Done(_) => (host, step),
        StepView::Ask(task, action) => if actions == 0 {
            (host, step)
        } else {
            let (next_host, event) = answer(host, action);
            run(next_host, next_step(task, event), (actions - 1) as nat)
        },
    }
}

/// The number of actions after which every task is done.
pub open spec fn whole() -> nat {
    4
}

/// The host and the step at the end of an operation.
pub open spec fn perform(host: Host, goal: GoalView) -> (Host, StepView) {
    run(host, begin(goal), whole())
}

/// The text of the data file of a host, if it has one.
pub open spec fn data_file(host: Host) -> Option<Seq<char>> {
    if host.files.contains_key(data_file_path(host.data_dir)) {
        Some(host.files[data_file_path(host.data_dir)])
    } else {
        None
    }
}

/// Whether the host refuses nothing.
pub open spec fn willing(host: Host) -> bool {
    forall|action: ActionView| !host.refuses.contains(action)
}

/// Whether the host names its data directory and lets it be created.
pub open spec fn lets_locate(host: Host) -> bool {
    &&& !host.refuses.contains(ActionView::FindDataDir)
    &&& !host.refuses.contains(ActionView::CreateDir { dir: host.data_dir })
}

/// Whether the host lets the data file be found and read.
pub open spec fn lets_read(host: Host) -> bool {
    &&& lets_locate(host)
    &&& !host.refuses.contains(ActionView::ProbeFile { path: data_file_path(host.data_dir) })
    &&& !host.refuses.contains(ActionView::ReadFile { path: data_file_path(host.data_dir) })
}

/// Whether two hosts differ in their files at most.
pub open spec fn same_character(one: Host, other: Host) -> bool {
    &&& one.data_dir == other.data_dir
    &&& one.refuses == other.refuses
    &&& one.cause == other.cause
    &&& one.torn == other.torn
}

/// Whether two hosts hold the same files, but for the data file of the
/// first and its sibling.
pub open spec fn same_other_files(one: Host, other: Host) -> bool {
    forall|path: Seq<char>|
        #![trigger one.files.contains_key(path)]
        path != data_file_path(one.data_dir) && path != temp_file_path(
            data_file_path(one.data_dir),
        ) ==> {
            &&& one.files.contains_key(path) == other.files.contains_key(path)
            &&& one.files[path] == other.files[path]
        }
}

} // verus!
