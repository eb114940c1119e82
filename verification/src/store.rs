//! The state store as a machine that decides and a host that acts.
//!
//! The library touches neither the file system nor the application's
//! environment. An operation is a [`Task`]: it asks the host for one
//! [`Action`] at a time, the host performs it and reports an [`Event`], and
//! [`advance`] decides from the event what comes next, until the task is
//! done. Every decision of the store is made here.
//!
//! A save writes the new text to a sibling of the data file and then
//! replaces the data file with it, so an observer of the data file sees the
//! old envelope or the new one and never a part of either.

use crate::envelope::{decoded, encoded, freshly_stamped, AppData, Envelope, FORMAT_VERSION};
use crate::failure::{explain, Failure, StoreError};
use crate::json::json_of;
use crate::location::{data_file_path, get_data_file_path, get_temp_file_path, temp_file_path};
use vstd::prelude::*;

verus! {

/// What the message begins with when the host names no data directory.
pub const FIND_DIR_FAILURE: &'static str = "Failed to get app data dir: ";

/// What the message begins with when the data directory cannot be created.
pub const CREATE_DIR_FAILURE: &'static str = "Failed to create app data dir: ";

/// What the message begins with when the data file cannot be written.
pub const WRITE_FAILURE: &'static str = "Failed to write file: ";

/// What the message begins with when the data file cannot be read.
pub const READ_FAILURE: &'static str = "Failed to read file: ";

/// What a task asks its host to do.
#[derive(Debug)]
pub enum Action {
    /// Name the application's private data directory.
    FindDataDir,
    /// Create the directory and its missing ancestors; succeed if it exists.
    CreateDir { dir: String },
    /// Tell whether anything exists at the path.
    ProbeFile { path: String },
    /// Read the whole file as text.
    ReadFile { path: String },
    /// Write the text to the path, as a new file or over an old one.
    WriteFile { path: String, text: String },
    /// Put the file at `from` in the place of whatever is at `to`, in one
    /// step that cannot be seen half done.
    ReplaceFile { from: String, to: String },
}

/// What the host reports of the action that it was asked for.
#[derive(Debug)]
pub enum Event {
    /// The answer to [`Action::FindDataDir`]: the directory, or why there is
    /// none.
    DataDir(Result<String, String>),
    /// The answer to [`Action::CreateDir`], [`Action::WriteFile`] and
    /// [`Action::ReplaceFile`]: done, or why not.
    Completed(Result<(), String>),
    /// The answer to [`Action::ProbeFile`].
    Found(bool),
    /// The answer to [`Action::ReadFile`]: the text, or why it cannot be read.
    Content(Result<String, String>),
}

/// What an operation hands to its caller when it succeeds.
#[derive(Debug)]
pub enum Reply {
    /// A save is done; the path of the data file.
    Saved(String),
    /// A load is done; the envelope as the file holds it.
    Loaded(AppData),
    /// Whether there is a data file.
    Found(bool),
    /// The path of the data file.
    Path(String),
}

/// What a task is for.
#[derive(Debug)]
enum Goal {
    Save(AppData),
    Load,
    Probe,
    Locate,
}

/// Where a task stands: what it waits for, and what it keeps for later.
#[derive(Debug)]
enum Stage {
    FindingDir { goal: Goal },
    CreatingDir { goal: Goal, dir: String },
    Probing { load: bool, path: String },
    Reading { path: String },
    Writing { path: String, temp: String },
    Replacing { path: String },
}

/// An operation of the store that waits for its host.
#[derive(Debug)]
pub struct Task {
    stage: Stage,
}

/// One move of a task: the next action with the task that awaits its event,
/// or the end.
#[derive(Debug)]
pub enum Step {
    Ask(Task, Action),
    Done(Result<Reply, StoreError>),
}

/// An action as a mathematical value.
pub enum ActionView {
    FindDataDir,
    CreateDir { dir: Seq<char> },
    ProbeFile { path: Seq<char> },
    ReadFile { path: Seq<char> },
    WriteFile { path: Seq<char>, text: Seq<char> },
    ReplaceFile { from: Seq<char>, to: Seq<char> },
}

/// An event as a mathematical value.
pub enum EventView {
    DataDir(Result<Seq<char>, Seq<char>>),
    Completed(Result<(), Seq<char>>),
    Found(bool),
    Content(Result<Seq<char>, Seq<char>>),
}

/// A reply as a mathematical value.
pub enum ReplyView {
    Saved(Seq<char>),
    Loaded(Envelope),
    Found(bool),
    Path(Seq<char>),
}

/// What a task is for, as a mathematical value.
pub enum GoalView {
    /// Save this envelope.
    Save(Envelope),
    /// Load the envelope.
    Load,
    /// Tell whether there is a data file.
    Probe,
    /// Tell where the data file is.
    Locate,
}

/// A task as a mathematical value.
pub enum TaskView {
    /// Waits for the data directory.
    FindingDir { goal: GoalView },
    /// Waits for the data directory to exist.
    CreatingDir { goal: GoalView, dir: Seq<char> },
    /// Waits to learn whether the data file exists; a load if `load`.
    Probing { load: bool, path: Seq<char> },
    /// Waits for the text of the data file.
    Reading { path: Seq<char> },
    /// Waits for the new text to be written beside the data file.
    Writing { path: Seq<char>, temp: Seq<char> },
    /// Waits for the new file to replace the data file.
    Replacing { path: Seq<char> },
}

/// A step as a mathematical value.
pub enum StepView {
    Ask(TaskView, ActionView),
    Done(Result<ReplyView, Failure>),
}

impl View for Action {
    type V = ActionView;

    open spec fn view(&self) -> ActionView {
        match self {
            Action::FindDataDir => ActionView::FindDataDir,
            Action::CreateDir { dir } => ActionView::CreateDir { dir: dir@ },
            Action::ProbeFile { path } => ActionView::ProbeFile { path: path@ },
            Action::ReadFile { path } => ActionView::ReadFile { path: path@ },
            Action::WriteFile { path, text } => ActionView::WriteFile { path: path@, text: text@ },
            Action::ReplaceFile { from, to } => ActionView::ReplaceFile { from: from@, to: to@ },
        }
    }
}

impl View for Event {
    type V = EventView;

    open spec fn view(&self) -> EventView {
        match self {
            Event::DataDir(Ok(dir)) => EventView::DataDir(Ok(dir@)),
            Event::DataDir(Err(cause)) => EventView::DataDir(Err(cause@)),
            Event::Completed(Ok(_)) => EventView::Completed(Ok(())),
            Event::Completed(Err(cause)) => EventView::Completed(Err(cause@)),
            Event::Found(found) => EventView::Found(*found),
            Event::Content(Ok(text)) => EventView::Content(Ok(text@)),
            Event::Content(Err(cause)) => EventView::Content(Err(cause@)),
        }
    }
}

impl View for Reply {
    type V = ReplyView;

    open spec fn view(&self) -> ReplyView {
        match self {
            Reply::Saved(path) => ReplyView::Saved(path@),
            Reply::Loaded(data) => ReplyView::Loaded(data@),
            Reply::Found(found) => ReplyView::Found(*found),
            Reply::Path(path) => ReplyView::Path(path@),
        }
    }
}

impl View for Goal {
    type V = GoalView;

    closed spec fn view(&self) -> GoalView {
        match self {
            Goal::Save(data) => GoalView::Save(data@),
            Goal::Load => GoalView::Load,
            Goal::Probe => GoalView::Probe,
            Goal::Locate => GoalView::Locate,
        }
    }
}

impl View for Task {
    type V = TaskView;

    closed spec fn view(&self) -> TaskView {
        match self.stage {
            Stage::FindingDir { goal } => TaskView::FindingDir { goal: goal@ },
            Stage::CreatingDir { goal, dir } => TaskView::CreatingDir { goal: goal@, dir: dir@ },
            Stage::Probing { load, path } => TaskView::Probing { load, path: path@ },
            Stage::Reading { path } => TaskView::Reading { path: path@ },
            Stage::Writing { path, temp } => TaskView::Writing { path: path@, temp: temp@ },
            Stage::Replacing { path } => TaskView::Replacing { path: path@ },
        }
    }
}

impl View for Step {
    type V = StepView;

    open spec fn view(&self) -> StepView {
        match self {
            Step::Ask(task, action) => StepView::Ask(task@, action@),
            Step::Done(Ok(reply)) => StepView::Done(Ok(reply@)),
            Step::Done(Err(error)) => StepView::Done(Err(error@)),
        }
    }
}

/// How every task begins: by asking for the data directory.
pub open spec fn begin(goal: GoalView) -> StepView {
    StepView::Ask(TaskView::FindingDir { goal }, ActionView::FindDataDir)
}

/// Whether the event answers the action that the task asked for.
pub open spec fn awaits(task: TaskView, event: EventView) -> bool {
    match task {
        TaskView::FindingDir { .. } => event is DataDir,
        TaskView::CreatingDir { .. } => event is Completed,
        TaskView::Probing { .. } => event is Found,
        TaskView::Reading { .. } => event is Content,
        TaskView::Writing { .. } => event is Completed,
        TaskView::Replacing { .. } => event is Completed,
    }
}

/// What a task does once the data directory exists and the path of the data
/// file is known.
pub open spec fn resolved(goal: GoalView, path: Seq<char>) -> StepView {
    match goal {
        GoalView::Locate => StepView::Done(Ok(ReplyView::Path(path))),
        GoalView::Probe => StepView::Ask(
            TaskView::Probing { load: false, path },
            ActionView::ProbeFile { path },
        ),
        GoalView::Load => StepView::Ask(
            TaskView::Probing { load: true, path },
            ActionView::ProbeFile { path },
        ),
        GoalView::Save(envelope) => match encoded(envelope) {
            Ok(text) => StepView::Ask(
                TaskView::Writing { path, temp: temp_file_path(path) },
                ActionView::WriteFile { path: temp_file_path(path), text },
            ),
            Err(failure) => StepView::Done(Err(failure)),
        },
    }
}

/// The decisions of the store: what follows when `task` learns of `event`.
///
/// Each operation first finds the data directory and has it created; a
/// failure of either is a failure of location. Then
/// - telling the path is done;
/// - probing asks whether the data file exists and replies with the answer;
/// - a load asks the same, fails with `NotFound` if it does not, reads it
///   otherwise, and replies with the envelope that the text holds;
/// - a save prints its envelope, has the text written beside the data file,
///   has that file put in the place of the data file, and replies with the
///   path of the data file.
/// Nothing is tried twice.
pub open spec fn next_step(task: TaskView, event: EventView) -> StepView {
    match task {
        TaskView::FindingDir { goal } => match event {
            EventView::DataDir(Ok(dir)) => StepView::Ask(
                TaskView::CreatingDir { goal, dir },
                ActionView::CreateDir { dir },
            ),
            EventView::DataDir(Err(cause)) => StepView::Done(
                Err(Failure::Location(FIND_DIR_FAILURE@ + cause)),
            ),
            _ => arbitrary(),
        },
        TaskView::CreatingDir { goal, dir } => match event {
            EventView::Completed(Ok(_)) => resolved(goal, data_file_path(dir)),
            EventView::Completed(Err(cause)) => StepView::Done(
                Err(Failure::Location(CREATE_DIR_FAILURE@ + cause)),
            ),
            _ => arbitrary(),
        },
        TaskView::Probing { load, path } => match event {
            EventView::Found(found) => if !load {
                StepView::Done(Ok(ReplyView::Found(found)))
            } else if !found {
                StepView::Done(Err(Failure::NotFound))
            } else {
                StepView::Ask(TaskView::Reading { path }, ActionView::ReadFile { path })
            },
            _ => arbitrary(),
        },
        TaskView::Reading { path } => match event {
            EventView::Content(Ok(text)) => match decoded(text) {
                Ok(envelope) => StepView::Done(Ok(ReplyView::Loaded(envelope))),
                Err(failure) => StepView::Done(Err(failure)),
            },
            EventView::Content(Err(cause)) => StepView::Done(
                Err(Failure::Io(READ_FAILURE@ + cause)),
            ),
            _ => arbitrary(),
        },
        TaskView::Writing { path, temp } => match event {
            EventView::Completed(Ok(_)) => StepView::Ask(
                TaskView::Replacing { path },
                ActionView::ReplaceFile { from: temp, to: path },
            ),
            EventView::Completed(Err(cause)) => StepView::Done(
                Err(Failure::Io(WRITE_FAILURE@ + cause)),
            ),
            _ => arbitrary(),
        },
        TaskView::Replacing { path } => match event {
            EventView::Completed(Ok(_)) => StepView::Done(Ok(ReplyView::Saved(path))),
            EventView::Completed(Err(cause)) => StepView::Done(
                Err(Failure::Io(WRITE_FAILURE@ + cause)),
            ),
            _ => arbitrary(),
        },
    }
}

fn start(goal: Goal) -> (step: Step)
    ensures
        step@ == begin(goal@),
{
    Step::Ask(Task { stage: Stage::FindingDir { goal } }, Action::FindDataDir)
}

/// Begins a save of the two payloads, stamped with the current format
/// version and the current time in UTC. Which time that is, the clock
/// decides.
pub fn save_data(subscriptions: serde_json::Value, settings: serde_json::Value) -> (step: Step)
    ensures
        step@ matches StepView::Ask(
            TaskView::FindingDir { goal: GoalView::Save(envelope) },
            ActionView::FindDataDir,
        ) && freshly_stamped(envelope, json_of(subscriptions), json_of(settings)),
{
    start(Goal::Save(AppData::stamped_now(subscriptions, settings)))
}

/// Begins a save of the two payloads, stamped with the current format
/// version and the given time of saving.
pub fn save_data_at(
    subscriptions: serde_json::Value,
    settings: serde_json::Value,
    saved_at: String,
) -> (step: Step)
    ensures
        step@ == begin(
            GoalView::Save(
                Envelope {
                    subscriptions: json_of(subscriptions),
                    settings: json_of(settings),
                    version: FORMAT_VERSION@,
                    last_saved: saved_at@,
                },
            ),
        ),
{
    start(Goal::Save(AppData::stamped(subscriptions, settings, saved_at)))
}

/// Begins a load of the envelope.
pub fn load_data() -> (step: Step)
    ensures
        step@ == begin(GoalView::Load),
{
    start(Goal::Load)
}

/// Begins the question whether there is a data file.
pub fn has_saved_data() -> (step: Step)
    ensures
        step@ == begin(GoalView::Probe),
{
    start(Goal::Probe)
}

/// Begins the question where the data file is.
pub fn get_data_path() -> (step: Step)
    ensures
        step@ == begin(GoalView::Locate),
{
    start(Goal::Locate)
}

fn resolve(goal: Goal, path: String) -> (step: Step)
    ensures
        step@ == resolved(goal@, path@),
{
    match goal {
        Goal::Locate => Step::Done(Ok(Reply::Path(path))),
        Goal::Probe => {
            let action = Action::ProbeFile { path: path.clone() };
            Step::Ask(Task { stage: Stage::Probing { load: false, path } }, action)
        },
        Goal::Load => {
            let action = Action::ProbeFile { path: path.clone() };
            Step::Ask(Task { stage: Stage::Probing { load: true, path } }, action)
        },
        Goal::Save(data) => match data.encode() {
            Ok(text) => {
                let temp = get_temp_file_path(path.as_str());
                let action = Action::WriteFile { path: temp.clone(), text };
                Step::Ask(Task { stage: Stage::Writing { path, temp } }, action)
            },
            Err(error) => Step::Done(Err(error)),
        },
    }
}

/// Decides what follows when `task` learns of `event`, the host's report of
/// the action that the task asked for. An event that answers another action
/// decides nothing: there is no step then.
pub fn advance(task: Task, event: Event) -> (step: Option<Step>)
    ensures
        match step {
            Some(step) => awaits(task@, event@) && step@ == next_step(task@, event@),
            None => !awaits(task@, event@),
        },
{
    match (task.stage, event) {
        (Stage::FindingDir { goal }, Event::DataDir(Ok(dir))) => {
            let action = Action::CreateDir { dir: dir.clone() };
            Some(Step::Ask(Task { stage: Stage::CreatingDir { goal, dir } }, action))
        },
        (Stage::FindingDir { .. }, Event::DataDir(Err(cause))) => Some(
            Step::Done(Err(StoreError::Location(explain(FIND_DIR_FAILURE, cause.as_str())))),
        ),
        (Stage::CreatingDir { goal, dir }, Event::Completed(Ok(_))) => Some(
            resolve(goal, get_data_file_path(dir.as_str())),
        ),
        (Stage::CreatingDir { .. }, Event::Completed(Err(cause))) => Some(
            Step::Done(Err(StoreError::Location(explain(CREATE_DIR_FAILURE, cause.as_str())))),
        ),
        (Stage::Probing { load, path }, Event::Found(found)) => if !load {
            Some(Step::Done(Ok(Reply::Found(found))))
        } else if !found {
            Some(Step::Done(Err(StoreError::NotFound)))
        } else {
            let action = Action::ReadFile { path: path.clone() };
            Some(Step::Ask(Task { stage: Stage::Reading { path } }, action))
        },
        (Stage::Reading { .. }, Event::Content(Ok(text))) => match AppData::decode(text.as_str()) {
            Ok(data) => Some(Step::Done(Ok(Reply::Loaded(data)))),
            Err(error) => Some(Step::Done(Err(error))),
        },
        (Stage::Reading { .. }, Event::Content(Err(cause))) => Some(
            Step::Done(Err(StoreError::Io(explain(READ_FAILURE, cause.as_str())))),
        ),
        (Stage::Writing { path, temp }, Event::Completed(Ok(_))) => {
            let action = Action::ReplaceFile { from: temp, to: path.clone() };
            Some(Step::Ask(Task { stage: Stage::Replacing { path } }, action))
        },
        (Stage::Writing { .. }, Event::Completed(Err(cause))) => Some(
            Step::Done(Err(StoreError::Io(explain(WRITE_FAILURE, cause.as_str())))),
        ),
        (Stage::Replacing { path }, Event::Completed(Ok(_))) => Some(
            Step::Done(Ok(Reply::Saved(path))),
        ),
        (Stage::Replacing { .. }, Event::Completed(Err(cause))) => Some(
            Step::Done(Err(StoreError::Io(explain(WRITE_FAILURE, cause.as_str())))),
        ),
        _ => None,
    }
}

} // verus!
