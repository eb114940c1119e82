//! What holds of the store, whatever host it runs on.
//!
//! Each law follows tasks over the mathematical host: a host that does as it
//! is asked unless it refuses, and that may be interrupted.

use crate::envelope::{
    decoded, encoded, envelope_json, envelope_of, lemma_field_names_differ, Envelope,
    LAST_SAVED_FIELD, SETTINGS_FIELD, SUBSCRIPTIONS_FIELD, VERSION_FIELD,
};
use crate::failure::{ErrorKind, Failure};
use crate::host::{
    answer, data_file, lets_locate, lets_read, perform, run, same_character, same_other_files,
    whole, willing, Host,
};
use crate::json::{parsed, printed, Json};
use crate::location::{data_file_path, lemma_temp_file_is_another, temp_file_path};
use crate::store::{
    awaits, begin, next_step, EventView, GoalView, ReplyView, StepView, TaskView,
};
use vstd::prelude::*;

verus! {

/// What a load ends with where the host lets the data file be read.
pub open spec fn load_of(file: Option<Seq<char>>) -> Result<ReplyView, Failure> {
    match file {
        None => Err(Failure::NotFound),
        Some(text) => match decoded(text) {
            Ok(envelope) => Ok(ReplyView::Loaded(envelope)),
            Err(failure) => Err(failure),
        },
    }
}

/// Whether `serde_json` reads back, from the text that it printed for an
/// envelope, the JSON object that it printed.
pub open spec fn reads_back(envelope: Envelope) -> bool {
    match printed(envelope_json(envelope)) {
        Ok(text) => parsed(text) == Ok::<Json, Seq<char>>(envelope_json(envelope)),
        Err(_) => false,
    }
}

/// The most actions that a task may still ask for once its host has
/// answered the one that it waits for.
pub open spec fn actions_left(task: TaskView) -> nat {
    match task {
        TaskView::FindingDir { .. } => 3,
        TaskView::CreatingDir { .. } => 2,
        TaskView::Probing { .. } => 1,
        TaskView::Reading { .. } => 0,
        TaskView::Writing { .. } => 1,
        TaskView::Replacing { .. } => 0,
    }
}

/// Whatever the host answers, a task that goes on has fewer actions left
/// than before: no action is asked for twice, and no failure is tried again.
pub proof fn law_each_answer_nears_the_end(task: TaskView, event: EventView)
    requires
        awaits(task, event),
    ensures
        next_step(task, event) matches StepView::Ask(next, _) ==> actions_left(next)
            < actions_left(task),
{
}

/// Every operation is over after four actions at most, on every host:
/// nothing is tried twice.
pub proof fn law_every_task_ends(host: Host, goal: GoalView)
    ensures
        perform(host, goal).1 is Done,
{
    reveal_with_fuel(run, 5);
}

/// No task changes what the host names, refuses or tears.
pub proof fn law_tasks_change_files_only(host: Host, step: StepView, actions: nat)
    ensures
        same_character(run(host, step, actions).0, host),
    decreases actions,
{
    match step {
        StepView::Done(_) => {},
        StepView::Ask(task, action) => {
            if actions > 0 {
                let (next_host, event) = answer(host, action);
                law_tasks_change_files_only(next_host, next_step(task, event), (actions - 1) as nat);
            }
        },
    }
}

/// Telling the path, probing and loading leave every file of the host as
/// it was.
pub proof fn law_readers_change_nothing(host: Host, goal: GoalView)
    requires
        !(goal is Save),
    ensures
        perform(host, goal).0 == host,
{
    reveal_with_fuel(run, 5);
}

/// Telling the path and probing fail only when the data directory cannot be
/// found or created.
pub proof fn law_path_and_probe_fail_by_location_only(host: Host, goal: GoalView)
    requires
        goal is Locate || goal is Probe,
    ensures
        perform(host, goal).1 matches StepView::Done(Err(failure)) ==> failure.kind()
            == ErrorKind::Location,
{
    reveal_with_fuel(run, 5);
}

/// A load fails by location, because there is no file, because the file
/// cannot be read, or because its text is no envelope; never otherwise.
pub proof fn law_load_failures(host: Host)
    ensures
        perform(host, GoalView::Load).1 matches StepView::Done(Err(failure)) ==> {
            ||| failure.kind() == ErrorKind::Location
            ||| failure.kind() == ErrorKind::NotFound
            ||| failure.kind() == ErrorKind::Io
            ||| failure.kind() == ErrorKind::Deserialization
        },
{
    reveal_with_fuel(run, 5);
}

/// A save fails by location, because its envelope cannot be printed, or
/// because a file cannot be written; never otherwise.
pub proof fn law_save_failures(host: Host, envelope: Envelope)
    ensures
        perform(host, GoalView::Save(envelope)).1 matches StepView::Done(Err(failure)) ==> {
            ||| failure.kind() == ErrorKind::Location
            ||| failure.kind() == ErrorKind::Serialization
            ||| failure.kind() == ErrorKind::Io
        },
{
    reveal_with_fuel(run, 5);
}

/// On every host, a save either succeeds, and the data file then holds the
/// printed envelope, whatever it held before; or it fails, and the data file
/// is as it was.
pub proof fn law_save_is_all_or_nothing(host: Host, envelope: Envelope)
    ensures
        ({
            let (after, step) = perform(host, GoalView::Save(envelope));
            match step {
                StepView::Done(Ok(reply)) => {
                    &&& reply == ReplyView::Saved(data_file_path(host.data_dir))
                    &&& data_file(after).is_some()
                    &&& encoded(envelope) == Ok::<Seq<char>, Failure>(data_file(after).unwrap())
                },
                _ => data_file(after) == data_file(host),
            }
        }),
{
    reveal_with_fuel(run, 5);
    lemma_temp_file_is_another(data_file_path(host.data_dir));
}

/// On a willing host, a save fails only if its envelope cannot be printed,
/// and then it changes nothing.
pub proof fn law_save_succeeds_on_a_willing_host(host: Host, envelope: Envelope)
    requires
        willing(host),
    ensures
        match encoded(envelope) {
            Ok(text) => perform(host, GoalView::Save(envelope)).1 == StepView::Done(
                Ok(ReplyView::Saved(data_file_path(host.data_dir))),
            ),
            Err(failure) => perform(host, GoalView::Save(envelope)) == (
                host,
                StepView::Done(Err(failure)),
            ),
        },
{
    reveal_with_fuel(run, 5);
}

/// Until its last action, a save leaves the data file as it was, on every
/// host: it has written to the sibling only.
pub proof fn law_unfinished_save_keeps_the_data_file(host: Host, envelope: Envelope, actions: nat)
    requires
        actions < whole(),
    ensures
        data_file(run(host, begin(GoalView::Save(envelope)), actions).0) == data_file(host),
{
    reveal_with_fuel(run, 5);
    lemma_temp_file_is_another(data_file_path(host.data_dir));
}

/// There is one data file: no task, finished or not, touches a file other
/// than the data file in the host's data directory and its sibling.
pub proof fn law_other_files_are_left_alone(host: Host, goal: GoalView, actions: nat)
    ensures
        same_other_files(host, run(host, begin(goal), actions).0),
{
    reveal_with_fuel(run, 5);
    if actions > 4 {
        lemma_run_stops_at_the_end(host, begin(goal), actions);
    }
}

proof fn lemma_run_stops_at_the_end(host: Host, step: StepView, actions: nat)
    requires
        actions >= whole(),
        run(host, step, whole()).1 is Done,
    ensures
        run(host, step, actions) == run(host, step, whole()),
{
    reveal_with_fuel(run, 5);
    lemma_run_of_the_done(host, step, 4, (actions - 4) as nat);
}

proof fn lemma_run_of_the_done(host: Host, step: StepView, first: nat, more: nat)
    requires
        run(host, step, first).1 is Done,
    ensures
        run(host, step, first + more) == run(host, step, first),
    decreases first,
{
    match step {
        StepView::Done(_) => {},
        StepView::Ask(task, action) => {
            if first > 0 {
                let (next_host, event) = answer(host, action);
                lemma_run_of_the_done(next_host, next_step(task, event), (first - 1) as nat, more);
            }
        },
    }
}

/// What a load ends with depends on the data file and on what the host
/// refuses, and on no other file.
pub proof fn law_load_reads_no_other_file(one: Host, other: Host)
    requires
        same_character(one, other),
        data_file(one) == data_file(other),
    ensures
        perform(one, GoalView::Load).1 == perform(other, GoalView::Load).1,
{
    reveal_with_fuel(run, 5);
}

/// After a save that was interrupted before its last action, and whatever
/// the interruption left in the sibling file, a load ends as it would have
/// ended before the save. No part of the new envelope is ever read.
pub proof fn law_interrupted_save(host: Host, envelope: Envelope, actions: nat, left: Seq<char>)
    requires
        actions < whole(),
    ensures
        ({
            let stopped = run(host, begin(GoalView::Save(envelope)), actions).0;
            let sibling = temp_file_path(data_file_path(host.data_dir));
            let littered = Host { files: stopped.files.insert(sibling, left), ..stopped };
            &&& perform(stopped, GoalView::Load).1 == perform(host, GoalView::Load).1
            &&& perform(littered, GoalView::Load).1 == perform(host, GoalView::Load).1
        }),
{
    let stopped = run(host, begin(GoalView::Save(envelope)), actions).0;
    let sibling = temp_file_path(data_file_path(host.data_dir));
    let littered = Host { files: stopped.files.insert(sibling, left), ..stopped };
    law_unfinished_save_keeps_the_data_file(host, envelope, actions);
    lemma_temp_file_is_another(data_file_path(host.data_dir));
    law_tasks_change_files_only(host, begin(GoalView::Save(envelope)), actions);
    law_load_reads_no_other_file(stopped, host);
    law_load_reads_no_other_file(littered, host);
}

/// Where the host lets the data file be read, what a load ends with depends
/// on the data file alone: `NotFound` where there is none, else the envelope
/// that its text holds, or the failure to find one in it.
pub proof fn law_load_reads_the_data_file(host: Host)
    requires
        lets_read(host),
    ensures
        perform(host, GoalView::Load).1 == StepView::Done(load_of(data_file(host))),
{
    reveal_with_fuel(run, 5);
}

/// Where the host lets the data file be found, probing tells whether there
/// is one, whatever it holds.
pub proof fn law_probe_finds_the_data_file(host: Host)
    requires
        lets_read(host),
    ensures
        perform(host, GoalView::Probe).1 == StepView::Done(
            Ok(ReplyView::Found(data_file(host).is_some())),
        ),
{
    reveal_with_fuel(run, 5);
}

/// Where the host names its data directory and lets it be created, telling
/// the path replies with the path of the data file in that directory.
pub proof fn law_locate_names_the_data_file(host: Host)
    requires
        lets_locate(host),
    ensures
        perform(host, GoalView::Locate).1 == StepView::Done(
            Ok(ReplyView::Path(data_file_path(host.data_dir))),
        ),
{
    reveal_with_fuel(run, 5);
}

/// Where no data file was ever written, probing says so, and a load fails
/// with `NotFound`, not as it does on a file that holds no envelope.
pub proof fn law_absent_file(host: Host)
    requires
        lets_read(host),
        data_file(host).is_none(),
    ensures
        perform(host, GoalView::Probe) == (host, StepView::Done(Ok(ReplyView::Found(false)))),
        perform(host, GoalView::Load) == (host, StepView::Done(Err(Failure::NotFound))),
{
    law_probe_finds_the_data_file(host);
    law_load_reads_the_data_file(host);
    law_readers_change_nothing(host, GoalView::Probe);
    law_readers_change_nothing(host, GoalView::Load);
}

/// A text holds no envelope only for reasons of its content: the failure is
/// always one of deserialization.
pub proof fn law_decoding_fails_as_deserialization(text: Seq<char>)
    ensures
        decoded(text) matches Err(failure) ==> failure.kind() == ErrorKind::Deserialization,
{
}

/// Where the data file holds a text that is no envelope, a load fails with
/// a failure of deserialization, probing still finds the file, and neither
/// touches it.
pub proof fn law_corrupt_file(host: Host, text: Seq<char>)
    requires
        lets_read(host),
        data_file(host) == Some(text),
        decoded(text).is_err(),
    ensures
        perform(host, GoalView::Probe) == (host, StepView::Done(Ok(ReplyView::Found(true)))),
        perform(host, GoalView::Load).0 == host,
        perform(host, GoalView::Load).1 matches StepView::Done(Err(failure)) && failure.kind()
            == ErrorKind::Deserialization,
{
    law_probe_finds_the_data_file(host);
    law_load_reads_the_data_file(host);
    law_readers_change_nothing(host, GoalView::Probe);
    law_readers_change_nothing(host, GoalView::Load);
    law_decoding_fails_as_deserialization(text);
}

/// A text whose JSON is an object with both payloads and without version
/// and time of saving is an envelope, and those two are then empty.
pub proof fn law_missing_metadata_is_empty(text: Seq<char>, fields: Map<Seq<char>, Json>)
    requires
        parsed(text) == Ok::<Json, Seq<char>>(Json::Object(fields)),
        fields.contains_key(SUBSCRIPTIONS_FIELD@),
        fields.contains_key(SETTINGS_FIELD@),
        !fields.contains_key(VERSION_FIELD@),
        !fields.contains_key(LAST_SAVED_FIELD@),
    ensures
        decoded(text) == Ok::<Envelope, Failure>(
            Envelope {
                subscriptions: fields[SUBSCRIPTIONS_FIELD@],
                settings: fields[SETTINGS_FIELD@],
                version: Seq::empty(),
                last_saved: Seq::empty(),
            },
        ),
{
}

/// An envelope is found again in the JSON object that it is written as.
pub proof fn law_envelope_json_holds_the_envelope(envelope: Envelope)
    ensures
        envelope_of(envelope_json(envelope)) == Ok::<Envelope, Failure>(envelope),
{
    lemma_field_names_differ();
}

/// A load right after a save that succeeded returns the envelope that was
/// saved, payloads and metadata, whatever the host held before. This is
/// stated of the hosts that let the data file be read, and of the envelopes
/// that `serde_json` reads back as it printed them.
pub proof fn law_load_after_save(host: Host, envelope: Envelope)
    requires
        lets_read(host),
        reads_back(envelope),
        perform(host, GoalView::Save(envelope)).1 matches StepView::Done(Ok(_)),
    ensures
        perform(perform(host, GoalView::Save(envelope)).0, GoalView::Load).1 == StepView::Done(
            Ok(ReplyView::Loaded(envelope)),
        ),
{
    let after = perform(host, GoalView::Save(envelope)).0;
    law_save_is_all_or_nothing(host, envelope);
    law_tasks_change_files_only(host, begin(GoalView::Save(envelope)), whole());
    law_load_reads_the_data_file(after);
    law_envelope_json_holds_the_envelope(envelope);
}

/// On a willing host, an envelope that `serde_json` reads back as it printed
/// it is saved, and a load right after returns it.
pub proof fn law_save_then_load_on_a_willing_host(host: Host, envelope: Envelope)
    requires
        willing(host),
        reads_back(envelope),
    ensures
        perform(host, GoalView::Save(envelope)).1 == StepView::Done(
            Ok(ReplyView::Saved(data_file_path(host.data_dir))),
        ),
        perform(perform(host, GoalView::Save(envelope)).0, GoalView::Load).1 == StepView::Done(
            Ok(ReplyView::Loaded(envelope)),
        ),
{
    law_save_succeeds_on_a_willing_host(host, envelope);
    law_load_after_save(host, envelope);
}

/// Of two saves of the same payloads, made one after the other at different
/// times, each is followed by a load of those payloads: the second save
/// changes the time of saving and nothing else.
pub proof fn law_second_save_keeps_payloads(host: Host, first: Envelope, second: Envelope)
    requires
        willing(host),
        second.subscriptions == first.subscriptions,
        second.settings == first.settings,
        reads_back(first),
        reads_back(second),
    ensures
        ({
            let once = perform(host, GoalView::Save(first)).0;
            let twice = perform(once, GoalView::Save(second)).0;
            &&& perform(once, GoalView::Load).1 == StepView::Done(Ok(ReplyView::Loaded(first)))
            &&& perform(twice, GoalView::Load).1 == StepView::Done(
                Ok(
                    ReplyView::Loaded(
                        Envelope {
                            subscriptions: first.subscriptions,
                            settings: first.settings,
                            version: second.version,
                            last_saved: second.last_saved,
                        },
                    ),
                ),
            )
        }),
{
    let once = perform(host, GoalView::Save(first)).0;
    law_tasks_change_files_only(host, begin(GoalView::Save(first)), whole());
    law_save_then_load_on_a_willing_host(host, first);
    law_save_then_load_on_a_willing_host(once, second);
}

} // verus!
