use vstd::prelude::*;

use crate::args::{
    Commands, CompleteTask, CreateTask, DeleteTask, GitExecute, InboxTask, ModifyTask, ShowTask,
    StartTask, StopTask, SyncTasks, TasksArgs,
};
use crate::cmds::{self, added, modified_read, one_of_dates, CommandError, Showing};
use crate::tasks::{
    returned_to_inbox, stopped, with_status, Status, Task, Tasks, TasksError, TasksView,
};

verus! {

/// What a command did, for the caller to report, or what it leaves to the
/// caller to run.
#[derive(Debug, Clone, PartialEq, Eq)]
pub enum Outcome {
    Created(usize),
    Modified(usize),
    /// The task that was deleted, and the id it had.
    Deleted(Task, usize),
    Cleared,
    Shown(Showing),
    Completed(usize),
    Started(usize),
    Stopped(usize),
    Inboxed(usize),
    /// Run this git command in the repository.
    Git(String),
    /// Synchronise the repository with this remote.
    Sync(String),
}

/// `r` and the store `after` are what `expected` says of the store `before`,
/// with `done` reported on success.
pub open spec fn reported(
    before: Tasks,
    after: Tasks,
    expected: Result<TasksView, TasksError>,
    r: Result<Outcome, CommandError>,
    done: Outcome,
) -> bool {
    match expected {
        Ok(v) => r == Ok::<Outcome, CommandError>(done) && after@ == v,
        Err(e) => r == Err::<Outcome, CommandError>(CommandError::Tasks(e)) && after == before,
    }
}

fn status_change(r: Result<(), TasksError>, done: Outcome) -> (o: Result<Outcome, CommandError>)
    ensures
        match r {
            Ok(_) => o == Ok::<Outcome, CommandError>(done),
            Err(e) => o == Err::<Outcome, CommandError>(CommandError::Tasks(e)),
        },
{
    match r {
        Ok(()) => Ok(done),
        Err(e) => Err(CommandError::Tasks(e)),
    }
}

/// Carries out one command on the store.
pub fn execute(tasks: &mut Tasks, arguments: TasksArgs) -> (r: Result<Outcome, CommandError>)
    ensures
        match arguments.command {
            Commands::Add(CreateTask { title, notes, tags, when, deadline, reminder }) => match r {
                Ok(o) => o matches Outcome::Created(id) && added(
                    *old(tasks),
                    *final(tasks),
                    id,
                    title,
                    notes,
                    tags,
                    when,
                    deadline,
                    reminder,
                ),
                Err(CommandError::Date(e)) => *final(tasks) == *old(tasks) && one_of_dates(
                    e,
                    when,
                    deadline,
                    reminder,
                ),
                Err(_) => false,
            },
            Commands::Modify(ModifyTask { id, title, notes, tags, when, deadline, reminder }) => match r {
                Ok(o) => o == Outcome::Modified(id) && modified_read(
                    *old(tasks),
                    *final(tasks),
                    id,
                    title,
                    notes,
                    tags,
                    when,
                    deadline,
                    reminder,
                ),
                Err(CommandError::Tasks(e)) => old(tasks)@.lookup(id) == Err::<Task, TasksError>(e)
                    && *final(tasks) == *old(tasks),
                Err(CommandError::Date(e)) => *final(tasks) == *old(tasks) && one_of_dates(
                    e,
                    when,
                    deadline,
                    reminder,
                ),
                Err(CommandError::Unsupported) => false,
            },
            Commands::Del(DeleteTask { id }) => match old(tasks)@.lookup(id) {
                Ok(t) => r == Ok::<Outcome, CommandError>(Outcome::Deleted(t, id)) && final(tasks)@
                    == old(tasks)@.with_tasks(old(tasks)@.tasks.remove(id as int)),
                Err(e) => r == Err::<Outcome, CommandError>(CommandError::Tasks(e))
                    && *final(tasks) == *old(tasks),
            },
            Commands::Clear => reported(
                *old(tasks),
                *final(tasks),
                old(tasks)@.cleared(),
                r,
                Outcome::Cleared,
            ),
            Commands::Show(ShowTask { id }) => *final(tasks) == *old(tasks) && match id {
                None => r == Ok::<Outcome, CommandError>(
                    Outcome::Shown(
                        if old(tasks)@.len() == 0 {
                            Showing::Nothing
                        } else {
                            Showing::All
                        },
                    ),
                ),
                Some(i) => match old(tasks)@.lookup(i) {
                    Ok(_) => r == Ok::<Outcome, CommandError>(Outcome::Shown(Showing::One(i))),
                    Err(e) => r == Err::<Outcome, CommandError>(CommandError::Tasks(e)),
                },
            },
            Commands::Done(CompleteTask { id }) => reported(
                *old(tasks),
                *final(tasks),
                old(tasks)@.edited(id, |t: Task| with_status(t, Status::Complete)),
                r,
                Outcome::Completed(id),
            ),
            Commands::Start(StartTask { id }) => reported(
                *old(tasks),
                *final(tasks),
                old(tasks)@.edited(id, |t: Task| with_status(t, Status::Active)),
                r,
                Outcome::Started(id),
            ),
            Commands::Stop(StopTask { id }) => reported(
                *old(tasks),
                *final(tasks),
                old(tasks)@.edited(id, |t: Task| stopped(t)),
                r,
                Outcome::Stopped(id),
            ),
            Commands::Inbox(InboxTask { id }) => reported(
                *old(tasks),
                *final(tasks),
                old(tasks)@.edited(id, |t: Task| returned_to_inbox(t)),
                r,
                Outcome::Inboxed(id),
            ),
            Commands::Git(GitExecute { command }) => r == Ok::<Outcome, CommandError>(
                Outcome::Git(command),
            ) && *final(tasks) == *old(tasks),
            Commands::Sync(SyncTasks { remote }) => r == Ok::<Outcome, CommandError>(
                Outcome::Sync(remote),
            ) && *final(tasks) == *old(tasks),
            Commands::Edit(_) | Commands::Undo(_) => r == Err::<Outcome, CommandError>(
                CommandError::Unsupported,
            ) && *final(tasks) == *old(tasks),
        },
{
    match arguments.command {
        Commands::Add(CreateTask { title, notes, tags, when, deadline, reminder }) => {
            match cmds::add(tasks, title, notes, tags, when, deadline, reminder) {
                Ok(id) => Ok(Outcome::Created(id)),
                Err(e) => Err(CommandError::Date(e)),
            }
        },
        Commands::Modify(ModifyTask { id, title, notes, tags, when, deadline, reminder }) => {
            match cmds::modify(tasks, id, title, notes, tags, when, deadline, reminder) {
                Ok(()) => Ok(Outcome::Modified(id)),
                Err(e) => Err(e),
            }
        },
        Commands::Del(DeleteTask { id }) => match cmds::delete(tasks, id) {
            Ok(t) => Ok(Outcome::Deleted(t, id)),
            Err(e) => Err(CommandError::Tasks(e)),
        },
        Commands::Clear => status_change(cmds::clear(tasks), Outcome::Cleared),
        Commands::Show(ShowTask { id }) => match cmds::show(tasks, id) {
            Ok(s) => Ok(Outcome::Shown(s)),
            Err(e) => Err(CommandError::Tasks(e)),
        },
        Commands::Done(CompleteTask { id }) => status_change(
            cmds::done(tasks, id),
            Outcome::Completed(id),
        ),
        Commands::Start(StartTask { id }) => status_change(
            cmds::start(tasks, id),
            Outcome::Started(id),
        ),
        Commands::Stop(StopTask { id }) => status_change(
            cmds::stop(tasks, id),
            Outcome::Stopped(id),
        ),
        Commands::Inbox(InboxTask { id }) => status_change(
            cmds::inbox(tasks, id),
            Outcome::Inboxed(id),
        ),
        Commands::Git(GitExecute { command }) => Ok(Outcome::Git(command)),
        Commands::Sync(SyncTasks { remote }) => Ok(Outcome::Sync(remote)),
        Commands::Edit(_) | Commands::Undo(_) => Err(CommandError::Unsupported),
    }
}

} // verus!
