use vstd::prelude::*;

verus! {

/// A parsed command line.
#[derive(Debug, Clone, PartialEq, Eq)]
pub struct TasksArgs {
    pub command: Commands,
}

/// The commands, each with its own arguments.
#[derive(Debug, Clone, PartialEq, Eq)]
pub enum Commands {
    /// Creates a new task.
    Add(CreateTask),
    /// Deletes a task without completing it.
    Del(DeleteTask),
    /// Deletes all tasks.
    Clear,
    /// Shows one task, or all of them.
    Show(ShowTask),
    /// Marks a task as completed.
    Done(CompleteTask),
    /// Marks a task as active.
    Start(StartTask),
    /// Stops work on a task.
    Stop(StopTask),
    /// Returns a task to the inbox.
    Inbox(InboxTask),
    /// Edits a task in an editor.
    Edit(EditTask),
    /// Changes fields of a task.
    Modify(ModifyTask),
    /// Runs a git command in the repository.
    Git(GitExecute),
    /// Pulls from a git remote, then pushes to it.
    Sync(SyncTasks),
    /// Undoes a number of commits.
    Undo(UndoExecute),
}

#[derive(Debug, Clone, PartialEq, Eq)]
pub struct CreateTask {
    pub title: String,
    pub notes: Option<String>,
    /// Tags separated by commas.
    pub tags: Option<String>,
    /// Dates are written in words, such as "tomorrow at 5pm".
    pub when: Option<String>,
    pub deadline: Option<String>,
    pub reminder: Option<String>,
}

#[derive(Debug, Clone, Copy, PartialEq, Eq, Structural)]
pub struct DeleteTask {
    pub id: usize,
}

#[derive(Debug, Clone, Copy, PartialEq, Eq, Structural)]
pub struct ShowTask {
    /// The task to show; all of them when none is given.
    pub id: Option<usize>,
}

#[derive(Debug, Clone, Copy, PartialEq, Eq, Structural)]
pub struct CompleteTask {
    pub id: usize,
}

#[derive(Debug, Clone, Copy, PartialEq, Eq, Structural)]
pub struct StartTask {
    pub id: usize,
}

#[derive(Debug, Clone, Copy, PartialEq, Eq, Structural)]
pub struct StopTask {
    pub id: usize,
}

#[derive(Debug, Clone, Copy, PartialEq, Eq, Structural)]
pub struct InboxTask {
    pub id: usize,
}

#[derive(Debug, Clone, Copy, PartialEq, Eq, Structural)]
pub struct EditTask {
    pub id: usize,
}

#[derive(Debug, Clone, PartialEq, Eq)]
pub struct ModifyTask {
    pub id: usize,
    pub title: Option<String>,
    pub notes: Option<String>,
    /// Tags separated by commas; they replace the old ones.
    pub tags: Option<String>,
    pub when: Option<String>,
    pub deadline: Option<String>,
    pub reminder: Option<String>,
}

#[derive(Debug, Clone, PartialEq, Eq)]
pub struct GitExecute {
    /// The git command, its words separated by blanks.
    pub command: String,
}

#[derive(Debug, Clone, PartialEq, Eq)]
pub struct SyncTasks {
    /// The git remote to use.
    pub remote: String,
}

#[derive(Debug, Clone, PartialEq, Eq)]
pub struct UndoExecute {
    /// How many commits to undo.
    pub number: String,
}

} // verus!
