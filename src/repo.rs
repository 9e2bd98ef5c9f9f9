use vstd::prelude::*;

use crate::tasks::{Tasks, TasksView, Task};

pub use crate::git::sync;

verus! {

/// The name of the tasks file inside a repository.
pub const TASKS_FILE: &'static str = "tasks.toml";

/// Where the repository lies under a home directory.
pub const REPO_UNDER_HOME: &'static str = "/.local/share/inertia";

/// Relies on dirs::home_dir: the current user's home directory, if one is
/// known; a path that is not valid UTF-8 counts as none.
#[verifier::external_body]
fn home_directory() -> (r: Option<String>) {
    dirs::home_dir().and_then(|p| p.to_str().map(String::from))
}

/// `dir` and `file` joined by a slash.
pub open spec fn joined(dir: Seq<char>, file: Seq<char>) -> Seq<char> {
    dir + "/"@ + file
}

pub fn join_path(dir: &str, file: &str) -> (r: String)
    ensures
        r@ == joined(dir@, file@),
{
    let mut r = String::from_str(dir);
    r.append("/");
    r.append(file);
    r
}

/// The repository directory under the home directory `home`.
pub fn repo_dir_under(home: &str) -> (r: String)
    ensures
        r@ == home@ + REPO_UNDER_HOME@,
{
    let mut r = String::from_str(home);
    r.append(REPO_UNDER_HOME);
    r
}

/// The repository directory of the current user; none when the home
/// directory is unknown.
pub fn tasks_repo_string() -> (r: Option<String>)
    ensures
        r matches Some(p) ==> exists|home: Seq<char>| p@ == home + REPO_UNDER_HOME@,
{
    match home_directory() {
        Some(home) => Some(repo_dir_under(home.as_str())),
        None => None,
    }
}

/// The tasks file of the current user's repository; none when the home
/// directory is unknown.
pub fn tasks_file_path() -> (r: Option<String>)
    ensures
        r matches Some(p) ==> exists|home: Seq<char>|
            p@ == joined(home + REPO_UNDER_HOME@, TASKS_FILE@),
{
    match tasks_repo_string() {
        Some(repo) => Some(join_path(repo.as_str(), TASKS_FILE)),
        None => None,
    }
}

/// One step in setting up a repository.
pub enum RepoAction {
    /// Create this directory and its missing parents.
    CreateDirectory(String),
    /// Write this store to this file.
    Save(String, Tasks),
    /// Run this git command in the repository.
    Git(String),
}

/// What has to be done so that a repository exists at `path` with its tasks
/// file `tasks_file`: nothing when it is `present`; else create the
/// directory, save an empty store there, start tracking it with git and
/// stage the file.
pub fn ensure_repo(present: bool, path: &str, tasks_file: &str) -> (r: Vec<RepoAction>)
    ensures
        present ==> r@.len() == 0,
        !present ==> {
            &&& r@.len() == 4
            &&& r@[0] matches RepoAction::CreateDirectory(d) && d@ == path@
            &&& r@[1] matches RepoAction::Save(f, t) && f@ == joined(path@, tasks_file@)
                && t@ == (TasksView { path: path@, file: tasks_file@, tasks: Seq::<Task>::empty() })
            &&& r@[2] matches RepoAction::Git(c) && c@ == "init"@
            &&& r@[3] matches RepoAction::Git(c) && c@ == "add --all"@
        },
{
    let mut plan: Vec<RepoAction> = Vec::new();
    if !present {
        plan.push(RepoAction::CreateDirectory(String::from_str(path)));
        plan.push(RepoAction::Save(join_path(path, tasks_file), Tasks::new(path, tasks_file)));
        plan.push(RepoAction::Git(String::from_str("init")));
        plan.push(RepoAction::Git(String::from_str("add --all")));
    }
    plan
}

} // verus!
