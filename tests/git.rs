use inertia::git::{command_words, git_args, git_report, sync, sync_command, SyncStep};
use inertia::repo;

fn strings(v: &[&str]) -> Vec<String> {
    v.iter().map(|s| String::from(*s)).collect()
}

#[test]
fn command_words_split_at_blanks() {
    assert_eq!(command_words("add --all"), strings(&["add", "--all"]));
    assert_eq!(command_words("  log\t--oneline \n"), strings(&["log", "--oneline"]));
    assert_eq!(command_words(""), Vec::<String>::new());
    assert_eq!(command_words("   "), Vec::<String>::new());
    assert_eq!(command_words("status"), strings(&["status"]));
}

#[test]
fn git_args_scope_the_repository() {
    assert_eq!(
        git_args("/home/u/.local/share/inertia", "pull --ff origin"),
        strings(&["-C", "/home/u/.local/share/inertia", "pull", "--ff", "origin"])
    );
    assert_eq!(git_args("/r", ""), strings(&["-C", "/r"]));
}

#[test]
fn git_report_shows_nonempty_streams() {
    let r = git_report("Already up to date.\n", "");
    assert_eq!(r.info, Some(String::from("Already up to date.")));
    assert_eq!(r.error, None);
    let r = git_report("", "fatal: no remote\n");
    assert_eq!(r.info, None);
    assert_eq!(r.error, Some(String::from("fatal: no remote\n")));
    let r = git_report("a\n\n", "");
    assert_eq!(r.info, Some(String::from("a\n")));
    let r = git_report("", "");
    assert!(r.info.is_none() && r.error.is_none());
}

#[test]
fn sync_pulls_then_pushes() {
    assert_eq!(
        sync_command(SyncStep::Pull, "origin"),
        Some(String::from("pull --ff --no-rebase --no-edit --commit origin"))
    );
    assert_eq!(sync_command(SyncStep::Push, "up"), Some(String::from("push up")));
    assert_eq!(sync_command(SyncStep::Done, "up"), None);
    assert_eq!(sync_command(SyncStep::Failed, "up"), None);
    assert_eq!(sync(SyncStep::Pull, true), SyncStep::Push);
    assert_eq!(sync(SyncStep::Push, true), SyncStep::Done);
    assert_eq!(sync(SyncStep::Pull, false), SyncStep::Failed);
    assert_eq!(sync(SyncStep::Push, false), SyncStep::Failed);
    assert_eq!(sync(SyncStep::Done, false), SyncStep::Done);
    assert_eq!(repo::sync(SyncStep::Failed, true), SyncStep::Failed);
}
