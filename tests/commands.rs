use inertia::args::{
    Commands, CompleteTask, CreateTask, DeleteTask, EditTask, GitExecute, InboxTask, ModifyTask,
    ShowTask, StartTask, StopTask, SyncTasks, TasksArgs, UndoExecute,
};
use inertia::cli::{execute, Outcome};
use inertia::cmds::{self, parse_tags, CommandError, Showing};
use inertia::dates::parse_fuzzy_date;
use inertia::tasks::{Status, Task, Tasks, TasksError, Timestamp};

fn store_of(titles: &[&str]) -> Tasks {
    let mut s = Tasks::new("/repo", "tasks.toml");
    for t in titles {
        s.push(Task::new(String::from(*t), None, None, None, None, None));
    }
    s
}

fn run(s: &mut Tasks, command: Commands) -> Result<Outcome, CommandError> {
    execute(s, TasksArgs { command })
}

#[test]
fn tags_split_at_commas_keeping_empty_and_repeated() {
    assert_eq!(parse_tags(None), None);
    assert_eq!(
        parse_tags(Some(String::from("a,b,,a"))),
        Some(vec![
            String::from("a"),
            String::from("b"),
            String::from(""),
            String::from("a")
        ])
    );
    assert_eq!(parse_tags(Some(String::from(""))), Some(vec![String::from("")]));
    assert_eq!(
        parse_tags(Some(String::from(" x ,y,"))),
        Some(vec![String::from(" x "), String::from("y"), String::from("")])
    );
}

#[test]
fn add_without_dates_appends_inbox_task() {
    let mut s = store_of(&["first"]);
    let id = cmds::add(
        &mut s,
        String::from("second"),
        Some(String::from("n")),
        Some(String::from("home,work")),
        None,
        None,
        None,
    );
    assert_eq!(id, Ok(1));
    let t = s.task(1).unwrap();
    assert_eq!(t.title, "second");
    assert_eq!(t.status, Status::Inbox);
    assert_eq!(t.tags, Some(vec![String::from("home"), String::from("work")]));
    assert_eq!(t.notes, Some(String::from("n")));
}

#[test]
fn add_with_unreadable_date_changes_nothing() {
    let mut s = store_of(&["first"]);
    let r = cmds::add(
        &mut s,
        String::from("x"),
        None,
        None,
        Some(String::from("qwxz zzqq")),
        None,
        None,
    );
    assert_eq!(r.unwrap_err().text, "qwxz zzqq");
    assert_eq!(s.len(), 1);
}

#[test]
fn add_with_readable_date_is_pending() {
    let mut s = store_of(&[]);
    let r = cmds::add(
        &mut s,
        String::from("x"),
        None,
        None,
        Some(String::from("tomorrow")),
        None,
        None,
    );
    assert_eq!(r, Ok(0));
    let t = s.task(0).unwrap();
    assert_eq!(t.status, Status::Pending);
    let w = t.when.unwrap();
    assert!(w.second < 86400);
}

#[test]
fn parse_fuzzy_date_none_and_error() {
    assert_eq!(parse_fuzzy_date(None), Ok(None));
    assert_eq!(parse_fuzzy_date(Some(String::from("notadate at at"))).unwrap_err().text, "notadate at at");
    // Read "today" on both sides of "tomorrow", so that a midnight in
    // between shows up and the check is only made when none passed.
    loop {
        let a = parse_fuzzy_date(Some(String::from("today"))).unwrap().unwrap();
        let b = parse_fuzzy_date(Some(String::from("tomorrow"))).unwrap().unwrap();
        let c = parse_fuzzy_date(Some(String::from("today"))).unwrap().unwrap();
        if a.day == c.day {
            assert_eq!(b.day, a.day + 1);
            break;
        }
    }
}

#[test]
fn add_task_with_given_dates() {
    let mut s = store_of(&["a"]);
    let when = Timestamp { day: 738000, second: 3600, nano: 0 };
    let id = cmds::add_task(&mut s, String::from("b"), None, Some(String::from("t")), Some(when), None, None);
    assert_eq!(id, 1);
    assert_eq!(s.task(1).unwrap().when, Some(when));
    assert_eq!(s.task(1).unwrap().status, Status::Pending);
}

#[test]
fn modify_task_replaces_tags_and_promotes() {
    let mut s = store_of(&["a"]);
    let when = Timestamp { day: 738001, second: 0, nano: 0 };
    let r = cmds::modify_task(&mut s, 0, Some(String::from("A")), None, Some(String::from("p,q")), Some(when), None, None);
    assert_eq!(r, Ok(()));
    let t = s.task(0).unwrap();
    assert_eq!(t.title, "A");
    assert_eq!(t.status, Status::Pending);
    assert_eq!(t.tags, Some(vec![String::from("p"), String::from("q")]));
}

#[test]
fn modify_errors() {
    let mut empty = store_of(&[]);
    assert_eq!(
        cmds::modify(&mut empty, 0, Some(String::from("t")), None, None, None, None, None),
        Err(CommandError::Tasks(TasksError::no_tasks()))
    );
    let mut s = store_of(&["a"]);
    assert_eq!(
        cmds::modify(&mut s, 3, None, None, None, None, None, None),
        Err(CommandError::Tasks(TasksError::no_task(3)))
    );
    let r = cmds::modify(&mut s, 0, None, None, None, None, Some(String::from("zzqq qqzz")), None);
    assert!(matches!(r, Err(CommandError::Date(_))));
    assert_eq!(s.task(0).unwrap().title, "a");
}

#[test]
fn delete_returns_the_task() {
    let mut s = store_of(&["a", "b", "c"]);
    let t = cmds::delete(&mut s, 1).unwrap();
    assert_eq!(t.title, "b");
    assert_eq!(s.len(), 2);
    assert_eq!(s.task(1).unwrap().title, "c");
    assert_eq!(cmds::delete(&mut s, 2), Err(TasksError::no_task(2)));
    let mut empty = store_of(&[]);
    assert_eq!(cmds::delete(&mut empty, 0), Err(TasksError::no_tasks()));
}

#[test]
fn status_commands() {
    let mut s = store_of(&["a"]);
    assert_eq!(cmds::start(&mut s, 0), Ok(()));
    assert_eq!(s.task(0).unwrap().status, Status::Active);
    assert_eq!(cmds::done(&mut s, 0), Ok(()));
    assert_eq!(s.task(0).unwrap().status, Status::Complete);
    assert_eq!(cmds::stop(&mut s, 0), Ok(()));
    assert_eq!(s.task(0).unwrap().status, Status::Inbox);
    assert_eq!(cmds::inbox(&mut s, 0), Ok(()));
    assert_eq!(cmds::start(&mut s, 1), Err(TasksError::no_task(1)));
    assert_eq!(cmds::clear(&mut s), Ok(()));
    assert_eq!(cmds::stop(&mut s, 0), Err(TasksError::no_tasks()));
    assert_eq!(cmds::clear(&mut s), Err(TasksError::no_tasks()));
}

#[test]
fn show_picks_what_to_display() {
    let empty = store_of(&[]);
    assert_eq!(cmds::show(&empty, None), Ok(Showing::Nothing));
    assert_eq!(cmds::show(&empty, Some(0)), Err(TasksError::no_tasks()));
    let s = store_of(&["a", "b"]);
    assert_eq!(cmds::show(&s, None), Ok(Showing::All));
    assert_eq!(cmds::show(&s, Some(1)), Ok(Showing::One(1)));
    assert_eq!(cmds::show(&s, Some(2)), Err(TasksError::no_task(2)));
}

#[test]
fn execute_dispatches_each_command() {
    let mut s = store_of(&[]);
    let created = run(
        &mut s,
        Commands::Add(CreateTask {
            title: String::from("a"),
            notes: None,
            tags: None,
            when: None,
            deadline: None,
            reminder: None,
        }),
    );
    assert_eq!(created, Ok(Outcome::Created(0)));
    assert_eq!(run(&mut s, Commands::Start(StartTask { id: 0 })), Ok(Outcome::Started(0)));
    assert_eq!(run(&mut s, Commands::Stop(StopTask { id: 0 })), Ok(Outcome::Stopped(0)));
    assert_eq!(run(&mut s, Commands::Done(CompleteTask { id: 0 })), Ok(Outcome::Completed(0)));
    assert_eq!(s.task(0).unwrap().status, Status::Complete);
    assert_eq!(run(&mut s, Commands::Inbox(InboxTask { id: 0 })), Ok(Outcome::Inboxed(0)));
    assert_eq!(s.task(0).unwrap().status, Status::Inbox);
    let modified = run(
        &mut s,
        Commands::Modify(ModifyTask {
            id: 0,
            title: Some(String::from("b")),
            notes: None,
            tags: None,
            when: None,
            deadline: None,
            reminder: None,
        }),
    );
    assert_eq!(modified, Ok(Outcome::Modified(0)));
    assert_eq!(run(&mut s, Commands::Show(ShowTask { id: None })), Ok(Outcome::Shown(Showing::All)));
    assert_eq!(
        run(&mut s, Commands::Git(GitExecute { command: String::from("log") })),
        Ok(Outcome::Git(String::from("log")))
    );
    assert_eq!(
        run(&mut s, Commands::Sync(SyncTasks { remote: String::from("origin") })),
        Ok(Outcome::Sync(String::from("origin")))
    );
    assert_eq!(run(&mut s, Commands::Edit(EditTask { id: 0 })), Err(CommandError::Unsupported));
    assert_eq!(
        run(&mut s, Commands::Undo(UndoExecute { number: String::from("1") })),
        Err(CommandError::Unsupported)
    );
    let deleted = run(&mut s, Commands::Del(DeleteTask { id: 0 }));
    let mut expected = Task::new(String::from("b"), None, None, None, None, None);
    expected.inbox();
    assert_eq!(deleted, Ok(Outcome::Deleted(expected, 0)));
    assert_eq!(run(&mut s, Commands::Clear), Err(CommandError::Tasks(TasksError::no_tasks())));
    assert_eq!(
        run(&mut s, Commands::Del(DeleteTask { id: 0 })),
        Err(CommandError::Tasks(TasksError::no_tasks()))
    );
}
