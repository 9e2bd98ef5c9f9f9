use inertia::tasks::{ErrorKind, Status, Task, Tasks, TasksError, Timestamp};

fn day(d: i32) -> Timestamp {
    Timestamp { day: d, second: 0, nano: 0 }
}

fn plain(title: &str) -> Task {
    Task::new(String::from(title), None, None, None, None, None)
}

fn store_of(titles: &[&str]) -> Tasks {
    let mut s = Tasks::new("/repo", "tasks.toml");
    for t in titles {
        s.push(plain(t));
    }
    s
}

#[test]
fn new_store_is_empty() {
    let s = Tasks::new("/repo", "tasks.toml");
    assert!(s.is_empty());
    assert_eq!(s.len(), 0);
    assert_eq!(s.path, "/repo");
    assert_eq!(s.file, "tasks.toml");
    assert!(!s.task_exists(0));
}

#[test]
fn new_task_with_when_is_pending() {
    let t = Task::new(String::from("Write"), None, None, Some(day(10)), None, None);
    assert_eq!(t.status, Status::Pending);
    assert_eq!(t.when, Some(day(10)));
}

#[test]
fn new_task_without_when_is_inbox() {
    let t = Task::new(
        String::from("Write"),
        Some(String::from("n")),
        Some(vec![String::from("a")]),
        None,
        Some(day(3)),
        Some(day(4)),
    );
    assert_eq!(t.status, Status::Inbox);
    assert!(t.is_inbox());
    assert_eq!(t.deadline, Some(day(3)));
    assert_eq!(t.reminder, Some(day(4)));
    assert_eq!(t.notes, Some(String::from("n")));
}

#[test]
fn stop_follows_when_whatever_the_status() {
    let mut with_date = Task::new(String::from("a"), None, None, Some(day(1)), None, None);
    with_date.complete();
    with_date.stop();
    assert_eq!(with_date.status, Status::Pending);

    let mut without = plain("b");
    without.start();
    without.stop();
    assert_eq!(without.status, Status::Inbox);
    assert_eq!(without.when, None);
}

#[test]
fn modify_with_when_promotes_inbox() {
    let mut t = plain("a");
    t.modify(None, None, None, Some(day(2)), None, None);
    assert_eq!(t.status, Status::Pending);
    assert_eq!(t.when, Some(day(2)));
}

#[test]
fn modify_never_changes_active_status() {
    let mut t = plain("a");
    t.start();
    t.modify(
        Some(String::from("b")),
        Some(String::from("notes")),
        Some(vec![String::from("x"), String::from("")]),
        Some(day(2)),
        Some(day(3)),
        Some(day(4)),
    );
    assert_eq!(t.status, Status::Active);
    assert_eq!(t.title, "b");
    assert_eq!(t.tags, Some(vec![String::from("x"), String::from("")]));
}

#[test]
fn modify_keeps_omitted_fields() {
    let mut t = Task::new(
        String::from("a"),
        Some(String::from("n")),
        Some(vec![String::from("t1"), String::from("t2")]),
        None,
        Some(day(7)),
        None,
    );
    t.modify(None, None, Some(vec![String::from("t3")]), None, None, None);
    assert_eq!(t.title, "a");
    assert_eq!(t.notes, Some(String::from("n")));
    assert_eq!(t.tags, Some(vec![String::from("t3")]));
    assert_eq!(t.deadline, Some(day(7)));
    assert_eq!(t.status, Status::Inbox);
}

#[test]
fn inbox_clears_when() {
    let mut t = Task::new(String::from("a"), None, None, Some(day(1)), None, None);
    t.start();
    t.inbox();
    assert_eq!(t.status, Status::Inbox);
    assert_eq!(t.when, None);
}

#[test]
fn pend_and_predicates() {
    let mut t = plain("a");
    t.pend();
    assert!(t.is_pending());
    t.start();
    assert!(t.is_active());
    t.complete();
    assert!(t.is_complete());
    t.complete();
    assert!(t.is_complete());
}

#[test]
fn buy_milk_lifecycle() {
    let mut s = store_of(&["Buy milk"]);
    s.task(0).unwrap().stop();
    assert_eq!(s.task(0).unwrap().status, Status::Inbox);
    s.task(0).unwrap().modify(None, None, None, Some(day(800_000)), None, None);
    assert_eq!(s.task(0).unwrap().status, Status::Pending);
    s.task(0).unwrap().start();
    assert_eq!(s.task(0).unwrap().status, Status::Active);
    s.task(0).unwrap().stop();
    assert_eq!(s.task(0).unwrap().status, Status::Pending);
    s.task(0).unwrap().complete();
    assert_eq!(s.task(0).unwrap().status, Status::Complete);
}

#[test]
fn push_push_remove_first() {
    let mut s = Tasks::new("/repo", "tasks.toml");
    s.push(plain("Task A"));
    s.push(plain("Task B"));
    assert_eq!(s.remove(0), Ok(()));
    assert_eq!(*s.task(0).unwrap(), plain("Task B"));
    assert_eq!(s.len(), 1);
}

#[test]
fn remove_shifts_later_ids_down() {
    let mut s = store_of(&["a", "b", "c", "d"]);
    assert_eq!(s.remove(1), Ok(()));
    assert_eq!(s.task(0).unwrap().title, "a");
    assert_eq!(s.task(1).unwrap().title, "c");
    assert_eq!(s.task(2).unwrap().title, "d");
    assert_eq!(s.task(3).unwrap_err(), TasksError::no_task(3));
}

#[test]
fn remove_out_of_range_is_not_found() {
    let mut s = store_of(&["a"]);
    assert_eq!(s.remove(1), Err(TasksError { kind: ErrorKind::TaskNotFound(1) }));
    assert_eq!(s.len(), 1);
    let mut empty = store_of(&[]);
    assert_eq!(empty.remove(0), Err(TasksError::no_task(0)));
}

#[test]
fn clear_empty_then_nonempty() {
    let mut empty = store_of(&[]);
    assert_eq!(empty.clear(), Err(TasksError::no_tasks()));
    let mut s = store_of(&["a", "b"]);
    assert_eq!(s.clear(), Ok(()));
    assert!(s.is_empty());
    assert_eq!(s.clear(), Err(TasksError { kind: ErrorKind::NoTasksAvailable }));
}

#[test]
fn task_on_empty_store_is_no_tasks() {
    let mut s = store_of(&[]);
    assert_eq!(s.task(0).unwrap_err(), TasksError::no_tasks());
    assert_eq!(s.task(5).unwrap_err(), TasksError::no_tasks());
    assert_eq!(s.task(usize::MAX).unwrap_err().kind, ErrorKind::NoTasksAvailable);
}

#[test]
fn task_out_of_range_is_not_found() {
    let mut s = store_of(&["a", "b"]);
    assert!(s.task_exists(1));
    assert!(!s.task_exists(2));
    assert_eq!(s.task(2).unwrap_err().kind, ErrorKind::TaskNotFound(2));
}

#[test]
fn task_changes_in_place() {
    let mut s = store_of(&["a", "b"]);
    s.task(1).unwrap().title = String::from("z");
    assert_eq!(s.task(1).unwrap().title, "z");
    assert_eq!(s.task(0).unwrap().title, "a");
}

#[test]
fn status_tags_round_trip() {
    for s in [Status::Inbox, Status::Pending, Status::Active, Status::Complete] {
        assert_eq!(Status::from_tag(s.tag()), Some(s));
    }
    assert_eq!(Status::Pending.tag(), "Pending");
    assert_eq!(Status::from_tag("Complete"), Some(Status::Complete));
    assert_eq!(Status::from_tag("inbox"), None);
    assert_eq!(Status::from_tag(""), None);
    assert_eq!(Status::from_tag("Done"), None);
}

#[test]
fn same_text_compares_characters() {
    assert!(inertia::tasks::same_text("abc", "abc"));
    assert!(!inertia::tasks::same_text("abc", "abd"));
    assert!(!inertia::tasks::same_text("ab", "abc"));
    assert!(inertia::tasks::same_text("", ""));
}
