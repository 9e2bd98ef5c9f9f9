use vstd::prelude::*;

verus! {

/// Where a task stands in its lifecycle.
#[derive(Debug, Clone, Copy, PartialEq, Eq, Structural)]
pub enum Status {
    /// Created without a date to work on it.
    Inbox,
    /// Given a date to work on it.
    Pending,
    /// Started.
    Active,
    /// Done.
    Complete,
}

/// A date and time of day without a time zone: the day counted from
/// 0001-01-01 (day 1), the seconds since midnight, and the nanoseconds within
/// that second (above one billion only during a leap second).
#[derive(Debug, Clone, Copy, PartialEq, Eq, Structural)]
pub struct Timestamp {
    pub day: i32,
    pub second: u32,
    pub nano: u32,
}

/// The day number of the first date chrono can hold (1 January 262144 BCE).
pub const FIRST_DAY: i32 = -95746129;

/// The day number of the last date chrono can hold (31 December 262142).
pub const LAST_DAY: i32 = 95745399;

impl Timestamp {
    /// A date chrono can hold, and a time of day; nanoseconds of a billion or
    /// more mark a leap second, which only the last second of a minute has.
    pub open spec fn wf(self) -> bool {
        &&& FIRST_DAY <= self.day <= LAST_DAY
        &&& self.second < 86400
        &&& self.nano < 2_000_000_000
        &&& self.nano >= 1_000_000_000 ==> self.second % 60 == 59
    }
}

/// Whether the texts `a` and `b` are equal.
pub fn same_text(a: &str, b: &str) -> (r: bool)
    ensures
        r == (a@ == b@),
{
    let n = a.unicode_len();
    if n != b.unicode_len() {
        return false;
    }
    let mut i: usize = 0;
    while i < n
        invariant
            n == a@.len(),
            n == b@.len(),
            i <= n,
            a@.subrange(0, i as int) == b@.subrange(0, i as int),
        decreases n - i,
    {
        if a.get_char(i) != b.get_char(i) {
            assert(a@[i as int] != b@[i as int]);
            return false;
        }
        proof {
            assert(a@.subrange(0, i + 1) =~= a@.subrange(0, i as int).push(a@[i as int]));
            assert(b@.subrange(0, i + 1) =~= b@.subrange(0, i as int).push(b@[i as int]));
        }
        i = i + 1;
    }
    proof {
        assert(a@ =~= a@.subrange(0, n as int));
        assert(b@ =~= b@.subrange(0, n as int));
    }
    true
}

impl Status {
    /// The name under which the status is stored.
    pub open spec fn tag_of(self) -> Seq<char> {
        match self {
            Status::Inbox => "Inbox"@,
            Status::Pending => "Pending"@,
            Status::Active => "Active"@,
            Status::Complete => "Complete"@,
        }
    }

    /// The status stored under the name `t`, if any.
    pub open spec fn of_tag(t: Seq<char>) -> Option<Status> {
        if t == "Inbox"@ {
            Some(Status::Inbox)
        } else if t == "Pending"@ {
            Some(Status::Pending)
        } else if t == "Active"@ {
            Some(Status::Active)
        } else if t == "Complete"@ {
            Some(Status::Complete)
        } else {
            None
        }
    }

    pub fn tag(&self) -> (r: &'static str)
        ensures
            r@ == self.tag_of(),
    {
        match self {
            Status::Inbox => "Inbox",
            Status::Pending => "Pending",
            Status::Active => "Active",
            Status::Complete => "Complete",
        }
    }

    /// Reads a stored status name; any other text is no status.
    pub fn from_tag(t: &str) -> (r: Option<Status>)
        ensures
            r == Status::of_tag(t@),
    {
        if same_text(t, "Inbox") {
            Some(Status::Inbox)
        } else if same_text(t, "Pending") {
            Some(Status::Pending)
        } else if same_text(t, "Active") {
            Some(Status::Active)
        } else if same_text(t, "Complete") {
            Some(Status::Complete)
        } else {
            None
        }
    }
}

/// Reading back the stored name of a status gives that status, and no
/// other status is stored under the same name.
pub proof fn status_tag_round_trip(s: Status, other: Status)
    ensures
        Status::of_tag(s.tag_of()) == Some(s),
        s.tag_of() == other.tag_of() ==> s == other,
{
    reveal_strlit("Inbox");
    reveal_strlit("Pending");
    reveal_strlit("Active");
    reveal_strlit("Complete");
    assert("Inbox"@.len() == 5);
    assert("Pending"@.len() == 7);
    assert("Active"@.len() == 6);
    assert("Complete"@.len() == 8);
}

/// The status a task takes when it is (re)scheduled with `when`.
pub open spec fn scheduled_status(when: Option<Timestamp>) -> Status {
    if when is Some {
        Status::Pending
    } else {
        Status::Inbox
    }
}

/// A single unit of work.
#[derive(Debug, Clone, PartialEq, Eq)]
pub struct Task {
    pub title: String,
    pub status: Status,
    pub notes: Option<String>,
    pub tags: Option<Vec<String>>,
    /// The date the task is meant to be worked on.
    pub when: Option<Timestamp>,
    /// The latest date the task should be done by.
    pub deadline: Option<Timestamp>,
    /// When a reminder is due; stored only.
    pub reminder: Option<Timestamp>,
}

/// `new` if given, else `current`.
pub open spec fn overwrite<T>(new: Option<T>, current: T) -> T {
    match new {
        Some(v) => v,
        None => current,
    }
}

/// An optional field after `modify`: `new` if given, else `current`.
pub open spec fn overwrite_opt<T>(new: Option<T>, current: Option<T>) -> Option<T> {
    match new {
        Some(v) => Some(v),
        None => current,
    }
}

/// The task `t` after `modify` with these arguments.
pub open spec fn modified(
    t: Task,
    title: Option<String>,
    notes: Option<String>,
    tags: Option<Vec<String>>,
    when: Option<Timestamp>,
    deadline: Option<Timestamp>,
    reminder: Option<Timestamp>,
) -> Task {
    Task {
        title: overwrite(title, t.title),
        status: if when is Some && t.status == Status::Inbox {
            Status::Pending
        } else {
            t.status
        },
        notes: overwrite_opt(notes, t.notes),
        tags: overwrite_opt(tags, t.tags),
        when: overwrite_opt(when, t.when),
        deadline: overwrite_opt(deadline, t.deadline),
        reminder: overwrite_opt(reminder, t.reminder),
    }
}

pub open spec fn with_status(t: Task, status: Status) -> Task {
    Task { status, ..t }
}

/// The task `t` after `stop`.
pub open spec fn stopped(t: Task) -> Task {
    with_status(t, scheduled_status(t.when))
}

/// The task `t` after `inbox`.
pub open spec fn returned_to_inbox(t: Task) -> Task {
    Task { status: Status::Inbox, when: None, ..t }
}

impl Task {
    /// A new task: `Pending` when it has a `when` date, `Inbox` otherwise.
    pub fn new(
        title: String,
        notes: Option<String>,
        tags: Option<Vec<String>>,
        when: Option<Timestamp>,
        deadline: Option<Timestamp>,
        reminder: Option<Timestamp>,
    ) -> (r: Task)
        ensures
            r.title == title,
            r.notes == notes,
            r.tags == tags,
            r.when == when,
            r.deadline == deadline,
            r.reminder == reminder,
            r.status == scheduled_status(when),
    {
        let status = if when.is_some() {
            Status::Pending
        } else {
            Status::Inbox
        };
        Task { title, status, notes, tags, when, deadline, reminder }
    }

    /// Overwrites each given field and keeps the others. Giving `when` to a
    /// task in the inbox makes it `Pending`; no other status changes.
    pub fn modify(
        &mut self,
        title: Option<String>,
        notes: Option<String>,
        tags: Option<Vec<String>>,
        when: Option<Timestamp>,
        deadline: Option<Timestamp>,
        reminder: Option<Timestamp>,
    )
        ensures
            *final(self) == modified(*old(self), title, notes, tags, when, deadline, reminder),
            (when is Some) && old(self).status == Status::Inbox ==> final(self).status
                == Status::Pending,
            old(self).status != Status::Inbox ==> final(self).status == old(self).status,
    {
        if let Some(t) = title {
            self.title = t;
        }
        if notes.is_some() {
            self.notes = notes;
        }
        if tags.is_some() {
            self.tags = tags;
        }
        let promote = when.is_some() && self.status == Status::Inbox;
        if when.is_some() {
            self.when = when;
        }
        if deadline.is_some() {
            self.deadline = deadline;
        }
        if reminder.is_some() {
            self.reminder = reminder;
        }
        if promote {
            self.status = Status::Pending;
        }
    }

    /// Returns the task to the inbox and drops its `when` date.
    pub fn inbox(&mut self)
        ensures
            *final(self) == returned_to_inbox(*old(self)),
    {
        self.status = Status::Inbox;
        self.when = None;
    }

    pub fn complete(&mut self)
        ensures
            *final(self) == with_status(*old(self), Status::Complete),
    {
        self.status = Status::Complete;
    }

    pub fn start(&mut self)
        ensures
            *final(self) == with_status(*old(self), Status::Active),
    {
        self.status = Status::Active;
    }

    pub fn pend(&mut self)
        ensures
            *final(self) == with_status(*old(self), Status::Pending),
    {
        self.status = Status::Pending;
    }

    /// Stops work on the task: `Pending` if it has a `when` date, else
    /// `Inbox`, whatever its status was.
    pub fn stop(&mut self)
        ensures
            *final(self) == stopped(*old(self)),
            final(self).status == scheduled_status(old(self).when),
    {
        if self.when.is_some() {
            self.status = Status::Pending;
        } else {
            self.status = Status::Inbox;
        }
    }

    pub fn is_complete(&self) -> (r: bool)
        ensures
            r == (self.status == Status::Complete),
    {
        self.status == Status::Complete
    }

    pub fn is_active(&self) -> (r: bool)
        ensures
            r == (self.status == Status::Active),
    {
        self.status == Status::Active
    }

    pub fn is_pending(&self) -> (r: bool)
        ensures
            r == (self.status == Status::Pending),
    {
        self.status == Status::Pending
    }

    pub fn is_inbox(&self) -> (r: bool)
        ensures
            r == (self.status == Status::Inbox),
    {
        self.status == Status::Inbox
    }
}

/// What went wrong in an indexed operation on the store.
#[derive(Debug, Clone, Copy, PartialEq, Eq, Structural)]
pub enum ErrorKind {
    /// The store holds no task at all.
    NoTasksAvailable,
    /// The store holds tasks, but none with this id.
    TaskNotFound(usize),
}

#[derive(Debug, Clone, Copy, PartialEq, Eq, Structural)]
pub struct TasksError {
    pub kind: ErrorKind,
}

impl TasksError {
    pub open spec fn not_found(id: usize) -> TasksError {
        TasksError { kind: ErrorKind::TaskNotFound(id) }
    }

    pub open spec fn none_available() -> TasksError {
        TasksError { kind: ErrorKind::NoTasksAvailable }
    }

    pub fn no_task(id: usize) -> (r: Self)
        ensures
            r == Self::not_found(id),
    {
        TasksError { kind: ErrorKind::TaskNotFound(id) }
    }

    pub fn no_tasks() -> (r: Self)
        ensures
            r == Self::none_available(),
    {
        TasksError { kind: ErrorKind::NoTasksAvailable }
    }
}

/// The tasks of one repository, in insertion order. A task's id is its
/// current position, so removing a task moves every later one down by one.
#[derive(Debug, Clone, PartialEq, Eq)]
pub struct Tasks {
    /// The repository directory.
    pub path: String,
    /// The name of the tasks file inside the repository.
    pub file: String,
    pub tasks: Vec<Task>,
}

/// The store as a mathematical value.
pub struct TasksView {
    pub path: Seq<char>,
    pub file: Seq<char>,
    pub tasks: Seq<Task>,
}

impl View for Tasks {
    type V = TasksView;

    open spec fn view(&self) -> TasksView {
        TasksView { path: self.path@, file: self.file@, tasks: self.tasks@ }
    }
}

impl TasksView {
    pub open spec fn len(self) -> nat {
        self.tasks.len()
    }

    /// The task with id `id`; an empty store has none, whatever the id.
    pub open spec fn lookup(self, id: usize) -> Result<Task, TasksError> {
        if self.tasks.len() == 0 {
            Err(TasksError::none_available())
        } else if id < self.tasks.len() {
            Ok(self.tasks[id as int])
        } else {
            Err(TasksError::not_found(id))
        }
    }

    pub open spec fn with_tasks(self, tasks: Seq<Task>) -> TasksView {
        TasksView { tasks, ..self }
    }

    /// The store with the task of id `id` replaced by `f` of it.
    pub open spec fn edited(self, id: usize, f: spec_fn(Task) -> Task) -> Result<TasksView, TasksError> {
        match self.lookup(id) {
            Ok(t) => Ok(self.with_tasks(self.tasks.update(id as int, f(t)))),
            Err(e) => Err(e),
        }
    }

    pub open spec fn pushed(self, task: Task) -> TasksView {
        self.with_tasks(self.tasks.push(task))
    }

    /// The store after removing the task with id `id`.
    pub open spec fn removed(self, id: usize) -> Result<TasksView, TasksError> {
        if id < self.tasks.len() {
            Ok(self.with_tasks(self.tasks.remove(id as int)))
        } else {
            Err(TasksError::not_found(id))
        }
    }

    /// The store after removing every task.
    pub open spec fn cleared(self) -> Result<TasksView, TasksError> {
        if self.tasks.len() == 0 {
            Err(TasksError::none_available())
        } else {
            Ok(self.with_tasks(Seq::empty()))
        }
    }
}

/// `r` and the store `after` are what `expected` says of the store `before`:
/// success and the new store, or the error with the store unchanged.
pub open spec fn follows<T>(
    before: Tasks,
    after: Tasks,
    expected: Result<TasksView, TasksError>,
    r: Result<T, TasksError>,
) -> bool {
    match expected {
        Ok(v) => r is Ok && after@ == v,
        Err(e) => r matches Err(e2) && e2 == e && after == before,
    }
}

impl Tasks {
    /// An empty store kept in `tasks_file` under `repo_path`.
    pub fn new(repo_path: &str, tasks_file: &str) -> (r: Self)
        ensures
            r@.path == repo_path@,
            r@.file == tasks_file@,
            r@.tasks == Seq::<Task>::empty(),
    {
        Tasks {
            path: String::from_str(repo_path),
            file: String::from_str(tasks_file),
            tasks: Vec::new(),
        }
    }

    pub fn is_empty(&self) -> (r: bool)
        ensures
            r == (self@.len() == 0),
    {
        self.len() == 0
    }

    /// Whether a task has id `id`.
    pub fn task_exists(&self, id: usize) -> (r: bool)
        ensures
            r == (id < self@.len()),
    {
        id < self.len()
    }

    pub fn len(&self) -> (r: usize)
        ensures
            r == self@.len(),
    {
        self.tasks.len()
    }

    /// The task with id `id`, to read or change in place.
    pub fn task(&mut self, id: usize) -> (r: Result<&mut Task, TasksError>)
        ensures
            match old(self)@.lookup(id) {
                Ok(t) => r matches Ok(m) && *m == t && final(self)@ == old(self)@.with_tasks(
                    old(self)@.tasks.update(id as int, *final(m)),
                ),
                Err(e) => r matches Err(e2) && e2 == e && *final(self) == *old(self),
            },
    {
        if self.is_empty() {
            Err(TasksError::no_tasks())
        } else if self.task_exists(id) {
            Ok(&mut self.tasks[id])
        } else {
            Err(TasksError::no_task(id))
        }
    }

    /// Appends `task`; its id is the former count.
    pub fn push(&mut self, task: Task)
        ensures
            final(self)@ == old(self)@.pushed(task),
    {
        self.tasks.push(task);
    }

    /// Removes the task with id `id`; later tasks move down by one.
    pub fn remove(&mut self, id: usize) -> (r: Result<(), TasksError>)
        ensures
            match old(self)@.removed(id) {
                Ok(v) => r is Ok && final(self)@ == v,
                Err(e) => r == Err::<(), TasksError>(e) && *final(self) == *old(self),
            },
    {
        if self.task_exists(id) {
            self.tasks.remove(id);
            Ok(())
        } else {
            Err(TasksError::no_task(id))
        }
    }

    /// Removes every task at once; fails on an empty store.
    pub fn clear(&mut self) -> (r: Result<(), TasksError>)
        ensures
            match old(self)@.cleared() {
                Ok(v) => r is Ok && final(self)@ == v,
                Err(e) => r == Err::<(), TasksError>(e) && *final(self) == *old(self),
            },
    {
        if self.is_empty() {
            Err(TasksError::no_tasks())
        } else {
            self.tasks = Vec::new();
            Ok(())
        }
    }
}

/// Removing the task with id `id` from a non-empty store leaves each task
/// before it under its old id, and puts under every later id `other` the task
/// that had id `other + 1`.
pub proof fn remove_shifts_ids(s: TasksView, id: usize, other: usize)
    requires
        s.len() > 0,
        id < s.len(),
        other < s.len() - 1,
        s.len() <= usize::MAX,
    ensures
        s.removed(id) matches Ok(after) && after.lookup(other) == (if other < id {
            s.lookup(other)
        } else {
            s.lookup((other + 1) as usize)
        }),
{
}

/// Clearing an empty store fails with `NoTasksAvailable`. Clearing a
/// non-empty one empties it, and clearing it again then fails the same way.
pub proof fn clear_then_clear(s: TasksView)
    ensures
        s.len() == 0 ==> s.cleared() == Err::<TasksView, TasksError>(TasksError::none_available()),
        s.len() > 0 ==> (s.cleared() matches Ok(after) && after.len() == 0 && after.cleared()
            == Err::<TasksView, TasksError>(TasksError::none_available())),
{
}

/// On an empty store every lookup fails with `NoTasksAvailable`, id 0
/// included.
pub proof fn lookup_on_empty(s: TasksView, id: usize)
    requires
        s.len() == 0,
    ensures
        s.lookup(id) == Err::<Task, TasksError>(TasksError::none_available()),
{
}

} // verus!
