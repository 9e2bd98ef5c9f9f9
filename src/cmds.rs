use vstd::prelude::*;

use crate::dates::{parse_fuzzy_date, DateError};
use crate::git::texts;
use crate::tasks::{
    modified, returned_to_inbox, scheduled_status, stopped, with_status, follows, Status, Task,
    Tasks, TasksError, Timestamp,
};

verus! {

/// The pieces of `rest` added to `done`, where `piece` holds the characters
/// already read of the current piece.
pub open spec fn pieces_after(rest: Seq<char>, done: Seq<Seq<char>>, piece: Seq<char>) -> Seq<
    Seq<char>,
>
    decreases rest.len(),
{
    if rest.len() == 0 {
        done.push(piece)
    } else if rest[0] == ',' {
        pieces_after(rest.drop_first(), done.push(piece), Seq::empty())
    } else {
        pieces_after(rest.drop_first(), done, piece.push(rest[0]))
    }
}

/// The pieces of `s` between commas, empty ones included: one more than
/// the commas.
pub open spec fn comma_pieces(s: Seq<char>) -> Seq<Seq<char>> {
    pieces_after(s, Seq::empty(), Seq::empty())
}

/// `tags` is what the text `text` gives as tags.
pub open spec fn tags_read(text: Option<String>, tags: Option<Vec<String>>) -> bool {
    match text {
        None => tags is None,
        Some(s) => tags matches Some(v) && texts(v@) == comma_pieces(s@),
    }
}

proof fn pieces_step(s: Seq<char>, start: int, i: int, done: Seq<Seq<char>>)
    requires
        0 <= start <= i < s.len(),
        s[i] != ',',
    ensures
        pieces_after(s.subrange(i, s.len() as int), done, s.subrange(start, i)) == pieces_after(
            s.subrange(i + 1, s.len() as int),
            done,
            s.subrange(start, i + 1),
        ),
{
    assert(s.subrange(i, s.len() as int).drop_first() =~= s.subrange(i + 1, s.len() as int));
    assert(s.subrange(start, i).push(s[i]) =~= s.subrange(start, i + 1));
}

fn split_commas(text: &str) -> (r: Vec<String>)
    ensures
        texts(r@) == comma_pieces(text@),
{
    let n = text.unicode_len();
    let mut out: Vec<String> = Vec::new();
    let mut start: usize = 0;
    let mut i: usize = 0;
    proof {
        assert(text@.subrange(0, n as int) =~= text@);
        assert(text@.subrange(0, 0) =~= Seq::<char>::empty());
        assert(texts(out@) =~= Seq::<Seq<char>>::empty());
    }
    while i < n
        invariant
            n == text@.len(),
            start <= i <= n,
            pieces_after(text@.subrange(i as int, n as int), texts(out@), text@.subrange(start as int, i as int))
                == comma_pieces(text@),
        decreases n - i,
    {
        if text.get_char(i) == ',' {
            let ghost before = texts(out@);
            let w = String::from_str(text.substring_char(start, i));
            out.push(w);
            proof {
                assert(texts(out@) =~= before.push(text@.subrange(start as int, i as int)));
                assert(text@.subrange(i as int, n as int).drop_first() =~= text@.subrange(
                    i + 1,
                    n as int,
                ));
                assert(text@.subrange(i + 1, i + 1) =~= Seq::<char>::empty());
            }
            i = i + 1;
            start = i;
        } else {
            proof {
                pieces_step(text@, start as int, i as int, texts(out@));
            }
            i = i + 1;
        }
    }
    let ghost before = texts(out@);
    let w = String::from_str(text.substring_char(start, n));
    out.push(w);
    proof {
        assert(texts(out@) =~= before.push(text@.subrange(start as int, n as int)));
    }
    out
}

/// Reads tags separated by commas; each piece is kept as it is, empty or
/// repeated ones too.
pub fn parse_tags(tags: Option<String>) -> (r: Option<Vec<String>>)
    ensures
        tags_read(tags, r),
{
    match tags {
        Some(text) => Some(split_commas(text.as_str())),
        None => None,
    }
}

/// Why a command failed.
#[derive(Debug, Clone, PartialEq, Eq)]
pub enum CommandError {
    Tasks(TasksError),
    /// A date given in words could not be read.
    Date(DateError),
    /// The command is not available.
    Unsupported,
}

/// `t` is the task that `add` makes from these arguments, with the dates
/// already read.
pub open spec fn new_task_from(
    t: Task,
    title: String,
    notes: Option<String>,
    tags: Option<String>,
    when: Option<Timestamp>,
    deadline: Option<Timestamp>,
    reminder: Option<Timestamp>,
) -> bool {
    &&& t.title == title
    &&& t.notes == notes
    &&& tags_read(tags, t.tags)
    &&& t.when == when
    &&& t.deadline == deadline
    &&& t.reminder == reminder
    &&& t.status == scheduled_status(when)
}

/// `d` is what reading the optional text `text` as a date may give.
pub open spec fn date_read(text: Option<String>, d: Option<Timestamp>) -> bool {
    (d is Some <==> text is Some) && (d matches Some(t) ==> t.wf())
}

/// `e` is the error of one of the three dates given.
pub open spec fn one_of_dates(
    e: DateError,
    when: Option<String>,
    deadline: Option<String>,
    reminder: Option<String>,
) -> bool {
    when == Some(e.text) || deadline == Some(e.text) || reminder == Some(e.text)
}

/// Adds a task made from these arguments, with its dates already read, and
/// returns its id: the former count.
pub fn add_task(
    tasks: &mut Tasks,
    title: String,
    notes: Option<String>,
    tags: Option<String>,
    when: Option<Timestamp>,
    deadline: Option<Timestamp>,
    reminder: Option<Timestamp>,
) -> (r: usize)
    ensures
        r == old(tasks)@.len(),
        final(tasks)@ == old(tasks)@.pushed(final(tasks)@.tasks.last()),
        new_task_from(final(tasks)@.tasks.last(), title, notes, tags, when, deadline, reminder),
{
    let id = tasks.len();
    let tags = parse_tags(tags);
    let task = Task::new(title, notes, tags, when, deadline, reminder);
    tasks.push(task);
    id
}

/// The store `after` is `before` with a task added under id `id`, made
/// from these arguments with each date text read.
pub open spec fn added(
    before: Tasks,
    after: Tasks,
    id: usize,
    title: String,
    notes: Option<String>,
    tags: Option<String>,
    when: Option<String>,
    deadline: Option<String>,
    reminder: Option<String>,
) -> bool {
    let t = after@.tasks.last();
    &&& id == before@.len()
    &&& after@ == before@.pushed(t)
    &&& new_task_from(t, title, notes, tags, t.when, t.deadline, t.reminder)
    &&& date_read(when, t.when)
    &&& date_read(deadline, t.deadline)
    &&& date_read(reminder, t.reminder)
}

/// Adds a task, reading its dates from words first; a date that cannot be
/// read leaves the store as it was.
pub fn add(
    tasks: &mut Tasks,
    title: String,
    notes: Option<String>,
    tags: Option<String>,
    when: Option<String>,
    deadline: Option<String>,
    reminder: Option<String>,
) -> (r: Result<usize, DateError>)
    ensures
        match r {
            Ok(id) => added(*old(tasks), *final(tasks), id, title, notes, tags, when, deadline, reminder),
            Err(e) => *final(tasks) == *old(tasks) && one_of_dates(e, when, deadline, reminder),
        },
        (when is None) && (deadline is None) && (reminder is None) ==> r is Ok,
{
    let when = match parse_fuzzy_date(when) {
        Ok(d) => d,
        Err(e) => return Err(e),
    };
    let deadline = match parse_fuzzy_date(deadline) {
        Ok(d) => d,
        Err(e) => return Err(e),
    };
    let reminder = match parse_fuzzy_date(reminder) {
        Ok(d) => d,
        Err(e) => return Err(e),
    };
    Ok(add_task(tasks, title, notes, tags, when, deadline, reminder))
}

/// `n` is the task `t` after `modify` with these arguments, the dates
/// already read.
pub open spec fn modified_from(
    n: Task,
    t: Task,
    title: Option<String>,
    notes: Option<String>,
    tags: Option<String>,
    when: Option<Timestamp>,
    deadline: Option<Timestamp>,
    reminder: Option<Timestamp>,
) -> bool {
    exists|v: Option<Vec<String>>|
        tags_read(tags, v) && n == modified(t, title, notes, v, when, deadline, reminder)
}

/// The store `after` is `before` with the task of id `id` modified with
/// these arguments, the dates already read.
pub open spec fn modify_done(
    before: Tasks,
    after: Tasks,
    id: usize,
    title: Option<String>,
    notes: Option<String>,
    tags: Option<String>,
    when: Option<Timestamp>,
    deadline: Option<Timestamp>,
    reminder: Option<Timestamp>,
) -> bool {
    before@.lookup(id) matches Ok(t) && after@ == before@.with_tasks(
        before@.tasks.update(id as int, after@.tasks[id as int]),
    ) && modified_from(after@.tasks[id as int], t, title, notes, tags, when, deadline, reminder)
}

/// Modifies the task with id `id`, its dates already read.
pub fn modify_task(
    tasks: &mut Tasks,
    id: usize,
    title: Option<String>,
    notes: Option<String>,
    tags: Option<String>,
    when: Option<Timestamp>,
    deadline: Option<Timestamp>,
    reminder: Option<Timestamp>,
) -> (r: Result<(), TasksError>)
    ensures
        match old(tasks)@.lookup(id) {
            Ok(_) => r is Ok && modify_done(
                *old(tasks),
                *final(tasks),
                id,
                title,
                notes,
                tags,
                when,
                deadline,
                reminder,
            ),
            Err(e) => r == Err::<(), TasksError>(e) && *final(tasks) == *old(tasks),
        },
{
    let parsed = parse_tags(tags);
    let ghost tag_list = parsed;
    match tasks.task(id) {
        Ok(task) => {
            task.modify(title, notes, parsed, when, deadline, reminder);
            proof {
                assert(tags_read(tags, tag_list));
            }
            Ok(())
        },
        Err(e) => Err(e),
    }
}

/// The store `after` is `before` with the task of id `id` modified with
/// these arguments, each date text read.
pub open spec fn modified_read(
    before: Tasks,
    after: Tasks,
    id: usize,
    title: Option<String>,
    notes: Option<String>,
    tags: Option<String>,
    when: Option<String>,
    deadline: Option<String>,
    reminder: Option<String>,
) -> bool {
    exists|w: Option<Timestamp>, d: Option<Timestamp>, m: Option<Timestamp>|
        date_read(when, w) && date_read(deadline, d) && date_read(reminder, m) && modify_done(
            before,
            after,
            id,
            title,
            notes,
            tags,
            w,
            d,
            m,
        )
}

/// Modifies the task with id `id`, reading its dates from words first. A
/// date that cannot be read fails before the task is looked up.
pub fn modify(
    tasks: &mut Tasks,
    id: usize,
    title: Option<String>,
    notes: Option<String>,
    tags: Option<String>,
    when: Option<String>,
    deadline: Option<String>,
    reminder: Option<String>,
) -> (r: Result<(), CommandError>)
    ensures
        match r {
            Ok(_) => modified_read(
                *old(tasks),
                *final(tasks),
                id,
                title,
                notes,
                tags,
                when,
                deadline,
                reminder,
            ),
            Err(CommandError::Tasks(e)) => old(tasks)@.lookup(id) == Err::<Task, TasksError>(e)
                && *final(tasks) == *old(tasks),
            Err(CommandError::Date(e)) => *final(tasks) == *old(tasks) && one_of_dates(
                e,
                when,
                deadline,
                reminder,
            ),
            Err(CommandError::Unsupported) => false,
        },
        (when is None) && (deadline is None) && (reminder is None) ==> !(r matches Err(
            CommandError::Date(_),
        )),
{
    let w = match parse_fuzzy_date(when) {
        Ok(d) => d,
        Err(e) => return Err(CommandError::Date(e)),
    };
    let d = match parse_fuzzy_date(deadline) {
        Ok(d) => d,
        Err(e) => return Err(CommandError::Date(e)),
    };
    let m = match parse_fuzzy_date(reminder) {
        Ok(d) => d,
        Err(e) => return Err(CommandError::Date(e)),
    };
    match modify_task(tasks, id, title, notes, tags, w, d, m) {
        Ok(()) => Ok(()),
        Err(e) => Err(CommandError::Tasks(e)),
    }
}

/// Deletes the task with id `id` and returns it; on an empty store this
/// fails with `NoTasksAvailable` whatever the id.
pub fn delete(tasks: &mut Tasks, id: usize) -> (r: Result<Task, TasksError>)
    ensures
        match old(tasks)@.lookup(id) {
            Ok(t) => r == Ok::<Task, TasksError>(t) && final(tasks)@ == old(tasks)@.with_tasks(
                old(tasks)@.tasks.remove(id as int),
            ),
            Err(e) => r == Err::<Task, TasksError>(e) && *final(tasks) == *old(tasks),
        },
{
    if tasks.is_empty() {
        Err(TasksError::no_tasks())
    } else if tasks.task_exists(id) {
        let t = tasks.tasks.remove(id);
        Ok(t)
    } else {
        Err(TasksError::no_task(id))
    }
}

/// Deletes every task.
pub fn clear(tasks: &mut Tasks) -> (r: Result<(), TasksError>)
    ensures
        follows(*old(tasks), *final(tasks), old(tasks)@.cleared(), r),
{
    tasks.clear()
}

pub fn stop(tasks: &mut Tasks, id: usize) -> (r: Result<(), TasksError>)
    ensures
        follows(*old(tasks), *final(tasks), old(tasks)@.edited(id, |t: Task| stopped(t)), r),
{
    match tasks.task(id) {
        Ok(task) => {
            task.stop();
            Ok(())
        },
        Err(e) => Err(e),
    }
}

pub fn start(tasks: &mut Tasks, id: usize) -> (r: Result<(), TasksError>)
    ensures
        follows(
            *old(tasks),
            *final(tasks),
            old(tasks)@.edited(id, |t: Task| with_status(t, Status::Active)),
            r,
        ),
{
    match tasks.task(id) {
        Ok(task) => {
            task.start();
            Ok(())
        },
        Err(e) => Err(e),
    }
}

pub fn done(tasks: &mut Tasks, id: usize) -> (r: Result<(), TasksError>)
    ensures
        follows(
            *old(tasks),
            *final(tasks),
            old(tasks)@.edited(id, |t: Task| with_status(t, Status::Complete)),
            r,
        ),
{
    match tasks.task(id) {
        Ok(task) => {
            task.complete();
            Ok(())
        },
        Err(e) => Err(e),
    }
}

pub fn inbox(tasks: &mut Tasks, id: usize) -> (r: Result<(), TasksError>)
    ensures
        follows(*old(tasks), *final(tasks), old(tasks)@.edited(id, |t: Task| returned_to_inbox(t)), r),
{
    match tasks.task(id) {
        Ok(task) => {
            task.inbox();
            Ok(())
        },
        Err(e) => Err(e),
    }
}

/// What `show` displays.
#[derive(Debug, Clone, Copy, PartialEq, Eq, Structural)]
pub enum Showing {
    /// There is no task to list.
    Nothing,
    /// The table of all tasks.
    All,
    /// The task with this id.
    One(usize),
}

/// What to show for `id`: the one task, which must exist, or else all tasks.
pub fn show(tasks: &Tasks, id: Option<usize>) -> (r: Result<Showing, TasksError>)
    ensures
        match id {
            None => r == Ok::<Showing, TasksError>(
                if tasks@.len() == 0 {
                    Showing::Nothing
                } else {
                    Showing::All
                },
            ),
            Some(i) => match tasks@.lookup(i) {
                Ok(_) => r == Ok::<Showing, TasksError>(Showing::One(i)),
                Err(e) => r == Err::<Showing, TasksError>(e),
            },
        },
{
    match id {
        None => if tasks.is_empty() {
            Ok(Showing::Nothing)
        } else {
            Ok(Showing::All)
        },
        Some(i) => if tasks.is_empty() {
            Err(TasksError::no_tasks())
        } else if tasks.task_exists(i) {
            Ok(Showing::One(i))
        } else {
            Err(TasksError::no_task(i))
        },
    }
}

} // verus!
