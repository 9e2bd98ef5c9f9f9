use vstd::prelude::*;

use crate::dates::today;
use crate::tasks::{Task, Timestamp};

verus! {

/// How urgent a date looks next to today.
#[derive(Debug, Clone, Copy, PartialEq, Eq, Structural)]
pub enum DateTone {
    /// No date is set.
    Missing,
    /// Today or earlier.
    Due,
    Tomorrow,
    /// After tomorrow.
    Later,
}

pub open spec fn tone_of(date: Option<Timestamp>, today: int) -> DateTone {
    match date {
        None => DateTone::Missing,
        Some(d) => if d.day <= today {
            DateTone::Due
        } else if d.day == today + 1 {
            DateTone::Tomorrow
        } else {
            DateTone::Later
        },
    }
}

/// The tone of `date` when today is the day `today`.
pub fn date_tone_on(date: &Option<Timestamp>, today: i32) -> (r: DateTone)
    ensures
        r == tone_of(*date, today as int),
{
    match date {
        None => DateTone::Missing,
        Some(d) => if d.day <= today {
            DateTone::Due
        } else if d.day - 1 == today {
            DateTone::Tomorrow
        } else {
            DateTone::Later
        },
    }
}

/// The tone of `date` on the local date now.
pub fn date_tone(date: &Option<Timestamp>) -> (r: DateTone)
    ensures
        exists|day: int| r == tone_of(*date, day),
{
    let day = today();
    date_tone_on(date, day)
}

/// `tags` joined with a comma and a space between each two.
pub open spec fn joined_tags(tags: Seq<Seq<char>>) -> Seq<char>
    decreases tags.len(),
{
    if tags.len() == 0 {
        Seq::empty()
    } else if tags.len() == 1 {
        tags[0]
    } else {
        joined_tags(tags.drop_last()) + ", "@ + tags.last()
    }
}

pub fn join_tags(tags: &Vec<String>) -> (r: String)
    ensures
        r@ == joined_tags(tags@.map_values(|t: String| t@)),
{
    let ghost views = tags@.map_values(|t: String| t@);
    let mut r = String::new();
    let mut i: usize = 0;
    while i < tags.len()
        invariant
            i <= tags@.len(),
            views == tags@.map_values(|t: String| t@),
            r@ == joined_tags(views.take(i as int)),
        decreases tags.len() - i,
    {
        proof {
            assert(views.take(i + 1).drop_last() =~= views.take(i as int));
        }
        if i > 0 {
            r.append(", ");
        } else {
            proof {
                assert(r@ =~= Seq::<char>::empty());
            }
        }
        r.append(tags[i].as_str());
        i = i + 1;
    }
    proof {
        assert(views.take(i as int) =~= views);
    }
    r
}

impl Task {
    /// The tags joined for reading; none when the task has no tags.
    pub fn tags_string(&self) -> (r: Option<String>)
        ensures
            self.tags is None ==> r is None,
            self.tags matches Some(t) ==> (r matches Some(s) && s@ == joined_tags(
                t@.map_values(|x: String| x@),
            )),
    {
        match &self.tags {
            Some(t) => Some(join_tags(t)),
            None => None,
        }
    }

    pub fn when_tone(&self) -> (r: DateTone)
        ensures
            exists|day: int| r == tone_of(self.when, day),
    {
        date_tone(&self.when)
    }

    pub fn deadline_tone(&self) -> (r: DateTone)
        ensures
            exists|day: int| r == tone_of(self.deadline, day),
    {
        date_tone(&self.deadline)
    }

    pub fn reminder_tone(&self) -> (r: DateTone)
        ensures
            exists|day: int| r == tone_of(self.reminder, day),
    {
        date_tone(&self.reminder)
    }
}

} // verus!
