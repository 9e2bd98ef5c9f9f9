use vstd::prelude::*;

use chrono::{Datelike, Timelike};

use crate::tasks::Timestamp;

verus! {

/// The longest date text that is read.
pub const MAX_DATE_TEXT: usize = 64;

/// The most digits in a row that a date text may hold.
pub const MAX_DIGITS: usize = 4;

/// `c` is the lower-case ASCII letter `l`, in either case.
pub open spec fn same_letter(c: char, l: char) -> bool {
    c == l || (l as u32 >= 32 && c as u32 == l as u32 - 32)
}

/// `w` (lower-case letters) stands in `s` at `i`, in any letter case.
pub open spec fn word_at(s: Seq<char>, i: int, w: Seq<char>) -> bool {
    &&& 0 <= i
    &&& i + w.len() <= s.len()
    &&& forall|j: int| 0 <= j < w.len() ==> same_letter(#[trigger] s[i + j], w[j])
}

pub open spec fn holds_word(s: Seq<char>, w: Seq<char>) -> bool {
    exists|i: int| word_at(s, i, w)
}

pub open spec fn is_digit(c: char) -> bool {
    '0' <= c && c <= '9'
}

/// `s` holds more than `MAX_DIGITS` digits in a row, starting at `i`.
pub open spec fn long_number_at(s: Seq<char>, i: int) -> bool {
    &&& 0 <= i
    &&& i + MAX_DIGITS + 1 <= s.len()
    &&& forall|j: int| 0 <= j <= MAX_DIGITS ==> is_digit(#[trigger] s[i + j])
}

/// The words that make a date text refused: durations in months or years,
/// and numbers in thousands or more.
pub open spec fn refused_words() -> Seq<Seq<char>> {
    seq![
        seq!['m', 'o', 'n', 't', 'h'],
        seq!['y', 'e', 'a', 'r'],
        seq!['t', 'h', 'o', 'u', 's', 'a', 'n', 'd'],
        seq!['m', 'i', 'l', 'l', 'i', 'o', 'n'],
        seq!['b', 'i', 'l', 'l', 'i', 'o', 'n'],
    ]
}

/// The date texts that are handed to the date reader: short ASCII text with
/// no refused word in any letter case and no number of more than
/// `MAX_DIGITS` digits. Every duration it can express stays within a few
/// thousand years.
pub open spec fn admitted_date_text(s: Seq<char>) -> bool {
    &&& s.len() <= MAX_DATE_TEXT
    &&& forall|i: int| 0 <= i < s.len() ==> (#[trigger] s[i] as u32) < 128
    &&& forall|k: int| 0 <= k < refused_words().len() ==> !holds_word(s, #[trigger] refused_words()[k])
    &&& forall|i: int| !long_number_at(s, i)
}

/// Relies on fuzzydate::parse: reads a date written in words ("tomorrow at
/// 5pm") against the local time now, or fails. It is called only on admitted
/// text: fuzzydate unwraps the result of moving a date by months or years,
/// and chrono panics when a moved date leaves its range, which large numbers
/// reach. chrono's `Datelike` and `Timelike` give the day count from
/// 0001-01-01 of a `NaiveDate` (within `NaiveDate::MIN` and `MAX`), its
/// seconds since midnight (hours 0 to 23, minutes and seconds 0 to 59) and its
/// nanoseconds (below two billion, and one billion or more only in the last
/// second of a minute).
#[verifier::external_body]
fn parse_words(text: String) -> (r: Option<Timestamp>)
    requires
        admitted_date_text(text@),
    ensures
        r matches Some(t) ==> t.wf(),
{
    fuzzydate::parse(text).ok().map(
        |d| Timestamp {
            day: d.num_days_from_ce(),
            second: d.num_seconds_from_midnight(),
            nano: d.nanosecond(),
        },
    )
}

/// Relies on chrono's Local::now: today in the local time zone, as a day
/// count from 0001-01-01.
#[verifier::external_body]
pub(crate) fn today() -> (r: i32) {
    chrono::Local::now().date_naive().num_days_from_ce()
}

fn letter_matches(c: char, l: char) -> (r: bool)
    ensures
        r == same_letter(c, l),
{
    c == l || (l as u32 >= 32 && c as u32 == l as u32 - 32)
}

/// Whether `w` stands in `text` at `i`, in any letter case.
fn word_at_exec(text: &str, n: usize, i: usize, w: &Vec<char>) -> (r: bool)
    requires
        n == text@.len(),
    ensures
        r == word_at(text@, i as int, w@),
{
    if w.len() > n || i > n - w.len() {
        return false;
    }
    let mut j: usize = 0;
    while j < w.len()
        invariant
            i + w@.len() <= n,
            n == text@.len(),
            j <= w@.len(),
            forall|k: int| 0 <= k < j ==> same_letter(#[trigger] text@[i + k], w@[k]),
        decreases w.len() - j,
    {
        if !letter_matches(text.get_char(i + j), w[j]) {
            assert(!same_letter(text@[i + j], w@[j as int]));
            return false;
        }
        j = j + 1;
    }
    true
}

/// Whether `w` stands anywhere in `text`, in any letter case.
fn holds_word_exec(text: &str, n: usize, w: &Vec<char>) -> (r: bool)
    requires
        n == text@.len(),
    ensures
        r == holds_word(text@, w@),
{
    let mut i: usize = 0;
    while i <= n
        invariant
            n == text@.len(),
            forall|k: int| 0 <= k < i ==> !word_at(text@, k, w@),
        decreases n + 1 - i,
    {
        if word_at_exec(text, n, i, w) {
            return true;
        }
        if i == n {
            assert forall|k: int| !word_at(text@, k, w@) by {
                if 0 <= k && k > n {
                    assert(!(k + w@.len() <= text@.len()));
                }
            }
            return false;
        }
        i = i + 1;
    }
    false
}

fn is_digit_exec(c: char) -> (r: bool)
    ensures
        r == is_digit(c),
{
    '0' <= c && c <= '9'
}

/// Whether `MAX_DIGITS + 1` digits stand in `text` from `i` on.
fn long_number_at_exec(text: &str, n: usize, i: usize) -> (r: bool)
    requires
        n == text@.len(),
    ensures
        r == long_number_at(text@, i as int),
{
    if n < MAX_DIGITS + 1 || i > n - (MAX_DIGITS + 1) {
        return false;
    }
    let mut j: usize = 0;
    while j <= MAX_DIGITS
        invariant
            i + MAX_DIGITS + 1 <= n,
            n == text@.len(),
            j <= MAX_DIGITS + 1,
            forall|k: int| 0 <= k < j ==> is_digit(#[trigger] text@[i + k]),
        decreases MAX_DIGITS + 1 - j,
    {
        if !is_digit_exec(text.get_char(i + j)) {
            assert(!is_digit(text@[i + j]));
            return false;
        }
        j = j + 1;
    }
    true
}

/// Whether `text` holds more than `MAX_DIGITS` digits in a row.
fn has_long_number(text: &str, n: usize) -> (r: bool)
    requires
        n == text@.len(),
    ensures
        r == exists|i: int| long_number_at(text@, i),
{
    let mut i: usize = 0;
    while i < n
        invariant
            n == text@.len(),
            forall|k: int| 0 <= k < i ==> !long_number_at(text@, k),
        decreases n - i,
    {
        if long_number_at_exec(text, n, i) {
            return true;
        }
        i = i + 1;
    }
    assert forall|k: int| !long_number_at(text@, k) by {
        if 0 <= k && k >= n {
            assert(!(k + MAX_DIGITS + 1 <= text@.len()));
        }
    }
    false
}

/// Whether `text` is handed to the date reader.
pub fn date_text_admitted(text: &str) -> (r: bool)
    ensures
        r == admitted_date_text(text@),
{
    let n = text.unicode_len();
    if n > MAX_DATE_TEXT {
        return false;
    }
    let mut i: usize = 0;
    while i < n
        invariant
            n == text@.len(),
            forall|k: int| 0 <= k < i ==> (#[trigger] text@[k] as u32) < 128,
        decreases n - i,
    {
        if text.get_char(i) as u32 >= 128 {
            return false;
        }
        i = i + 1;
    }
    let words: Vec<Vec<char>> = vec![
        vec!['m', 'o', 'n', 't', 'h'],
        vec!['y', 'e', 'a', 'r'],
        vec!['t', 'h', 'o', 'u', 's', 'a', 'n', 'd'],
        vec!['m', 'i', 'l', 'l', 'i', 'o', 'n'],
        vec!['b', 'i', 'l', 'l', 'i', 'o', 'n'],
    ];
    assert(words@.len() == refused_words().len());
    assert(forall|k: int| 0 <= k < 5 ==> (#[trigger] words@[k])@ == refused_words()[k]);
    let mut k: usize = 0;
    while k < words.len()
        invariant
            n == text@.len(),
            words@.len() == refused_words().len(),
            forall|m: int| 0 <= m < 5 ==> (#[trigger] words@[m])@ == refused_words()[m],
            forall|m: int| 0 <= m < k ==> !holds_word(text@, #[trigger] refused_words()[m]),
        decreases words.len() - k,
    {
        if holds_word_exec(text, n, &words[k]) {
            return false;
        }
        k = k + 1;
    }
    !has_long_number(text, n)
}

/// A date that could not be read.
#[derive(Debug, Clone, PartialEq, Eq)]
pub struct DateError {
    pub text: String,
}

/// Reads an optional date written in words. No text gives no date; text
/// that is not admitted, or that cannot be read, gives an error that holds
/// it.
pub fn parse_fuzzy_date(date_string: Option<String>) -> (r: Result<Option<Timestamp>, DateError>)
    ensures
        date_string is None ==> r == Ok::<Option<Timestamp>, DateError>(None),
        date_string matches Some(s) ==> (!admitted_date_text(s@) ==> r == Err::<
            Option<Timestamp>,
            DateError,
        >(DateError { text: s })),
        date_string is Some ==> match r {
            Ok(d) => d matches Some(t) && t.wf(),
            Err(e) => date_string == Some(e.text),
        },
{
    match date_string {
        None => Ok(None),
        Some(text) => {
            if !date_text_admitted(text.as_str()) {
                return Err(DateError { text });
            }
            let kept = text.clone();
            match parse_words(text) {
                Some(t) => Ok(Some(t)),
                None => Err(DateError { text: kept }),
            }
        },
    }
}

} // verus!
