use vstd::prelude::*;

verus! {

/// The characters that separate the words of a command.
pub open spec fn is_blank(c: char) -> bool {
    c == ' ' || c == '\t' || c == '\n' || c == '\r'
}

/// `done`, with `word` added at the end unless it is empty.
pub open spec fn close_word(done: Seq<Seq<char>>, word: Seq<char>) -> Seq<Seq<char>> {
    if word.len() > 0 {
        done.push(word)
    } else {
        done
    }
}

/// The words of `rest` added to `done`, where `word` holds the characters
/// already read of a word not yet closed.
pub open spec fn words_after(rest: Seq<char>, done: Seq<Seq<char>>, word: Seq<char>) -> Seq<
    Seq<char>,
>
    decreases rest.len(),
{
    if rest.len() == 0 {
        close_word(done, word)
    } else if is_blank(rest[0]) {
        words_after(rest.drop_first(), close_word(done, word), Seq::empty())
    } else {
        words_after(rest.drop_first(), done, word.push(rest[0]))
    }
}

/// The maximal runs of non-blank characters of `s`, in order.
pub open spec fn words(s: Seq<char>) -> Seq<Seq<char>> {
    words_after(s, Seq::empty(), Seq::empty())
}

/// A word is not empty and holds no blank.
pub open spec fn is_word(w: Seq<char>) -> bool {
    w.len() > 0 && forall|j: int| 0 <= j < w.len() ==> !is_blank(#[trigger] w[j])
}

proof fn words_after_are_words(rest: Seq<char>, done: Seq<Seq<char>>, word: Seq<char>)
    requires
        forall|i: int| 0 <= i < done.len() ==> is_word(#[trigger] done[i]),
        forall|j: int| 0 <= j < word.len() ==> !is_blank(#[trigger] word[j]),
    ensures
        forall|i: int|
            0 <= i < words_after(rest, done, word).len() ==> is_word(
                #[trigger] words_after(rest, done, word)[i],
            ),
    decreases rest.len(),
{
    let closed = close_word(done, word);
    assert forall|i: int| 0 <= i < closed.len() implies is_word(#[trigger] closed[i]) by {
        if i < done.len() {
            assert(closed[i] == done[i]);
        } else {
            assert(closed[i] == word);
        }
    }
    if rest.len() == 0 {
        assert(words_after(rest, done, word) == closed);
    } else {
        if is_blank(rest[0]) {
            words_after_are_words(rest.drop_first(), closed, Seq::empty());
            assert(words_after(rest, done, word) == words_after(
                rest.drop_first(),
                closed,
                Seq::empty(),
            ));
        } else {
            let longer = word.push(rest[0]);
            assert forall|j: int| 0 <= j < longer.len() implies !is_blank(#[trigger] longer[j]) by {
                if j < word.len() {
                    assert(longer[j] == word[j]);
                }
            }
            words_after_are_words(rest.drop_first(), done, longer);
            assert(words_after(rest, done, word) == words_after(rest.drop_first(), done, longer));
        }
    }
}

/// Every word of a command is a non-empty run of non-blank characters.
pub proof fn words_are_words(s: Seq<char>)
    ensures
        forall|i: int| 0 <= i < words(s).len() ==> is_word(#[trigger] words(s)[i]),
{
    words_after_are_words(s, Seq::empty(), Seq::empty());
}

pub open spec fn texts(v: Seq<String>) -> Seq<Seq<char>> {
    v.map_values(|a: String| a@)
}

/// Reading one more character of `rest` moves it from `rest` into the open word.
proof fn words_step(s: Seq<char>, start: int, i: int, done: Seq<Seq<char>>)
    requires
        0 <= start <= i < s.len(),
        !is_blank(s[i]),
    ensures
        words_after(s.subrange(i, s.len() as int), done, s.subrange(start, i)) == words_after(
            s.subrange(i + 1, s.len() as int),
            done,
            s.subrange(start, i + 1),
        ),
{
    assert(s.subrange(i, s.len() as int).drop_first() =~= s.subrange(i + 1, s.len() as int));
    assert(s.subrange(start, i).push(s[i]) =~= s.subrange(start, i + 1));
}

/// Splits a command into its words, at blanks; no word is empty.
pub fn command_words(command: &str) -> (r: Vec<String>)
    ensures
        texts(r@) == words(command@),
        forall|i: int| 0 <= i < r@.len() ==> is_word(#[trigger] r@[i]@),
{
    let n = command.unicode_len();
    let mut out: Vec<String> = Vec::new();
    let mut start: usize = 0;
    let mut i: usize = 0;
    proof {
        assert(command@.subrange(0, n as int) =~= command@);
        assert(command@.subrange(0, 0) =~= Seq::<char>::empty());
        assert(texts(out@) =~= Seq::<Seq<char>>::empty());
    }
    while i < n
        invariant
            n == command@.len(),
            start <= i <= n,
            words_after(command@.subrange(i as int, n as int), texts(out@), command@.subrange(start as int, i as int))
                == words(command@),
        decreases n - i,
    {
        let c = command.get_char(i);
        if c == ' ' || c == '\t' || c == '\n' || c == '\r' {
            let ghost before = texts(out@);
            let ghost word = command@.subrange(start as int, i as int);
            if start < i {
                let w = String::from_str(command.substring_char(start, i));
                out.push(w);
                proof {
                    assert(texts(out@) =~= before.push(word));
                }
            }
            proof {
                assert(command@.subrange(i as int, n as int).drop_first() =~= command@.subrange(
                    i + 1,
                    n as int,
                ));
                assert(texts(out@) == close_word(before, word));
                assert(command@.subrange(i + 1, i + 1) =~= Seq::<char>::empty());
            }
            i = i + 1;
            start = i;
        } else {
            proof {
                words_step(command@, start as int, i as int, texts(out@));
            }
            i = i + 1;
        }
    }
    if start < n {
        let ghost before = texts(out@);
        let w = String::from_str(command.substring_char(start, n));
        out.push(w);
        proof {
            assert(texts(out@) =~= before.push(command@.subrange(start as int, n as int)));
        }
    }
    proof {
        words_are_words(command@);
        assert forall|i: int| 0 <= i < out@.len() implies is_word(#[trigger] out@[i]@) by {
            assert(texts(out@)[i] == out@[i]@);
        }
    }
    out
}

/// The arguments that run `command` with git in the repository at `path`:
/// `-C`, the path, then the words of the command.
pub fn git_args(path: &str, command: &str) -> (r: Vec<String>)
    ensures
        texts(r@) == seq!["-C"@, path@] + words(command@),
{
    let mut args: Vec<String> = Vec::new();
    args.push(String::from_str("-C"));
    args.push(String::from_str(path));
    let mut rest = command_words(command);
    let ghost first = args@;
    let ghost tail = rest@;
    args.append(&mut rest);
    proof {
        assert(args@ =~= first + tail);
        assert(texts(args@) =~= texts(first) + texts(tail));
        assert(texts(first) =~= seq!["-C"@, path@]);
    }
    args
}

/// `s` without one newline at its end, if it has one.
pub open spec fn trim_newline(s: Seq<char>) -> Seq<char> {
    if s.len() > 0 && s.last() == '\n' {
        s.drop_last()
    } else {
        s
    }
}

/// What a finished git command has to report.
pub struct GitReport {
    /// What it wrote to its standard output, shown as information.
    pub info: Option<String>,
    /// What it wrote to its standard error, shown as an error. It does not
    /// make the command fail.
    pub error: Option<String>,
}

/// The report on a git command that wrote `stdout` and `stderr`: each stream
/// that is not empty is shown, the output without its final newline.
pub fn git_report(stdout: &str, stderr: &str) -> (r: GitReport)
    ensures
        r.info is Some <==> stdout@.len() > 0,
        r.info matches Some(m) ==> m@ == trim_newline(stdout@),
        r.error is Some <==> stderr@.len() > 0,
        r.error matches Some(m) ==> m@ == stderr@,
{
    let n = stdout.unicode_len();
    let info = if n == 0 {
        None
    } else if stdout.get_char(n - 1) == '\n' {
        Some(String::from_str(stdout.substring_char(0, n - 1)))
    } else {
        Some(String::from_str(stdout))
    };
    proof {
        assert(stdout@.subrange(0, n - 1) =~= stdout@.drop_last());
    }
    let error = if stderr.unicode_len() == 0 {
        None
    } else {
        Some(String::from_str(stderr))
    };
    GitReport { info, error }
}

/// Where a synchronisation with a remote stands: it pulls, then pushes.
#[derive(Debug, Clone, Copy, PartialEq, Eq, Structural)]
pub enum SyncStep {
    Pull,
    Push,
    /// Both commands ran.
    Done,
    /// A command could not be started.
    Failed,
}

pub open spec fn pull_command(remote: Seq<char>) -> Seq<char> {
    "pull --ff --no-rebase --no-edit --commit "@ + remote
}

pub open spec fn push_command(remote: Seq<char>) -> Seq<char> {
    "push "@ + remote
}

/// The git command that `step` runs against `remote`; none once finished.
pub fn sync_command(step: SyncStep, remote: &str) -> (r: Option<String>)
    ensures
        step == SyncStep::Pull ==> (r matches Some(c) && c@ == pull_command(remote@)),
        step == SyncStep::Push ==> (r matches Some(c) && c@ == push_command(remote@)),
        step == SyncStep::Done || step == SyncStep::Failed ==> r is None,
{
    match step {
        SyncStep::Pull => {
            let mut c = String::from_str("pull --ff --no-rebase --no-edit --commit ");
            c.append(remote);
            Some(c)
        },
        SyncStep::Push => {
            let mut c = String::from_str("push ");
            c.append(remote);
            Some(c)
        },
        _ => None,
    }
}

/// The step after running the command of `step`, where `launched` says
/// whether git could be started. What git itself reports does not stop the
/// push from being tried; only a command that could not start ends it.
pub fn sync(step: SyncStep, launched: bool) -> (r: SyncStep)
    ensures
        r == (match step {
            SyncStep::Pull => if launched {
                SyncStep::Push
            } else {
                SyncStep::Failed
            },
            SyncStep::Push => if launched {
                SyncStep::Done
            } else {
                SyncStep::Failed
            },
            _ => step,
        }),
{
    match step {
        SyncStep::Pull => if launched {
            SyncStep::Push
        } else {
            SyncStep::Failed
        },
        SyncStep::Push => if launched {
            SyncStep::Done
        } else {
            SyncStep::Failed
        },
        _ => step,
    }
}

} // verus!
