//! The command router: maps raw message text to a bot command by exact
//! prefix comparison, the way the message handler dispatches. Carries its
//! own verified string helpers: prefix test, equality, and trimming.

use vstd::prelude::*;

verus! {

pub const HELP_COMMAND: &'static str = "!help";

pub const TASK_ADD_COMMAND: &'static str = "!task add";

pub const TASK_REMOVE_COMMAND: &'static str = "!task remove";

pub const TASK_LIST_COMMAND: &'static str = "!task list";

pub const POMODORO_START: &'static str = "!pomodoro start";

pub const POMODORO_PAUSE: &'static str = "!pomodoro pause";

pub const POMODORO_CHECK: &'static str = "!pomodoro check";

/// Whitespace as far as trimming is concerned: blank, tab, or line break.
pub open spec fn spec_is_ws(c: char) -> bool {
    c == ' ' || c == '\t' || c == '\n' || c == '\r'
}

/// The sequence with its leading whitespace removed.
pub open spec fn spec_trim_start(s: Seq<char>) -> Seq<char>
    decreases s.len(),
{
    if s.len() > 0 && spec_is_ws(s[0]) {
        spec_trim_start(s.skip(1))
    } else {
        s
    }
}

/// The sequence with its trailing whitespace removed.
pub open spec fn spec_trim_end(s: Seq<char>) -> Seq<char>
    decreases s.len(),
{
    if s.len() > 0 && spec_is_ws(s.last()) {
        spec_trim_end(s.take(s.len() - 1))
    } else {
        s
    }
}

/// The sequence with whitespace removed from both ends.
pub open spec fn spec_trim(s: Seq<char>) -> Seq<char> {
    spec_trim_end(spec_trim_start(s))
}

/// `p` is an exact prefix of `s`.
pub open spec fn spec_has_prefix(s: Seq<char>, p: Seq<char>) -> bool {
    p.len() <= s.len() && s.subrange(0, p.len() as int) == p
}

/// A bot command, as routed from one inbound message. The task commands
/// carry their trimmed argument text; the index of a removal is parsed
/// separately by `parse_task_index`.
#[derive(Debug)]
pub enum Command {
    Help,
    TaskAdd(String),
    TaskRemove(String),
    TaskList,
    PomodoroStart,
    PomodoroPause,
    PomodoroCheck,
    Unknown,
}

fn is_ws(c: char) -> (r: bool)
    ensures
        r == spec_is_ws(c),
{
    c == ' ' || c == '\t' || c == '\n' || c == '\r'
}

/// Whether `p` is an exact prefix of `s`, character by character.
pub fn starts_with(s: &str, p: &str) -> (r: bool)
    ensures
        r == spec_has_prefix(s@, p@),
{
    let sl = s.unicode_len();
    let pl = p.unicode_len();
    if pl > sl {
        return false;
    }
    let mut i: usize = 0;
    while i < pl
        invariant
            i <= pl <= sl,
            sl == s@.len(),
            pl == p@.len(),
            forall|k: int| 0 <= k < i ==> s@[k] == p@[k],
        decreases pl - i,
    {
        if s.get_char(i) != p.get_char(i) {
            proof {
                assert(s@.subrange(0, pl as int)[i as int] == s@[i as int]);
            }
            return false;
        }
        i += 1;
    }
    proof {
        assert(s@.subrange(0, pl as int) =~= p@);
    }
    true
}

/// Whether two strings hold the same characters.
pub fn str_eq(a: &str, b: &str) -> (r: bool)
    ensures
        r == (a@ == b@),
{
    let al = a.unicode_len();
    let bl = b.unicode_len();
    if al != bl {
        return false;
    }
    let mut i: usize = 0;
    while i < al
        invariant
            i <= al,
            al == a@.len(),
            al == b@.len(),
            forall|k: int| 0 <= k < i ==> a@[k] == b@[k],
        decreases al - i,
    {
        if a.get_char(i) != b.get_char(i) {
            return false;
        }
        i += 1;
    }
    proof {
        assert(a@ =~= b@);
    }
    true
}

proof fn lemma_trim_start_skip(s: Seq<char>, i: int)
    requires
        0 <= i <= s.len(),
        forall|k: int| 0 <= k < i ==> spec_is_ws(s[k]),
        i == s.len() || !spec_is_ws(s[i]),
    ensures
        spec_trim_start(s) == s.skip(i),
    decreases i,
{
    if i == 0 {
        assert(s.skip(0) =~= s);
    } else {
        let t = s.skip(1);
        assert(forall|k: int| 0 <= k < i - 1 ==> spec_is_ws(#[trigger] t[k]));
        lemma_trim_start_skip(t, i - 1);
        assert(t.skip(i - 1) =~= s.skip(i));
    }
}

proof fn lemma_trim_end_take(s: Seq<char>, j: int)
    requires
        0 <= j <= s.len(),
        forall|k: int| j <= k < s.len() ==> spec_is_ws(s[k]),
        j == 0 || !spec_is_ws(s[j - 1]),
    ensures
        spec_trim_end(s) == s.take(j),
    decreases s.len() - j,
{
    if j < s.len() {
        let t = s.take(s.len() - 1);
        assert(spec_is_ws(s.last()));
        assert(forall|k: int| j <= k < t.len() ==> spec_is_ws(#[trigger] t[k]));
        lemma_trim_end_take(t, j);
        assert(t.take(j) =~= s.take(j));
    } else {
        if j == 0 {
            assert(s.take(0) =~= s);
        } else {
            assert(!spec_is_ws(s.last()));
            assert(s.take(j) =~= s);
        }
    }
}

/// The string with whitespace removed from both ends.
pub fn trim_str<'a>(s: &'a str) -> (r: &'a str)
    ensures
        r@ == spec_trim(s@),
{
    let len = s.unicode_len();
    let mut start: usize = 0;
    while start < len && is_ws(s.get_char(start))
        invariant
            start <= len,
            len == s@.len(),
            forall|k: int| 0 <= k < start ==> spec_is_ws(s@[k]),
        decreases len - start,
    {
        start += 1;
    }
    let mut end: usize = len;
    while end > start && is_ws(s.get_char(end - 1))
        invariant
            start <= end <= len,
            len == s@.len(),
            forall|k: int| end <= k < len ==> spec_is_ws(s@[k]),
        decreases end,
    {
        end -= 1;
    }
    let r = s.substring_char(start, end);
    proof {
        lemma_trim_start_skip(s@, start as int);
        let t = s@.skip(start as int);
        assert(forall|k: int| end - start <= k < t.len() ==> spec_is_ws(#[trigger] t[k]));
        lemma_trim_end_take(t, end - start);
        assert(t.take(end - start) =~= s@.subrange(start as int, end as int));
    }
    r
}

/// A decimal digit, by code point.
pub open spec fn spec_is_digit(c: char) -> bool {
    48 <= c as int && c as int <= 57
}

/// The value of one decimal digit.
pub open spec fn spec_digit_val(c: char) -> int {
    c as int - 48
}

/// The value of a sequence of decimal digits, most significant first.
pub open spec fn spec_digits_value(s: Seq<char>) -> int
    decreases s.len(),
{
    if s.len() == 0 {
        0
    } else {
        spec_digits_value(s.drop_last()) * 10 + spec_digit_val(s.last())
    }
}

pub open spec fn spec_all_digits(s: Seq<char>) -> bool {
    forall|i: int| 0 <= i < s.len() ==> spec_is_digit(s[i])
}

/// A well-formed task-index numeral: one to eighteen decimal digits, so
/// that its value always fits a signed machine word.
pub open spec fn spec_valid_index(s: Seq<char>) -> bool {
    1 <= s.len() <= 18 && spec_all_digits(s)
}

pub open spec fn spec_pow10(n: nat) -> int
    decreases n,
{
    if n == 0 {
        1
    } else {
        10 * spec_pow10((n - 1) as nat)
    }
}

proof fn lemma_pow10_at_most_18(n: nat)
    requires
        n <= 18,
    ensures
        spec_pow10(n) <= 1000000000000000000,
    decreases 18 - n,
{
    reveal_with_fuel(spec_pow10, 19);
    if n < 18 {
        lemma_pow10_at_most_18(n + 1);
    }
}

/// Parses the argument of a task-removal command: a plain decimal numeral
/// of at most eighteen digits. Returns its value exactly when the text is
/// such a numeral, and nothing otherwise.
pub fn parse_task_index(s: &str) -> (r: Option<i64>)
    ensures
        r is Some <==> spec_valid_index(s@),
        r is Some ==> r->0 as int == spec_digits_value(s@),
{
    let len = s.unicode_len();
    if len == 0 || len > 18 {
        return None;
    }
    let mut acc: i64 = 0;
    let mut i: usize = 0;
    while i < len
        invariant
            i <= len <= 18,
            len == s@.len(),
            spec_all_digits(s@.take(i as int)),
            acc == spec_digits_value(s@.take(i as int)),
            0 <= acc < spec_pow10(i as nat),
        decreases len - i,
    {
        let c = s.get_char(i);
        let cp = c as u32;
        if cp < 48 || cp > 57 {
            proof {
                assert(!spec_is_digit(s@[i as int]));
            }
            return None;
        }
        let d = (cp - 48) as i64;
        proof {
            lemma_pow10_at_most_18((i + 1) as nat);
        }
        acc = acc * 10 + d;
        i += 1;
        proof {
            assert(s@.take(i as int).drop_last() =~= s@.take(i - 1));
            assert(s@.take(i as int).last() == s@[i - 1]);
            assert(forall|k: int|
                0 <= k < i ==> spec_is_digit(#[trigger] s@.take(i as int)[k]));
        }
    }
    proof {
        assert(s@.take(len as int) =~= s@);
    }
    Some(acc)
}

/// Routes one inbound message to a command, the way the handler reads it:
/// a task-add or task-remove prefix wins first and hands on its trimmed
/// argument text, then the exact commands are compared against the
/// trimmed message; anything else is unknown.
pub fn parse_command(content: &str) -> (cmd: Command)
    ensures
        spec_has_prefix(content@, TASK_ADD_COMMAND@) ==> (cmd matches Command::TaskAdd(d)
            && d@ == spec_trim(content@.skip(TASK_ADD_COMMAND@.len() as int))),
        !spec_has_prefix(content@, TASK_ADD_COMMAND@) && spec_has_prefix(
            content@,
            TASK_REMOVE_COMMAND@,
        ) ==> (cmd matches Command::TaskRemove(d) && d@ == spec_trim(
            content@.skip(TASK_REMOVE_COMMAND@.len() as int),
        )),
        !spec_has_prefix(content@, TASK_ADD_COMMAND@) && !spec_has_prefix(
            content@,
            TASK_REMOVE_COMMAND@,
        ) ==> {
            let t = spec_trim(content@);
            &&& t == TASK_LIST_COMMAND@ ==> cmd is TaskList
            &&& t != TASK_LIST_COMMAND@ && t == HELP_COMMAND@ ==> cmd is Help
            &&& t != TASK_LIST_COMMAND@ && t != HELP_COMMAND@ && t == POMODORO_START@
                ==> cmd is PomodoroStart
            &&& t != TASK_LIST_COMMAND@ && t != HELP_COMMAND@ && t != POMODORO_START@ && t
                == POMODORO_PAUSE@ ==> cmd is PomodoroPause
            &&& t != TASK_LIST_COMMAND@ && t != HELP_COMMAND@ && t != POMODORO_START@ && t
                != POMODORO_PAUSE@ && t == POMODORO_CHECK@ ==> cmd is PomodoroCheck
            &&& t != TASK_LIST_COMMAND@ && t != HELP_COMMAND@ && t != POMODORO_START@ && t
                != POMODORO_PAUSE@ && t != POMODORO_CHECK@ ==> cmd is Unknown
        },
{
    if starts_with(content, TASK_ADD_COMMAND) {
        let rest = content.substring_char(
            TASK_ADD_COMMAND.unicode_len(),
            content.unicode_len(),
        );
        Command::TaskAdd(String::from_str(trim_str(rest)))
    } else if starts_with(content, TASK_REMOVE_COMMAND) {
        let rest = content.substring_char(
            TASK_REMOVE_COMMAND.unicode_len(),
            content.unicode_len(),
        );
        Command::TaskRemove(String::from_str(trim_str(rest)))
    } else {
        let t = trim_str(content);
        if str_eq(t, TASK_LIST_COMMAND) {
            Command::TaskList
        } else if str_eq(t, HELP_COMMAND) {
            Command::Help
        } else if str_eq(t, POMODORO_START) {
            Command::PomodoroStart
        } else if str_eq(t, POMODORO_PAUSE) {
            Command::PomodoroPause
        } else if str_eq(t, POMODORO_CHECK) {
            Command::PomodoroCheck
        } else {
            Command::Unknown
        }
    }
}

} // verus!
