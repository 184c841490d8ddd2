use vstd::prelude::*;
use vstd::string::StrSliceExecFns;

verus! {

/// The characters of `s` before its first line feed; all of `s` when it holds none.
pub open spec fn before_newline(s: Seq<char>) -> Seq<char>
    decreases s.len(),
{
    if s.len() == 0 {
        s
    } else if s[0] == '\n' {
        Seq::empty()
    } else {
        seq![s[0]] + before_newline(s.drop_first())
    }
}

/// The first line of `s`, as line iteration yields it: absent for empty text;
/// otherwise the text before the first line feed, without the carriage return
/// that ends it when the line feed follows one.
pub open spec fn first_line(s: Seq<char>) -> Option<Seq<char>> {
    if s.len() == 0 {
        None
    } else {
        let raw = before_newline(s);
        if raw.len() < s.len() && raw.len() > 0 && raw.last() == '\r' {
            Some(raw.drop_last())
        } else {
            Some(raw)
        }
    }
}

/// The last character of the first line of `s`, absent when there is no first
/// line or when it is empty.
pub open spec fn last_char_of_first_line_of(s: Seq<char>) -> Option<char> {
    match first_line(s) {
        None => None,
        Some(line) => if line.len() == 0 {
            None
        } else {
            Some(line.last())
        },
    }
}

/// Where the scan stops: when no line feed precedes `end` and `end` is the end
/// of the text or a line feed, the first raw line is the text before `end`.
proof fn lemma_before_newline_prefix(s: Seq<char>, end: int)
    requires
        0 <= end <= s.len(),
        end == s.len() || s[end] == '\n',
        forall|j: int| 0 <= j < end ==> s[j] != '\n',
    ensures
        before_newline(s) == s.subrange(0, end),
    decreases s.len(),
{
    if s.len() == 0 {
        assert(s.subrange(0, end) =~= s);
    } else if end == 0 {
        assert(s.subrange(0, end) =~= Seq::<char>::empty());
    } else {
        let t = s.drop_first();
        assert forall|j: int| 0 <= j < end - 1 implies t[j] != '\n' by {
            assert(s[j + 1] != '\n');
        }
        lemma_before_newline_prefix(t, end - 1);
        assert(s.subrange(0, end) =~= seq![s[0]] + t.subrange(0, end - 1));
    }
}

/// The last character of the first line of `text`, or `None` when the text
/// has no first line or that line is empty.
pub fn last_char_of_first_line(text: &str) -> (r: Option<char>)
    ensures
        r == last_char_of_first_line_of(text@),
{
    let n = text.unicode_len();
    let mut end: usize = 0;
    while end < n
        invariant
            n == text@.len(),
            end <= n,
            forall|j: int| 0 <= j < end ==> text@[j] != '\n',
        ensures
            end <= n,
            end == n || text@[end as int] == '\n',
            forall|j: int| 0 <= j < end ==> text@[j] != '\n',
        decreases n - end,
    {
        if text.get_char(end) == '\n' {
            break;
        }
        end = end + 1;
    }
    proof {
        lemma_before_newline_prefix(text@, end as int);
    }
    if n == 0 || end == 0 {
        return None;
    }
    let last = text.get_char(end - 1);
    if end < n && last == '\r' {
        if end == 1 {
            None
        } else {
            Some(text.get_char(end - 2))
        }
    } else {
        Some(last)
    }
}

} // verus!
