//! The format of a history file: one entry per line, nothing escaped.

use vstd::prelude::*;
use crate::text::{chars_of, lines_view, string_of};

verus! {

/// The number of characters before the first line feed of `s`, or the length
/// of `s` where it has none.
pub open spec fn line_end(s: Seq<char>) -> int
    decreases s.len(),
{
    if s.len() == 0 || s[0] == '\n' {
        0
    } else {
        1 + line_end(s.skip(1))
    }
}

/// `line` without the carriage return at its end, if it has one.
pub open spec fn strip_cr(line: Seq<char>) -> Seq<char> {
    if line.len() > 0 && line.last() == '\r' {
        line.drop_last()
    } else {
        line
    }
}

/// The entries that a file's contents hold. A line feed ends a line, and a
/// carriage return directly before it belongs to the terminator. What follows
/// the last line feed is an entry too, unless it is empty.
pub open spec fn entries_of(contents: Seq<char>) -> Seq<Seq<char>>
    decreases contents.len(),
{
    let end = line_end(contents);
    if contents.len() == 0 {
        Seq::empty()
    } else if 0 <= end < contents.len() {
        seq![strip_cr(contents.take(end))] + entries_of(contents.skip(end + 1))
    } else {
        seq![contents]
    }
}

/// What an entry adds to its file: the text and a line feed.
pub open spec fn line_of(text: Seq<char>) -> Seq<char> {
    text.push('\n')
}

/// The contents are empty or end in a line feed, as every file does that was
/// written entry by entry.
pub open spec fn terminated(contents: Seq<char>) -> bool {
    contents.len() == 0 || contents.last() == '\n'
}

/// The text can be stored: it holds no line feed and does not end in a
/// carriage return, which reading would take for part of the terminator.
pub open spec fn storable(text: Seq<char>) -> bool {
    &&& forall|i: int| 0 <= i < text.len() ==> text[i] != '\n'
    &&& !(text.len() > 0 && text.last() == '\r')
}

/// `line_end` stays inside the sequence and stops at its first line feed.
pub proof fn line_end_bounds(s: Seq<char>)
    ensures
        0 <= line_end(s) <= s.len(),
        line_end(s) < s.len() ==> s[line_end(s)] == '\n',
        forall|i: int| 0 <= i < line_end(s) ==> s[i] != '\n',
    decreases s.len(),
{
    if s.len() == 0 || s[0] == '\n' {
    } else {
        let rest = s.skip(1);
        line_end_bounds(rest);
        assert forall|i: int| 0 <= i < line_end(s) implies s[i] != '\n' by {
            if i > 0 {
                assert(s[i] == rest[i - 1]);
            }
        }
        if line_end(s) < s.len() {
            assert(s[line_end(s)] == rest[line_end(rest)]);
        }
    }
}

/// The first line feed is where `line_end` says: at `end`, if none stands
/// before it.
pub proof fn line_end_is(s: Seq<char>, end: int)
    requires
        0 <= end <= s.len(),
        forall|i: int| 0 <= i < end ==> s[i] != '\n',
        end < s.len() ==> s[end] == '\n',
    ensures
        line_end(s) == end,
{
    line_end_bounds(s);
}

/// Reading goes line by line: behind terminated contents, what follows is
/// read as if it stood alone.
pub proof fn entries_of_concat(head: Seq<char>, tail: Seq<char>)
    requires
        terminated(head),
    ensures
        entries_of(head + tail) == entries_of(head) + entries_of(tail),
    decreases head.len(),
{
    if head.len() == 0 {
        assert(head + tail =~= tail);
        assert(entries_of(head) + entries_of(tail) =~= entries_of(tail));
    } else {
        let whole = head + tail;
        let end = line_end(head);
        line_end_bounds(head);
        assert(end < head.len());
        assert forall|i: int| 0 <= i < end implies whole[i] != '\n' by {
            assert(whole[i] == head[i]);
        }
        assert(whole[end] == head[end]);
        line_end_is(whole, end);
        assert(whole.take(end) =~= head.take(end));
        let rest = head.skip(end + 1);
        assert(whole.skip(end + 1) =~= rest + tail);
        assert(terminated(rest)) by {
            if rest.len() > 0 {
                assert(rest.last() == head.last());
            }
        }
        entries_of_concat(rest, tail);
        assert(entries_of(whole) =~= entries_of(head) + entries_of(tail));
    }
}

/// The line of a storable text reads back as that text alone.
pub proof fn entries_of_line(text: Seq<char>)
    requires
        storable(text),
    ensures
        entries_of(line_of(text)) == seq![text],
{
    let line = line_of(text);
    assert forall|i: int| 0 <= i < text.len() implies line[i] != '\n' by {
        assert(line[i] == text[i]);
    }
    line_end_is(line, text.len() as int);
    assert(line.take(text.len() as int) =~= text);
    assert(line.skip(text.len() as int + 1) =~= Seq::<char>::empty());
    assert(entries_of(Seq::<char>::empty()) =~= Seq::<Seq<char>>::empty());
    assert(entries_of(line) =~= seq![text]);
}

/// An entry written is an entry read: once the line of a storable text is
/// appended to a terminated file, the file reads as before with that text as
/// its newest entry, and the file is terminated again.
pub proof fn append_then_read(contents: Seq<char>, text: Seq<char>)
    requires
        terminated(contents),
        storable(text),
    ensures
        entries_of(contents + line_of(text)) == entries_of(contents).push(text),
        entries_of(contents + line_of(text)).last() == text,
        terminated(contents + line_of(text)),
{
    entries_of_concat(contents, line_of(text));
    entries_of_line(text);
    assert(entries_of(contents) + seq![text] =~= entries_of(contents).push(text));
}

/// Whether `text` can be stored as one entry.
pub fn is_storable(text: &str) -> (ok: bool)
    ensures
        ok == storable(text@),
{
    let chars = chars_of(text);
    let n: usize = chars.len();
    let mut i: usize = 0;
    while i < n
        invariant
            n == chars@.len(),
            chars@ == text@,
            i <= n,
            forall|j: int| 0 <= j < i ==> chars@[j] != '\n',
        decreases n - i,
    {
        if chars[i] == '\n' {
            assert(text@[i as int] == '\n');
            return false;
        }
        i += 1;
    }
    !(n > 0 && chars[n - 1] == '\r')
}

/// The line that stores `text`: the text and a line feed.
pub fn entry_line(text: &str) -> (line: String)
    ensures
        line@ == line_of(text@),
{
    let mut chars = chars_of(text);
    chars.push('\n');
    string_of(&chars)
}

/// Reads the entries out of a file's contents, oldest first.
pub fn parse_entries(contents: &str) -> (entries: Vec<String>)
    ensures
        lines_view(entries@) == entries_of(contents@),
{
    let chars = chars_of(contents);
    let n: usize = chars.len();
    let mut entries: Vec<String> = Vec::new();
    let mut line: Vec<char> = Vec::new();
    let mut start: usize = 0;
    let mut i: usize = 0;
    assert(lines_view(entries@) =~= Seq::<Seq<char>>::empty());
    assert(chars@.skip(0) =~= chars@);
    while i < n
        invariant
            n == chars@.len(),
            start <= i <= n,
            line@ == chars@.subrange(start as int, i as int),
            forall|j: int| start <= j < i ==> chars@[j] != '\n',
            entries_of(chars@) == lines_view(entries@) + entries_of(chars@.skip(start as int)),
        decreases n - i,
    {
        let c = chars[i];
        if c == '\n' {
            let ghost rest = chars@.skip(start as int);
            let ghost before = lines_view(entries@);
            let ghost end = i - start;
            proof {
                line_end_is(rest, end);
                assert(rest.take(end) =~= line@);
                assert(rest.skip(end + 1) =~= chars@.skip(i + 1));
            }
            if line.len() > 0 && line[line.len() - 1] == '\r' {
                line.pop();
            }
            entries.push(string_of(&line));
            line = Vec::new();
            start = i + 1;
            proof {
                assert(lines_view(entries@) =~= before.push(strip_cr(rest.take(end))));
                assert(entries_of(chars@) =~= lines_view(entries@) + entries_of(
                    chars@.skip(start as int),
                ));
            }
        } else {
            line.push(c);
        }
        i += 1;
        assert(line@ =~= chars@.subrange(start as int, i as int));
    }
    let ghost rest = chars@.skip(start as int);
    let ghost before = lines_view(entries@);
    proof {
        assert(rest =~= line@);
        line_end_is(rest, rest.len() as int);
    }
    if line.len() > 0 {
        entries.push(string_of(&line));
        proof {
            assert(lines_view(entries@) =~= before.push(rest));
            assert(entries_of(rest) =~= seq![rest]);
        }
    } else {
        assert(entries_of(rest) =~= Seq::<Seq<char>>::empty());
    }
    assert(lines_view(entries@) =~= entries_of(chars@));
    entries
}

} // verus!
