//! The task file as a sequence of lines, and the two edits that are made to
//! it: replacing one line and deleting a set of lines. Both work on the
//! whole text of the file and give back the whole new text; lines are
//! addressed by their number, counted from 1.

use crate::text::{contains, from_chars, listed, texts, to_chars};
use vstd::prelude::*;
use vstd::string::*;

verus! {

/// The place of the first line feed in `s`, or the length of `s` where it
/// holds none.
pub open spec fn first_newline(s: Seq<char>) -> nat
    decreases s.len(),
{
    if s.len() == 0 || s[0] == '\n' {
        0
    } else {
        1 + first_newline(s.drop_first())
    }
}

/// Whether `line` ends in a carriage return.
pub open spec fn ends_in_cr(line: Seq<char>) -> bool {
    line.len() > 0 && line.last() == '\r'
}

/// `s` without the carriage return at its end, if it ends in one.
pub open spec fn strip_cr(s: Seq<char>) -> Seq<char> {
    if ends_in_cr(s) {
        s.drop_last()
    } else {
        s
    }
}

/// The lines of `s`. A line ends at a line feed, or at a carriage return
/// followed by one; neither belongs to the line. The last line needs no
/// line ending, and nothing follows a final line ending.
pub open spec fn lines_of(s: Seq<char>) -> Seq<Seq<char>>
    decreases s.len(),
{
    if s.len() == 0 {
        Seq::empty()
    } else {
        let n = first_newline(s);
        if n >= s.len() {
            seq![s]
        } else {
            seq![strip_cr(s.take(n as int))] + lines_of(s.skip(n as int + 1))
        }
    }
}

/// The text that holds `lines`, a line feed after each.
pub open spec fn text_of(lines: Seq<Seq<char>>) -> Seq<char>
    decreases lines.len(),
{
    if lines.len() == 0 {
        Seq::empty()
    } else {
        text_of(lines.drop_last()) + lines.last() + seq!['\n']
    }
}

/// The lines whose number, counted from 1, is not among `numbers`, in their
/// order.
pub open spec fn kept_lines(lines: Seq<Seq<char>>, numbers: Seq<usize>) -> Seq<Seq<char>>
    decreases lines.len(),
{
    if lines.len() == 0 {
        Seq::empty()
    } else if listed(numbers, lines.len() as int) {
        kept_lines(lines.drop_last(), numbers)
    } else {
        kept_lines(lines.drop_last(), numbers).push(lines.last())
    }
}

/// How many of the line numbers `1..=n` are not among `numbers`.
pub open spec fn kept_count(numbers: Seq<usize>, n: nat) -> nat
    decreases n,
{
    if n == 0 {
        0
    } else if listed(numbers, n as int) {
        kept_count(numbers, (n - 1) as nat)
    } else {
        kept_count(numbers, (n - 1) as nat) + 1
    }
}

/// `lines` with `content` in place of the line with the given number,
/// counted from 1; `lines` itself where there is no such line.
pub open spec fn changed_lines(lines: Seq<Seq<char>>, number: int, content: Seq<char>) -> Seq<
    Seq<char>,
> {
    if 1 <= number <= lines.len() {
        lines.update(number - 1, content)
    } else {
        lines
    }
}

/// Whether `line` can stand in a file as one line and be read back
/// unchanged: it holds no line feed and does not end in a carriage return.
pub open spec fn is_plain_line(line: Seq<char>) -> bool {
    &&& forall|i: int| 0 <= i < line.len() ==> line[i] != '\n'
    &&& !ends_in_cr(line)
}

/// A stretch of `k` characters without a line feed, followed by a line feed
/// or by the end of `s`, ends at the first line feed of `s`.
proof fn lemma_first_newline(s: Seq<char>, k: int)
    requires
        0 <= k <= s.len(),
        forall|i: int| 0 <= i < k ==> s[i] != '\n',
        k < s.len() ==> s[k] == '\n',
    ensures
        first_newline(s) == k,
    decreases k,
{
    if k > 0 {
        let rest = s.drop_first();
        lemma_first_newline(rest, k - 1);
    }
}

/// The text that holds `lines`, a line feed after each.
pub fn write_lines(lines: &Vec<String>) -> (content: String)
    ensures
        content@ == text_of(texts(lines@)),
{
    let mut content = String::new();
    let mut i: usize = 0;
    while i < lines.len()
        invariant
            i <= lines.len(),
            content@ == text_of(texts(lines@).take(i as int)),
        decreases lines.len() - i,
    {
        proof {
            let upto = texts(lines@).take(i + 1);
            assert(upto.drop_last() =~= texts(lines@).take(i as int));
            reveal_strlit("\n");
        }
        content.append(lines[i].as_str());
        content.append("\n");
        i += 1;
    }
    proof {
        assert(texts(lines@).take(lines.len() as int) =~= texts(lines@));
    }
    content
}

/// The lines of `content`.
pub fn read_lines(content: &str) -> (lines: Vec<String>)
    ensures
        texts(lines@) == lines_of(content@),
{
    let chars = to_chars(content);
    let mut lines: Vec<String> = Vec::new();
    let mut start: usize = 0;
    let mut i: usize = 0;
    proof {
        assert(chars@.skip(0) =~= chars@);
    }
    while i < chars.len()
        invariant
            start <= i <= chars.len(),
            chars@ == content@,
            forall|j: int| start <= j < i ==> chars@[j] != '\n',
            lines_of(chars@) == texts(lines@) + lines_of(chars@.skip(start as int)),
        decreases chars.len() - i,
    {
        if chars[i] == '\n' {
            let end = if i > start && chars[i - 1] == '\r' {
                i - 1
            } else {
                i
            };
            let line = from_chars(&chars, start, end);
            proof {
                let rest = chars@.skip(start as int);
                lemma_first_newline(rest, i - start);
                assert(rest.skip(i - start + 1) =~= chars@.skip(i + 1));
                assert(strip_cr(rest.take(i - start)) =~= line@);
            }
            lines.push(line);
            start = i + 1;
        }
        i += 1;
    }
    if start < chars.len() {
        let line = from_chars(&chars, start, chars.len());
        proof {
            let rest = chars@.skip(start as int);
            lemma_first_newline(rest, rest.len() as int);
        }
        lines.push(line);
    }
    lines
}

/// The text of the file without the lines whose number, counted from 1, is
/// among `line_nr`. The lines that stay keep their content and their order.
pub fn remove_lines(content: &str, line_nr: Vec<usize>) -> (rewritten: String)
    ensures
        rewritten@ == text_of(kept_lines(lines_of(content@), line_nr@)),
{
    let lines = read_lines(content);
    let mut kept: Vec<String> = Vec::new();
    let mut i: usize = 0;
    while i < lines.len()
        invariant
            i <= lines.len(),
            texts(kept@) == kept_lines(texts(lines@).take(i as int), line_nr@),
        decreases lines.len() - i,
    {
        proof {
            let upto = texts(lines@).take(i + 1);
            assert(upto.drop_last() =~= texts(lines@).take(i as int));
        }
        if !contains(&line_nr, i + 1) {
            let line = lines[i].clone();
            kept.push(line);
        }
        i += 1;
    }
    proof {
        assert(texts(lines@).take(lines.len() as int) =~= texts(lines@));
    }
    write_lines(&kept)
}

/// The text of the file with `line_content` in place of the line with the
/// number `line_nr`, counted from 1. Where the file has no such line, its
/// lines are written back as they are.
pub fn change_line(content: &str, line_nr: usize, line_content: &str) -> (rewritten: String)
    ensures
        rewritten@ == text_of(changed_lines(lines_of(content@), line_nr as int, line_content@)),
{
    let mut lines = read_lines(content);
    if 1 <= line_nr && line_nr <= lines.len() {
        let ghost before = texts(lines@);
        lines.set(line_nr - 1, String::from_str(line_content));
        proof {
            assert(texts(lines@) =~= before.update(line_nr - 1, line_content@));
        }
    }
    write_lines(&lines)
}

/// The text that adds `line_content` to a file as one more line.
pub fn export_line(line_content: &str) -> (written: String)
    ensures
        written@ == line_content@ + seq!['\n'],
{
    let mut written = String::from_str(line_content);
    proof {
        reveal_strlit("\n");
    }
    written.append("\n");
    written
}

/// Replacing a line leaves every other line as it was, and the number of
/// lines as well.
pub proof fn lemma_change_keeps_others(lines: Seq<Seq<char>>, number: int, content: Seq<char>)
    ensures
        changed_lines(lines, number, content).len() == lines.len(),
        forall|i: int|
            0 <= i < lines.len() && i != number - 1 ==> #[trigger] changed_lines(
                lines,
                number,
                content,
            )[i] == lines[i],
        1 <= number <= lines.len() ==> changed_lines(lines, number, content)[number - 1]
            == content,
{
}

/// Deleting lines leaves every other line as it was and in its order: of
/// the lines that are not deleted, the one at place `i` stands after the
/// deletion at the place that counts the undeleted lines before it, and
/// nothing else stands in the result.
pub proof fn lemma_remove_keeps_others(lines: Seq<Seq<char>>, numbers: Seq<usize>)
    ensures
        kept_lines(lines, numbers).len() == kept_count(numbers, lines.len()),
        forall|i: int|
            0 <= i < lines.len() && !listed(numbers, i + 1) ==> {
                &&& #[trigger] kept_count(numbers, i as nat) < kept_lines(lines, numbers).len()
                &&& kept_lines(lines, numbers)[kept_count(numbers, i as nat) as int] == lines[i]
            },
    decreases lines.len(),
{
    if lines.len() > 0 {
        let before = lines.drop_last();
        lemma_remove_keeps_others(before, numbers);
    }
}

/// The number of undeleted lines before a line does not shrink as the line
/// moves down, and grows past every undeleted line: deleting keeps the
/// order of what stays.
pub proof fn lemma_kept_count_ascends(numbers: Seq<usize>, i: nat, j: nat)
    requires
        i <= j,
    ensures
        kept_count(numbers, i) <= kept_count(numbers, j),
        i < j && !listed(numbers, i as int + 1) ==> kept_count(numbers, i) < kept_count(numbers, j),
    decreases j,
{
    if i < j {
        lemma_kept_count_ascends(numbers, i, (j - 1) as nat);
    }
}

/// Lines that hold no line feed and do not end in a carriage return are
/// read back from their text as they were written.
pub proof fn lemma_written_lines_read_back(lines: Seq<Seq<char>>)
    requires
        forall|i: int| 0 <= i < lines.len() ==> is_plain_line(#[trigger] lines[i]),
    ensures
        lines_of(text_of(lines)) == lines,
    decreases lines.len(),
{
    if lines.len() > 0 {
        let first = lines[0];
        let rest = lines.drop_first();
        lemma_text_of_split(seq![first], rest);
        assert(seq![first] + rest =~= lines);
        assert(text_of(seq![first].drop_last()) =~= Seq::<char>::empty());
        let text = text_of(lines);
        lemma_first_newline(text, first.len() as int);
        assert(text.take(first.len() as int) =~= first);
        assert(text.skip(first.len() as int + 1) =~= text_of(rest));
        lemma_written_lines_read_back(rest);
    }
}

/// The first line feed of `s` lies within `s`, and no line feed stands
/// before it.
proof fn lemma_before_first_newline(s: Seq<char>)
    ensures
        first_newline(s) <= s.len(),
        forall|i: int| 0 <= i < first_newline(s) ==> s[i] != '\n',
        first_newline(s) < s.len() ==> s[first_newline(s) as int] == '\n',
    decreases s.len(),
{
    if s.len() > 0 && s[0] != '\n' {
        let rest = s.drop_first();
        lemma_before_first_newline(rest);
        assert forall|i: int| 0 <= i < first_newline(s) implies s[i] != '\n' by {
            if i > 0 {
                assert(rest[i - 1] == s[i]);
            }
        }
    }
}

/// No line of a text holds a line feed.
pub proof fn lemma_lines_hold_no_newline(s: Seq<char>)
    ensures
        forall|i: int, j: int|
            0 <= i < lines_of(s).len() && 0 <= j < lines_of(s)[i].len() ==> lines_of(s)[i][j]
                != '\n',
    decreases s.len(),
{
    if s.len() > 0 {
        lemma_before_first_newline(s);
        let n = first_newline(s);
        if n < s.len() {
            let rest = s.skip(n as int + 1);
            lemma_lines_hold_no_newline(rest);
            assert forall|i: int, j: int|
                0 <= i < lines_of(s).len() && 0 <= j < lines_of(s)[i].len() implies lines_of(
                s,
            )[i][j] != '\n' by {
                if i > 0 {
                    assert(lines_of(s)[i] == lines_of(rest)[i - 1]);
                }
            }
        }
    }
}

/// Replacing a line shows in the file as it does in memory: where no line
/// of the file ends in a carriage return and the new line is plain, the
/// lines read back from the new text are the old lines with the one line
/// replaced.
pub proof fn lemma_change_line_read_back(content: Seq<char>, number: int, line: Seq<char>)
    requires
        is_plain_line(line),
        forall|i: int|
            0 <= i < lines_of(content).len() ==> !ends_in_cr(#[trigger] lines_of(content)[i]),
    ensures
        lines_of(text_of(changed_lines(lines_of(content), number, line))) == changed_lines(
            lines_of(content),
            number,
            line,
        ),
{
    lemma_lines_hold_no_newline(content);
    lemma_written_lines_read_back(changed_lines(lines_of(content), number, line));
}

/// Deleting lines shows in the file as it does in memory: where no line of
/// the file ends in a carriage return, the lines read back from the new
/// text are the old lines without the deleted ones.
pub proof fn lemma_remove_lines_read_back(content: Seq<char>, numbers: Seq<usize>)
    requires
        forall|i: int|
            0 <= i < lines_of(content).len() ==> !ends_in_cr(#[trigger] lines_of(content)[i]),
    ensures
        lines_of(text_of(kept_lines(lines_of(content), numbers))) == kept_lines(
            lines_of(content),
            numbers,
        ),
{
    lemma_lines_hold_no_newline(content);
    lemma_kept_lines_are_lines(lines_of(content), numbers);
    lemma_written_lines_read_back(kept_lines(lines_of(content), numbers));
}

/// Every line that stays after a deletion is one of the lines from before.
pub proof fn lemma_kept_lines_are_lines(lines: Seq<Seq<char>>, numbers: Seq<usize>)
    ensures
        forall|k: int|
            0 <= k < kept_lines(lines, numbers).len() ==> exists|i: int|
                0 <= i < lines.len() && !listed(numbers, i + 1) && #[trigger] lines[i]
                    == #[trigger] kept_lines(lines, numbers)[k],
    decreases lines.len(),
{
    if lines.len() > 0 {
        let before = lines.drop_last();
        lemma_kept_lines_are_lines(before, numbers);
        let earlier = kept_lines(before, numbers);
        assert(kept_lines(lines, numbers) == earlier || kept_lines(lines, numbers)
            == earlier.push(lines.last()));
    }
}

/// The text of two runs of lines is the text of the first and then the
/// text of the second.
proof fn lemma_text_of_split(front: Seq<Seq<char>>, back: Seq<Seq<char>>)
    ensures
        text_of(front + back) == text_of(front) + text_of(back),
    decreases back.len(),
{
    if back.len() > 0 {
        lemma_text_of_split(front, back.drop_last());
        assert((front + back).drop_last() =~= front + back.drop_last());
    }
}

} // verus!
