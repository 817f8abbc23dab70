//! From the lines of the task file to the list of tasks.
//!
//! A line holds a task where the dialect's pattern matches it. Its marker,
//! its first due date, its tags and its mentions are taken out of the line;
//! what is left, trimmed, is the title.

use crate::config::{TodoConfig, TodoConfigView};
use crate::date::{date_of, Date};
use crate::item::{item_views, same_task, TodoItem, TodoItemView};
use crate::pattern::{
    all_matches, all_replaced, all_texts, compiles, first_match, first_replaced, first_text,
    has_match, is_match, pattern_compiles, replace_every, replace_first,
};
use crate::text::{texts, trim, trimmed};
use vstd::prelude::*;
use vstd::string::*;

verus! {

/// Why a list of lines could not be read as tasks.
#[derive(Debug, Clone, Copy, PartialEq, Eq, Structural)]
pub enum ParseError {
    /// One of the patterns that the lines are searched with is not a
    /// regular expression.
    InvalidPattern,
    /// The due date of the task in this line, counted from 1, is not a day
    /// of the calendar.
    MalformedDate { line: usize },
}

/// What was found in a task line where a due date may stand.
#[derive(Debug, Clone, Copy, PartialEq, Eq, Structural)]
pub enum DateToken {
    /// The line holds no date.
    Absent,
    /// The line holds this day.
    Valid(Date),
    /// The line holds what looks like a date and is no day of the calendar.
    Malformed,
}

/// The pattern of a tag: `#` and the word behind it.
pub open spec fn tag_pattern() -> Seq<char> {
    "#\\w+"@
}

/// The pattern of a mention: `@` and the word behind it.
pub open spec fn mention_pattern() -> Seq<char> {
    "@\\w+"@
}

/// Whether every pattern that a line is searched with compiles.
pub open spec fn patterns_ok(conf: TodoConfigView) -> bool {
    &&& pattern_compiles(conf.completion_style)
    &&& pattern_compiles(conf.completion_done)
    &&& pattern_compiles(conf.date_format)
    &&& pattern_compiles(tag_pattern())
    &&& pattern_compiles(mention_pattern())
}

/// Whether `line` holds a task.
pub open spec fn is_task_line(conf: TodoConfigView, line: Seq<char>) -> bool {
    has_match(conf.completion_style, line)
}

/// Whether the task in `line` is completed.
pub open spec fn is_done_line(conf: TodoConfigView, line: Seq<char>) -> bool {
    has_match(conf.completion_done, line)
}

/// `line` without its marker: the completed marker where the task is
/// completed, the task marker where it is not.
pub open spec fn without_marker(conf: TodoConfigView, line: Seq<char>) -> Seq<char> {
    if is_done_line(conf, line) {
        first_replaced(conf.completion_done, line, Seq::empty())
    } else {
        first_replaced(conf.completion_style, line, Seq::empty())
    }
}

/// The first due date in `line` with the whitespace around it, if the line
/// holds one.
pub open spec fn date_token(conf: TodoConfigView, line: Seq<char>) -> Option<Seq<char>> {
    first_text(conf.date_format, line)
}

/// `line` without its marker and with one space in place of its first due
/// date.
pub open spec fn without_date(conf: TodoConfigView, line: Seq<char>) -> Seq<char> {
    let rest = without_marker(conf, line);
    if date_token(conf, line) is Some {
        first_replaced(conf.date_format, rest, seq![' '])
    } else {
        rest
    }
}

/// What is left of `line` once marker, due date, tags and mentions are
/// taken out.
pub open spec fn line_rest(conf: TodoConfigView, line: Seq<char>) -> Seq<char> {
    all_replaced(
        mention_pattern(),
        all_replaced(tag_pattern(), without_date(conf, line), Seq::empty()),
        Seq::empty(),
    )
}

/// The task that the task line `line` holds as the task number `id` in
/// line number `line_no`, with the due date given.
pub open spec fn line_item(
    conf: TodoConfigView,
    line: Seq<char>,
    id: nat,
    line_no: nat,
    date_due: Option<(int, int, int)>,
) -> TodoItemView {
    TodoItemView {
        id,
        line: line_no,
        is_completed: is_done_line(conf, line),
        title: trimmed(line_rest(conf, line)),
        date_due,
        tags: all_texts(tag_pattern(), line),
        names: all_texts(mention_pattern(), line),
    }
}

/// The task that the task line `line` holds, as the task number `id` read
/// from line number `line_no`. A due date that is no day of the calendar
/// fails the line.
pub open spec fn parse_line(conf: TodoConfigView, line: Seq<char>, id: nat, line_no: nat) -> Result<
    TodoItemView,
    ParseError,
> {
    match date_token(conf, line) {
        Some(text) => match date_of(text) {
            Some(date) => Ok(line_item(conf, line, id, line_no, Some(date))),
            None => Err(ParseError::MalformedDate { line: line_no as usize }),
        },
        None => Ok(line_item(conf, line, id, line_no, None)),
    }
}

/// The tasks that `lines` hold, in the order of the lines: a task's number
/// is its place among the tasks and its line number its place among the
/// lines, both counted from 1. The first task line with a malformed due
/// date fails the whole list.
pub open spec fn parse_lines(conf: TodoConfigView, lines: Seq<Seq<char>>) -> Result<
    Seq<TodoItemView>,
    ParseError,
>
    decreases lines.len(),
{
    if lines.len() == 0 {
        Ok(Seq::empty())
    } else {
        match parse_lines(conf, lines.drop_last()) {
            Err(e) => Err(e),
            Ok(items) => if is_task_line(conf, lines.last()) {
                match parse_line(conf, lines.last(), items.len() + 1, lines.len()) {
                    Ok(item) => Ok(items.push(item)),
                    Err(e) => Err(e),
                }
            } else {
                Ok(items)
            },
        }
    }
}

/// What `strings_to_todo` returns for what `parse_lines` describes.
pub open spec fn parsed_as(
    result: Result<Vec<TodoItem>, ParseError>,
    expected: Result<Seq<TodoItemView>, ParseError>,
) -> bool {
    match result {
        Ok(items) => expected == Ok::<Seq<TodoItemView>, ParseError>(item_views(items@)),
        Err(e) => expected == Err::<Seq<TodoItemView>, ParseError>(e),
    }
}

/// Puts a task together from what was found in its line. A date that is
/// no day of the calendar fails with the number of the line.
pub fn assemble(
    id: usize,
    line: usize,
    is_completed: bool,
    title: String,
    date: DateToken,
    tags: Vec<String>,
    names: Vec<String>,
) -> (item: Result<TodoItem, ParseError>)
    ensures
        match date {
            DateToken::Malformed => item == Err::<TodoItem, ParseError>(
                ParseError::MalformedDate { line },
            ),
            DateToken::Valid(day) => item == Ok::<TodoItem, ParseError>(
                TodoItem { id, line, is_completed, title, date_due: Some(day), tags, names },
            ),
            DateToken::Absent => item == Ok::<TodoItem, ParseError>(
                TodoItem { id, line, is_completed, title, date_due: None, tags, names },
            ),
        },
{
    let date_due = match date {
        DateToken::Malformed => {
            return Err(ParseError::MalformedDate { line });
        },
        DateToken::Valid(day) => Some(day),
        DateToken::Absent => None,
    };
    Ok(TodoItem { id, line, is_completed, title, date_due, tags, names })
}

/// Whether every pattern that a line is searched with compiles.
fn check_patterns(conf: &TodoConfig) -> (ok: bool)
    ensures
        ok == patterns_ok(conf@),
{
    compiles(conf.completion_style.as_str()) && compiles(conf.completion_done.as_str()) && compiles(
        conf.date_format.as_str(),
    ) && compiles("#\\w+") && compiles("@\\w+")
}

/// Reads the task that the task line `text` holds.
fn read_task(text: &str, conf: &TodoConfig, id: usize, line: usize) -> (item: Result<
    TodoItem,
    ParseError,
>)
    requires
        patterns_ok(conf@),
    ensures
        match item {
            Ok(item) => parse_line(conf@, text@, id as nat, line as nat) == Ok::<
                TodoItemView,
                ParseError,
            >(item@),
            Err(e) => parse_line(conf@, text@, id as nat, line as nat) == Err::<
                TodoItemView,
                ParseError,
            >(e),
        },
{
    proof {
        reveal_strlit("");
        reveal_strlit(" ");
        assert(""@ =~= Seq::<char>::empty());
        assert(" "@ =~= seq![' ']);
    }
    let is_completed = is_match(conf.completion_done.as_str(), text);
    let mut rest = if is_completed {
        replace_first(conf.completion_done.as_str(), text, "")
    } else {
        replace_first(conf.completion_style.as_str(), text, "")
    };
    let date = match first_match(conf.date_format.as_str(), text) {
        Some(token) => {
            rest = replace_first(conf.date_format.as_str(), rest.as_str(), " ");
            match Date::parse(token.as_str()) {
                Some(day) => DateToken::Valid(day),
                None => DateToken::Malformed,
            }
        },
        None => DateToken::Absent,
    };
    let tags = all_matches("#\\w+", text);
    rest = replace_every("#\\w+", rest.as_str(), "");
    let names = all_matches("@\\w+", text);
    rest = replace_every("@\\w+", rest.as_str(), "");
    let title = trim(rest.as_str());
    assemble(id, line, is_completed, title, date, tags, names)
}

/// Reads the tasks that `lines` hold, in the order of the lines.
///
/// Lines that hold no task are passed over. A task's `id` is its place
/// among the tasks, its `line` its place among the lines, both counted from
/// 1. A task line whose due date is not a day of the calendar fails the
/// whole list with the number of the first such line.
pub fn strings_to_todo(lines: Vec<String>, conf_todo: &TodoConfig) -> (tasks: Result<
    Vec<TodoItem>,
    ParseError,
>)
    ensures
        !patterns_ok(conf_todo@) ==> tasks == Err::<Vec<TodoItem>, ParseError>(
            ParseError::InvalidPattern,
        ),
        patterns_ok(conf_todo@) ==> parsed_as(tasks, parse_lines(conf_todo@, texts(lines@))),
{
    if !check_patterns(conf_todo) {
        return Err(ParseError::InvalidPattern);
    }
    let mut item_list: Vec<TodoItem> = Vec::new();
    let mut linecount: usize = 0;
    proof {
        assert(item_views(item_list@) =~= Seq::empty());
    }
    while linecount < lines.len()
        invariant
            linecount <= lines.len(),
            item_list.len() <= linecount,
            patterns_ok(conf_todo@),
            parse_lines(conf_todo@, texts(lines@).take(linecount as int)) == Ok::<
                Seq<TodoItemView>,
                ParseError,
            >(item_views(item_list@)),
        decreases lines.len() - linecount,
    {
        let line = &lines[linecount];
        proof {
            let upto = texts(lines@).take(linecount + 1);
            assert(upto.drop_last() =~= texts(lines@).take(linecount as int));
        }
        if is_match(conf_todo.completion_style.as_str(), line.as_str()) {
            match read_task(line.as_str(), conf_todo, item_list.len() + 1, linecount + 1) {
                Ok(item) => {
                    proof {
                        assert(item_views(item_list@.push(item)) =~= item_views(item_list@).push(
                            item@,
                        ));
                    }
                    item_list.push(item);
                },
                Err(e) => {
                    proof {
                        lemma_error_stays(conf_todo@, texts(lines@), linecount + 1);
                    }
                    return Err(e);
                },
            }
        }
        linecount += 1;
    }
    proof {
        assert(texts(lines@).take(lines.len() as int) =~= texts(lines@));
    }
    Ok(item_list)
}

/// Once the first `n` lines have failed, the whole list fails in the same
/// way.
proof fn lemma_error_stays(conf: TodoConfigView, lines: Seq<Seq<char>>, n: int)
    requires
        0 <= n <= lines.len(),
        parse_lines(conf, lines.take(n)) is Err,
    ensures
        parse_lines(conf, lines) == parse_lines(conf, lines.take(n)),
    decreases lines.len() - n,
{
    if n < lines.len() {
        assert(lines.take(n + 1).drop_last() =~= lines.take(n));
        lemma_error_stays(conf, lines, n + 1);
    } else {
        assert(lines.take(n) =~= lines);
    }
}

/// The tasks follow the lines: the task at place `k` has the number `k + 1`
/// and is what its own line holds; the tasks' lines are task lines and
/// ascend; and every task line has its task.
pub proof fn lemma_tasks_follow_lines(conf: TodoConfigView, lines: Seq<Seq<char>>)
    requires
        parse_lines(conf, lines) is Ok,
    ensures
        ({
            let items = parse_lines(conf, lines)->Ok_0;
            &&& items.len() <= lines.len()
            &&& forall|k: int|
                0 <= k < items.len() ==> {
                    let item = #[trigger] items[k];
                    &&& item.id == k + 1
                    &&& 1 <= item.line <= lines.len()
                    &&& is_task_line(conf, lines[item.line - 1])
                    &&& parse_line(conf, lines[item.line - 1], item.id, item.line) == Ok::<
                        TodoItemView,
                        ParseError,
                    >(item)
                }
            &&& forall|j: int, k: int|
                0 <= j < k < items.len() ==> (#[trigger] items[j]).line < (#[trigger] items[k]).line
            &&& forall|i: int|
                0 <= i < lines.len() && is_task_line(conf, #[trigger] lines[i]) ==> exists|k: int|
                    0 <= k < items.len() && (#[trigger] items[k]).line == i + 1
        }),
    decreases lines.len(),
{
    if lines.len() > 0 {
        let before = lines.drop_last();
        lemma_tasks_follow_lines(conf, before);
        let earlier = parse_lines(conf, before)->Ok_0;
        let items = parse_lines(conf, lines)->Ok_0;
        assert forall|i: int|
            0 <= i < lines.len() && is_task_line(conf, #[trigger] lines[i]) implies exists|k: int|
            0 <= k < items.len() && (#[trigger] items[k]).line == i + 1 by {
            if i < before.len() {
                assert(before[i] == lines[i]);
                let k = choose|k: int|
                    0 <= k < earlier.len() && (#[trigger] earlier[k]).line == i + 1;
                assert(items[k].line == i + 1);
            } else {
                assert(items[items.len() - 1].line == i + 1);
            }
        }
        assert forall|k: int| 0 <= k < items.len() implies {
            let item = #[trigger] items[k];
            &&& item.id == k + 1
            &&& 1 <= item.line <= lines.len()
            &&& is_task_line(conf, lines[item.line - 1])
            &&& parse_line(conf, lines[item.line - 1], item.id, item.line) == Ok::<
                TodoItemView,
                ParseError,
            >(item)
        } by {}
    }
}

/// The place of a line does not show in what is read from it: under
/// whatever number and line number a task line is read, it fails or not
/// alike, and holds the same state, title, due date, tags and mentions.
pub proof fn lemma_place_is_not_read(
    conf: TodoConfigView,
    line: Seq<char>,
    id: nat,
    line_no: nat,
    other_id: nat,
    other_line_no: nat,
)
    ensures
        parse_line(conf, line, id, line_no) is Ok <==> parse_line(
            conf,
            line,
            other_id,
            other_line_no,
        ) is Ok,
        parse_line(conf, line, id, line_no) is Ok ==> same_task(
            parse_line(conf, line, id, line_no)->Ok_0,
            parse_line(conf, line, other_id, other_line_no)->Ok_0,
        ),
{
}

} // verus!
