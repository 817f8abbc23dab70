//! Adding a task from the words given on the command line.

use crate::config::{TodoConfig, TodoConfigView};
use crate::item::{item_views, line_text, TodoItem, TodoItemView};
use crate::parse::{
    is_task_line, parse_line, parse_lines, patterns_ok, strings_to_todo, ParseError,
};
use crate::store::Todo;
use crate::text::{join_words, joined, texts};
use vstd::prelude::*;
use vstd::string::*;

verus! {

/// A task that was added, and the line to append to the task file for it.
#[derive(Debug)]
pub struct Added {
    pub item: TodoItem,
    pub line: String,
}

/// Why no task could be made of the words given.
#[derive(Debug, Clone, Copy, PartialEq, Eq, Structural)]
pub enum AddError {
    /// One of the patterns that a line is searched with is not a regular
    /// expression.
    InvalidPattern,
    /// The words hold a due date that is not a day of the calendar.
    MalformedDate,
    /// The dialect does not read its own open marker, followed by the
    /// words, as a task.
    NotATask,
    /// The list holds as many tasks as can be numbered.
    ListFull,
}

/// The line that is read to make a task of `words`: the open marker, a
/// space, and the words, joined by single spaces.
pub open spec fn draft_line(conf: TodoConfigView, words: Seq<Seq<char>>) -> Seq<char> {
    conf.example_todo + seq![' '] + joined(words)
}

/// The task that `words` make as the task after `count` others, and the
/// line that stands for it.
pub open spec fn added(count: nat, words: Seq<Seq<char>>, conf: TodoConfigView) -> Result<
    (TodoItemView, Seq<char>),
    AddError,
> {
    let draft = draft_line(conf, words);
    if count >= usize::MAX {
        Err(AddError::ListFull)
    } else if !patterns_ok(conf) {
        Err(AddError::InvalidPattern)
    } else if !is_task_line(conf, draft) {
        Err(AddError::NotATask)
    } else {
        match parse_line(conf, draft, 1, 1) {
            Err(_) => Err(AddError::MalformedDate),
            Ok(read) => {
                let item = TodoItemView { id: count + 1, ..read };
                Ok((item, line_text(item, conf)))
            },
        }
    }
}

/// What a single line is read as.
proof fn lemma_parse_single(conf: TodoConfigView, line: Seq<char>)
    ensures
        parse_lines(conf, seq![line]) == (if is_task_line(conf, line) {
            match parse_line(conf, line, 1, 1) {
                Ok(item) => Ok(seq![item]),
                Err(e) => Err(e),
            }
        } else {
            Ok(Seq::empty())
        }),
{
    let lines = seq![line];
    assert(parse_lines(conf, lines.drop_last()) == Ok::<Seq<TodoItemView>, ParseError>(
        Seq::empty(),
    ));
}

impl Todo {
    /// Makes a task of the words given. The words are read as a task line
    /// of their own, so tags, mentions and a due date among them are found
    /// as in any line. The task gets the number after the last task of the
    /// list; the list itself does not change.
    ///
    /// Hands back the task and the line to append to the task file.
    pub fn add(&self, input_content: &Vec<String>, conf_todo: &TodoConfig) -> (outcome: Result<
        Added,
        AddError,
    >)
        ensures
            match outcome {
                Ok(new) => added(self@.len(), texts(input_content@), conf_todo@) == Ok::<
                    (TodoItemView, Seq<char>),
                    AddError,
                >((new.item@, new.line@)),
                Err(e) => added(self@.len(), texts(input_content@), conf_todo@) == Err::<
                    (TodoItemView, Seq<char>),
                    AddError,
                >(e),
            },
    {
        if self.todo_list.len() == usize::MAX {
            return Err(AddError::ListFull);
        }
        let mut draft = conf_todo.example_todo.clone();
        let words = join_words(input_content);
        proof {
            reveal_strlit(" ");
            assert(" "@ =~= seq![' ']);
        }
        draft.append(" ");
        draft.append(words.as_str());
        let mut lines: Vec<String> = Vec::new();
        lines.push(draft);
        proof {
            assert(texts(lines@) =~= seq![draft_line(conf_todo@, texts(input_content@))]);
            lemma_parse_single(conf_todo@, draft_line(conf_todo@, texts(input_content@)));
        }
        match strings_to_todo(lines, conf_todo) {
            Err(ParseError::InvalidPattern) => Err(AddError::InvalidPattern),
            Err(ParseError::MalformedDate { line: _ }) => Err(AddError::MalformedDate),
            Ok(mut items) => {
                let ghost read = item_views(items@);
                match items.pop() {
                    None => {
                        proof {
                            assert(read.len() == 0);
                        }
                        Err(AddError::NotATask)
                    },
                    Some(mut item) => {
                        proof {
                            assert(read[0] == item@);
                        }
                        item.id = self.todo_list.len() + 1;
                        let line = TodoItem::get_string(&item, conf_todo);
                        Ok(Added { item, line })
                    },
                }
            },
        }
    }
}

} // verus!
