//! One task, and the line of text that stands for it in the task file.

use crate::config::{TodoConfig, TodoConfigView};
use crate::date::{iso_text, Date};
use crate::text::texts;
use vstd::prelude::*;
use vstd::string::*;

verus! {

/// One task of the list.
#[derive(Debug)]
pub struct TodoItem {
    /// The task's number in the list, counted from 1.
    pub id: usize,
    /// The line of the task file that holds the task, counted from 1.
    pub line: usize,
    pub is_completed: bool,
    pub title: String,
    pub date_due: Option<Date>,
    /// The `#word` tokens of the line, in the order they stand in.
    pub tags: Vec<String>,
    /// The `@word` tokens of the line, in the order they stand in.
    pub names: Vec<String>,
}

/// What a [`TodoItem`] holds, as plain values.
pub struct TodoItemView {
    pub id: nat,
    pub line: nat,
    pub is_completed: bool,
    pub title: Seq<char>,
    pub date_due: Option<(int, int, int)>,
    pub tags: Seq<Seq<char>>,
    pub names: Seq<Seq<char>>,
}

impl View for TodoItem {
    type V = TodoItemView;

    open spec fn view(&self) -> TodoItemView {
        TodoItemView {
            id: self.id as nat,
            line: self.line as nat,
            is_completed: self.is_completed,
            title: self.title@,
            date_due: match self.date_due {
                Some(date) => Some(date@),
                None => None,
            },
            tags: texts(self.tags@),
            names: texts(self.names@),
        }
    }
}

/// The views of the tasks in `items`, in order.
pub open spec fn item_views(items: Seq<TodoItem>) -> Seq<TodoItemView> {
    items.map_values(|item: TodoItem| item@)
}

/// The task that holds nothing yet.
pub open spec fn blank_item() -> TodoItemView {
    TodoItemView {
        id: 0,
        line: 0,
        is_completed: false,
        title: Seq::empty(),
        date_due: None,
        tags: Seq::empty(),
        names: Seq::empty(),
    }
}

/// Each of `words` with one space in front of it.
pub open spec fn spaced(words: Seq<Seq<char>>) -> Seq<char>
    decreases words.len(),
{
    if words.len() == 0 {
        Seq::empty()
    } else {
        spaced(words.drop_last()) + seq![' '] + words.last()
    }
}

/// The due date as it stands in a task line: a space and the date in ISO
/// form, or nothing.
pub open spec fn date_part(date: Option<(int, int, int)>) -> Seq<char> {
    match date {
        Some((year, month, day)) => seq![' '] + iso_text(year, month, day),
        None => Seq::empty(),
    }
}

/// The marker that `conf` writes a task of the given state with.
pub open spec fn marker(conf: TodoConfigView, is_completed: bool) -> Seq<char> {
    if is_completed {
        conf.example_done
    } else {
        conf.example_todo
    }
}

/// The line of text for `item`: marker, title, due date, tags and mentions,
/// one space between neighbours.
pub open spec fn line_text(item: TodoItemView, conf: TodoConfigView) -> Seq<char> {
    marker(conf, item.is_completed) + seq![' '] + item.title + date_part(item.date_due) + spaced(
        item.tags,
    ) + spaced(item.names)
}

/// Whether two tasks hold the same state, title, due date, tags and
/// mentions, whatever their numbers and lines.
pub open spec fn same_task(a: TodoItemView, b: TodoItemView) -> bool {
    &&& a.is_completed == b.is_completed
    &&& a.title == b.title
    &&& a.date_due == b.date_due
    &&& a.tags == b.tags
    &&& a.names == b.names
}

/// The place of a task does not show in its line: tasks that differ in
/// number and line only are written alike.
pub proof fn lemma_place_is_not_written(a: TodoItemView, b: TodoItemView, conf: TodoConfigView)
    requires
        same_task(a, b),
    ensures
        line_text(a, conf) == line_text(b, conf),
{
}

/// Appends each of `words` to `line` with one space in front of it.
fn append_spaced(line: &mut String, words: &Vec<String>)
    ensures
        final(line)@ == old(line)@ + spaced(texts(words@)),
{
    let mut i: usize = 0;
    while i < words.len()
        invariant
            i <= words.len(),
            line@ == old(line)@ + spaced(texts(words@).take(i as int)),
        decreases words.len() - i,
    {
        proof {
            let upto = texts(words@).take(i + 1);
            assert(upto.drop_last() =~= texts(words@).take(i as int));
            reveal_strlit(" ");
        }
        line.append(" ");
        line.append(words[i].as_str());
        i += 1;
    }
    proof {
        assert(texts(words@).take(words.len() as int) =~= texts(words@));
    }
}

impl Clone for TodoItem {
    fn clone(&self) -> (copy: Self)
        ensures
            copy@ == self@,
    {
        let tags = self.tags.clone();
        let names = self.names.clone();
        TodoItem {
            id: self.id,
            line: self.line,
            is_completed: self.is_completed,
            title: self.title.clone(),
            date_due: self.date_due,
            tags,
            names,
        }
    }
}

impl TodoItem {
    /// A task that holds nothing yet.
    pub fn new() -> (item: TodoItem)
        ensures
            item@ == blank_item(),
    {
        let item = TodoItem {
            id: 0,
            line: 0,
            is_completed: false,
            title: String::new(),
            date_due: None,
            tags: Vec::new(),
            names: Vec::new(),
        };
        proof {
            assert(texts(item.tags@) =~= Seq::empty());
        }
        item
    }

    /// The line of text that stands for `todoitem` in the dialect of
    /// `conf_todo`.
    pub fn get_string(todoitem: &TodoItem, conf_todo: &TodoConfig) -> (line: String)
        ensures
            line@ == line_text(todoitem@, conf_todo@),
    {
        let mut line = if todoitem.is_completed {
            conf_todo.example_done.clone()
        } else {
            conf_todo.example_todo.clone()
        };
        proof {
            reveal_strlit(" ");
        }
        line.append(" ");
        line.append(todoitem.title.as_str());
        match &todoitem.date_due {
            Some(date) => {
                let iso = date.to_iso();
                line.append(" ");
                line.append(iso.as_str());
            },
            None => {},
        }
        append_spaced(&mut line, &todoitem.tags);
        append_spaced(&mut line, &todoitem.names);
        line
    }
}

} // verus!
