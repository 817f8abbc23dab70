//! The settings a run works under: where the task file lives, and the
//! dialect in which task lines are recognised and written.

use crate::text::same_text;
use vstd::prelude::*;
use vstd::string::*;

verus! {

/// Where the task file lives.
#[derive(Debug)]
pub struct TodoPath {
    pub todo_path: String,
    pub todo_filename: String,
}

/// How task lines are written: `"md"` or `"logseq"`.
#[derive(Debug)]
pub struct TodoFormatting {
    pub checkbox_style: String,
}

/// The settings as the configuration file holds them.
#[derive(Debug)]
pub struct ConfigFile {
    pub path: TodoPath,
    pub format: TodoFormatting,
}

/// The two ways of writing a task line.
#[derive(Debug, Clone, Copy, PartialEq, Eq, Structural)]
pub enum Dialect {
    /// `- [ ] task` and `- [x] task`.
    Markdown,
    /// `- TODO task` and `- DONE task`.
    Logseq,
}

/// The patterns and markers of one dialect.
#[derive(Debug)]
pub struct TodoConfig {
    /// Matches a line that holds a task.
    pub completion_style: String,
    /// Matches a task line whose task is completed.
    pub completion_done: String,
    /// Matches a due date and the whitespace around it.
    pub date_format: String,
    /// The marker an open task is written with.
    pub example_todo: String,
    /// The marker a completed task is written with.
    pub example_done: String,
}

/// What a [`TodoConfig`] holds, as plain text.
pub struct TodoConfigView {
    pub completion_style: Seq<char>,
    pub completion_done: Seq<char>,
    pub date_format: Seq<char>,
    pub example_todo: Seq<char>,
    pub example_done: Seq<char>,
}

impl View for TodoConfig {
    type V = TodoConfigView;

    open spec fn view(&self) -> TodoConfigView {
        TodoConfigView {
            completion_style: self.completion_style@,
            completion_done: self.completion_done@,
            date_format: self.date_format@,
            example_todo: self.example_todo@,
            example_done: self.example_done@,
        }
    }
}

impl Clone for TodoPath {
    fn clone(&self) -> (copy: Self)
        ensures
            copy == *self,
    {
        TodoPath {
            todo_path: self.todo_path.clone(),
            todo_filename: self.todo_filename.clone(),
        }
    }
}

impl Clone for TodoFormatting {
    fn clone(&self) -> (copy: Self)
        ensures
            copy == *self,
    {
        TodoFormatting { checkbox_style: self.checkbox_style.clone() }
    }
}

impl Clone for ConfigFile {
    fn clone(&self) -> (copy: Self)
        ensures
            copy == *self,
    {
        ConfigFile { path: self.path.clone(), format: self.format.clone() }
    }
}

impl Clone for TodoConfig {
    fn clone(&self) -> (copy: Self)
        ensures
            copy == *self,
    {
        TodoConfig {
            completion_style: self.completion_style.clone(),
            completion_done: self.completion_done.clone(),
            date_format: self.date_format.clone(),
            example_todo: self.example_todo.clone(),
            example_done: self.example_done.clone(),
        }
    }
}

/// The dialect that a `checkbox_style` names, if it names one.
pub open spec fn named_dialect(style: Seq<char>) -> Option<Dialect> {
    if style == "md"@ {
        Some(Dialect::Markdown)
    } else if style == "logseq"@ {
        Some(Dialect::Logseq)
    } else {
        None
    }
}

/// The dialect a `checkbox_style` selects: the one it names, and Markdown
/// where it names none.
pub open spec fn selected_dialect(style: Seq<char>) -> Dialect {
    match named_dialect(style) {
        Some(dialect) => dialect,
        None => Dialect::Markdown,
    }
}

/// The patterns and markers of `dialect`.
pub open spec fn dialect_config(dialect: Dialect) -> TodoConfigView {
    match dialect {
        Dialect::Markdown => TodoConfigView {
            completion_style: "^\\s*-\\s*\\[[ xX]\\]"@,
            completion_done: "^\\s*-\\s*\\[[^\\s]\\]"@,
            date_format: "(?:^|\\s)(\\d{4}-\\d{2}-\\d{2})(?:\\s|$)"@,
            example_todo: "- [ ]"@,
            example_done: "- [x]"@,
        },
        Dialect::Logseq => TodoConfigView {
            completion_style: "^\\s*-\\s*[A-Z]{4}"@,
            completion_done: "^\\s*-\\s*DONE\\s"@,
            date_format: "(?:^|\\s)(\\d{4}-\\d{2}-\\d{2})(?:\\s|$)"@,
            example_todo: "- TODO"@,
            example_done: "- DONE"@,
        },
    }
}

impl Dialect {
    /// The dialect that `style` names: `"md"` or `"logseq"`.
    pub fn from_style(style: &str) -> (dialect: Option<Dialect>)
        ensures
            dialect == named_dialect(style@),
    {
        if same_text(style, "md") {
            Some(Dialect::Markdown)
        } else if same_text(style, "logseq") {
            Some(Dialect::Logseq)
        } else {
            None
        }
    }
}

impl TodoConfig {
    /// The patterns and markers of `dialect`.
    pub fn for_dialect(dialect: Dialect) -> (conf: TodoConfig)
        ensures
            conf@ == dialect_config(dialect),
    {
        match dialect {
            Dialect::Markdown => TodoConfig {
                completion_style: String::from_str("^\\s*-\\s*\\[[ xX]\\]"),
                completion_done: String::from_str("^\\s*-\\s*\\[[^\\s]\\]"),
                date_format: String::from_str("(?:^|\\s)(\\d{4}-\\d{2}-\\d{2})(?:\\s|$)"),
                example_todo: String::from_str("- [ ]"),
                example_done: String::from_str("- [x]"),
            },
            Dialect::Logseq => TodoConfig {
                completion_style: String::from_str("^\\s*-\\s*[A-Z]{4}"),
                completion_done: String::from_str("^\\s*-\\s*DONE\\s"),
                date_format: String::from_str("(?:^|\\s)(\\d{4}-\\d{2}-\\d{2})(?:\\s|$)"),
                example_todo: String::from_str("- TODO"),
                example_done: String::from_str("- DONE"),
            },
        }
    }

    /// The dialect settings that the configuration file selects. A
    /// `checkbox_style` that names no dialect selects Markdown.
    pub fn new(conf_file: &ConfigFile) -> (conf: TodoConfig)
        ensures
            conf@ == dialect_config(selected_dialect(conf_file.format.checkbox_style@)),
    {
        match Dialect::from_style(conf_file.format.checkbox_style.as_str()) {
            Some(dialect) => TodoConfig::for_dialect(dialect),
            None => TodoConfig::for_dialect(Dialect::Markdown),
        }
    }
}

} // verus!
