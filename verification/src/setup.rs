//! First-run decisions: the settings to start from, and what to do while
//! the task file is missing. Looking at the disk and asking the user is the
//! caller's part; what follows from what it found is decided here.

use crate::config::{ConfigFile, TodoFormatting, TodoPath};
use crate::text::same_text;
use vstd::prelude::*;
use vstd::string::*;

verus! {

/// Why there is no task file to work on.
#[derive(Debug, Clone, Copy, PartialEq, Eq, Structural)]
pub enum DirErrors {
    /// The file is missing and the user did not want it created.
    UserRefused,
}

/// What to do next about the task file.
#[derive(Debug)]
pub enum FileStep {
    /// The file is there: work on it.
    Ready { todo_path: String, todo_filename: String },
    /// The file is missing and wanted: create it, then look again.
    Create,
}

/// What the user wants done about a missing task file.
#[derive(Debug, Clone, Copy, PartialEq, Eq, Structural)]
pub enum FileChoice {
    /// Create the file where the settings place it.
    Create,
    /// Place the file somewhere else.
    Change,
    /// Do nothing.
    Refuse,
}

/// Whether `answer` says yes: `y` or `yes`.
pub open spec fn says_yes(answer: Seq<char>) -> bool {
    answer == "y"@ || answer == "yes"@
}

/// What `answer` asks for about a missing task file: `y` or `yes` to create
/// it, `c` or `change` to place it elsewhere, anything else to do nothing.
pub open spec fn choice_for(answer: Seq<char>) -> FileChoice {
    if says_yes(answer) {
        FileChoice::Create
    } else if answer == "c"@ || answer == "change"@ {
        FileChoice::Change
    } else {
        FileChoice::Refuse
    }
}

/// Whether `answer` is the single letter `y`.
pub fn confirms(answer: &str) -> (yes: bool)
    ensures
        yes == (answer@ == "y"@),
{
    same_text(answer, "y")
}

/// Whether `answer` says yes: `y` or `yes`.
pub fn accepts(answer: &str) -> (yes: bool)
    ensures
        yes == says_yes(answer@),
{
    same_text(answer, "y") || same_text(answer, "yes")
}

impl FileChoice {
    /// What `answer` asks for about a missing task file.
    pub fn from_answer(answer: &str) -> (choice: FileChoice)
        ensures
            choice == choice_for(answer@),
    {
        if accepts(answer) {
            FileChoice::Create
        } else if same_text(answer, "c") || same_text(answer, "change") {
            FileChoice::Change
        } else {
            FileChoice::Refuse
        }
    }
}

impl ConfigFile {
    /// The settings to start from: Markdown checkboxes, in `todo.md` under
    /// the home directory given.
    pub fn init(home: String) -> (conf: ConfigFile)
        ensures
            conf.format.checkbox_style@ == "md"@,
            conf.path.todo_path == home,
            conf.path.todo_filename@ == "todo.md"@,
    {
        ConfigFile {
            format: TodoFormatting { checkbox_style: String::from_str("md") },
            path: TodoPath { todo_path: home, todo_filename: String::from_str("todo.md") },
        }
    }
}

/// Decides what to do next about the task file `todo_filename` under
/// `todo_path`, given whether it is `present` and, where it is not, what the
/// user gave as `answer` when asked whether to create it.
///
/// A file that is present is ready, whatever the answer. A missing file is
/// to be created where the answer is `y`; any other answer refuses.
pub fn ensure_todofile(
    todo_path: String,
    todo_filename: String,
    present: bool,
    answer: &str,
) -> (step: Result<FileStep, DirErrors>)
    ensures
        present ==> step == Ok::<FileStep, DirErrors>(FileStep::Ready { todo_path, todo_filename }),
        !present && answer@ == "y"@ ==> step == Ok::<FileStep, DirErrors>(FileStep::Create),
        !present && answer@ != "y"@ ==> step == Err::<FileStep, DirErrors>(DirErrors::UserRefused),
{
    if present {
        Ok(FileStep::Ready { todo_path, todo_filename })
    } else if confirms(answer) {
        Ok(FileStep::Create)
    } else {
        Err(DirErrors::UserRefused)
    }
}

} // verus!
