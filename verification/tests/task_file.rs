use todo_md_rs::config::{ConfigFile, Dialect, TodoConfig, TodoFormatting, TodoPath};
use todo_md_rs::date::Date;
use todo_md_rs::item::TodoItem;
use todo_md_rs::lines::{change_line, export_line, read_lines, remove_lines};
use todo_md_rs::parse::strings_to_todo;
use todo_md_rs::removal::Decision;
use todo_md_rs::store::Todo;

fn md() -> TodoConfig {
    TodoConfig::for_dialect(Dialect::Markdown)
}

fn sample_lines() -> Vec<String> {
    vec![
        "- [ ] buy milk #errand @alex 2024-01-01".to_string(),
        "not a task".to_string(),
        "- [x] done thing".to_string(),
    ]
}

fn sample_content() -> String {
    "- [ ] buy milk #errand @alex 2024-01-01\nnot a task\n- [x] done thing\n".to_string()
}

fn sample_todo() -> Todo {
    Todo { todo_list: strings_to_todo(sample_lines(), &md()).unwrap() }
}

#[test]
fn parses_the_sample_file() {
    let tasks = strings_to_todo(sample_lines(), &md()).unwrap();
    assert_eq!(tasks.len(), 2);

    assert_eq!(tasks[0].id, 1);
    assert_eq!(tasks[0].line, 1);
    assert!(!tasks[0].is_completed);
    assert_eq!(tasks[0].title, "buy milk");
    assert_eq!(tasks[0].date_due, Date::from_ymd(2024, 1, 1));
    assert!(tasks[0].date_due.is_some());
    assert_eq!(tasks[0].tags, vec!["#errand".to_string()]);
    assert_eq!(tasks[0].names, vec!["@alex".to_string()]);

    assert_eq!(tasks[1].id, 2);
    assert_eq!(tasks[1].line, 3);
    assert!(tasks[1].is_completed);
    assert_eq!(tasks[1].title, "done thing");
    assert_eq!(tasks[1].date_due, None);
    assert!(tasks[1].tags.is_empty());
    assert!(tasks[1].names.is_empty());
}

#[test]
fn reads_the_sample_file_from_its_text() {
    assert_eq!(read_lines(&sample_content()), sample_lines());
}

#[test]
fn completing_a_completed_task_unchecks_it() {
    let conf = md();
    let mut todo = sample_todo();
    let changes = todo.done(&vec![2], &conf);

    assert!(changes.rejected.is_empty());
    assert_eq!(changes.edits.len(), 1);
    assert_eq!(changes.edits[0].position, 1);
    assert_eq!(changes.edits[0].line, 3);
    assert_eq!(changes.edits[0].content, "- [ ] done thing");
    assert!(!todo.todo_list[1].is_completed);
    assert!(!todo.todo_list[0].is_completed);

    let rewritten =
        change_line(&sample_content(), changes.edits[0].line, &changes.edits[0].content);
    assert_eq!(
        rewritten,
        "- [ ] buy milk #errand @alex 2024-01-01\nnot a task\n- [ ] done thing\n"
    );
}

#[test]
fn removing_the_first_task_leaves_the_other_lines() {
    let todo = sample_todo();
    let mut removal = todo.remove(&vec![1]);

    let first = removal.current().unwrap();
    assert_eq!(first.position, 0);
    assert_eq!(first.line, 1);
    assert!(removal.needs_answer());
    removal = removal.resolve(Decision::from_answer("yes"));
    assert_eq!(removal.current(), None);

    let lines = removal.into_lines();
    assert_eq!(lines, vec![1]);

    let rewritten = remove_lines(&sample_content(), lines);
    assert_eq!(rewritten, "not a task\n- [x] done thing\n");

    let tasks = strings_to_todo(read_lines(&rewritten), &md()).unwrap();
    assert_eq!(tasks.len(), 1);
    assert_eq!(tasks[0].id, 1);
    assert_eq!(tasks[0].line, 2);
    assert_eq!(tasks[0].title, "done thing");
    assert!(tasks[0].is_completed);
}

#[test]
fn a_number_out_of_range_changes_nothing() {
    let conf = md();
    let mut todo = sample_todo();
    let before: Vec<String> =
        todo.todo_list.iter().map(|task| TodoItem::get_string(task, &conf)).collect();

    let changes = todo.done(&vec![99], &conf);
    assert_eq!(changes.rejected, vec![99]);
    assert!(changes.edits.is_empty());

    let after: Vec<String> =
        todo.todo_list.iter().map(|task| TodoItem::get_string(task, &conf)).collect();
    assert_eq!(before, after);
    assert!(!todo.todo_list[0].is_completed);
    assert!(todo.todo_list[1].is_completed);
}

#[test]
fn the_configuration_selects_the_dialect() {
    let file = |style: &str| ConfigFile {
        path: TodoPath { todo_path: "/home/me".to_string(), todo_filename: "todo.md".to_string() },
        format: TodoFormatting { checkbox_style: style.to_string() },
    };
    let md = TodoConfig::new(&file("md"));
    assert_eq!(md.completion_style, r"^\s*-\s*\[[ xX]\]");
    assert_eq!(md.completion_done, r"^\s*-\s*\[[^\s]\]");
    assert_eq!(md.date_format, r"(?:^|\s)(\d{4}-\d{2}-\d{2})(?:\s|$)");
    assert_eq!(md.example_todo, "- [ ]");
    assert_eq!(md.example_done, "- [x]");

    let logseq = TodoConfig::new(&file("logseq"));
    assert_eq!(logseq.completion_style, r"^\s*-\s*[A-Z]{4}");
    assert_eq!(logseq.completion_done, r"^\s*-\s*DONE\s");
    assert_eq!(logseq.date_format, r"(?:^|\s)(\d{4}-\d{2}-\d{2})(?:\s|$)");
    assert_eq!(logseq.example_todo, "- TODO");
    assert_eq!(logseq.example_done, "- DONE");

    let fallback = TodoConfig::new(&file("org"));
    assert_eq!(fallback.completion_style, md.completion_style);
    assert_eq!(fallback.completion_done, md.completion_done);
    assert_eq!(fallback.example_todo, "- [ ]");
    assert_eq!(fallback.example_done, "- [x]");
}

#[test]
fn a_style_names_a_dialect_or_none() {
    assert_eq!(Dialect::from_style("md"), Some(Dialect::Markdown));
    assert_eq!(Dialect::from_style("logseq"), Some(Dialect::Logseq));
    assert_eq!(Dialect::from_style("org"), None);
    assert_eq!(Dialect::from_style(""), None);
    assert_eq!(Dialect::from_style("MD"), None);
    assert_eq!(Dialect::from_style("md "), None);
}

#[test]
fn an_added_task_is_read_back_from_the_end_of_the_file() {
    let conf = md();
    let todo = sample_todo();
    let words: Vec<String> =
        ["call", "@zoe", "#phone", "2024-06-07"].iter().map(|word| word.to_string()).collect();
    let added = todo.add(&words, &conf).unwrap();
    assert_eq!(added.item.id, 3);
    assert_eq!(added.line, "- [ ] call 2024-06-07 #phone @zoe");

    let mut content = sample_content();
    content.push_str(&export_line(&added.line));
    let tasks = strings_to_todo(read_lines(&content), &conf).unwrap();
    assert_eq!(tasks.len(), 3);
    assert_eq!(tasks[2].id, added.item.id);
    assert_eq!(tasks[2].line, 4);
    assert_eq!(tasks[2].title, added.item.title);
    assert_eq!(tasks[2].date_due, added.item.date_due);
    assert_eq!(tasks[2].tags, added.item.tags);
    assert_eq!(tasks[2].names, added.item.names);
    assert_eq!(tasks[2].is_completed, added.item.is_completed);
    assert_eq!(tasks[0].title, "buy milk");
    assert_eq!(tasks[1].title, "done thing");
}

#[test]
fn completing_shows_in_the_file_and_in_the_list_alike() {
    let conf = md();
    let mut todo = sample_todo();
    let changes = todo.done(&vec![1, 2], &conf);
    let mut content = sample_content();
    for edit in &changes.edits {
        content = change_line(&content, edit.line, &edit.content);
    }
    assert_eq!(content, "- [x] buy milk 2024-01-01 #errand @alex\nnot a task\n- [ ] done thing\n");

    let read = strings_to_todo(read_lines(&content), &conf).unwrap();
    assert_eq!(read.len(), todo.todo_list.len());
    for (from_file, in_memory) in read.iter().zip(todo.todo_list.iter()) {
        assert_eq!(from_file.id, in_memory.id);
        assert_eq!(from_file.line, in_memory.line);
        assert_eq!(from_file.is_completed, in_memory.is_completed);
        assert_eq!(from_file.title, in_memory.title);
        assert_eq!(from_file.date_due, in_memory.date_due);
        assert_eq!(from_file.tags, in_memory.tags);
        assert_eq!(from_file.names, in_memory.names);
    }
}
