//! The task list of one run, and what the user can do with it: add a task,
//! complete or uncheck tasks, remove tasks, list them.
//!
//! Nothing here touches the task file. Each operation changes the list in
//! memory and hands back what has to be written: the lines to replace, the
//! line to append, the lines to delete.

use crate::config::{TodoConfig, TodoConfigView};
use crate::item::{item_views, line_text, TodoItem, TodoItemView};
use crate::text::listed;
use vstd::prelude::*;

verus! {

/// The tasks of one run, in the order of their lines.
pub struct Todo {
    pub todo_list: Vec<TodoItem>,
}

impl View for Todo {
    type V = Seq<TodoItemView>;

    open spec fn view(&self) -> Seq<TodoItemView> {
        item_views(self.todo_list@)
    }
}

/// One line of the task file to replace.
#[derive(Debug)]
pub struct LineEdit {
    /// The place of the task in the list, counted from 0.
    pub position: usize,
    /// The number of the line to replace, counted from 1.
    pub line: usize,
    /// What the line is to hold.
    pub content: String,
}

/// What a [`LineEdit`] holds, as plain values.
pub struct LineEditView {
    pub position: nat,
    pub line: nat,
    pub content: Seq<char>,
}

impl View for LineEdit {
    type V = LineEditView;

    open spec fn view(&self) -> LineEditView {
        LineEditView {
            position: self.position as nat,
            line: self.line as nat,
            content: self.content@,
        }
    }
}

/// The views of `edits`, in order.
pub open spec fn edit_views(edits: Seq<LineEdit>) -> Seq<LineEditView> {
    edits.map_values(|edit: LineEdit| edit@)
}

/// What completing or unchecking a batch of tasks leaves to do.
#[derive(Debug)]
pub struct Changes {
    /// The numbers that name no task, in the order they were given in.
    pub rejected: Vec<usize>,
    /// The lines to replace, in the order to replace them in.
    pub edits: Vec<LineEdit>,
}

/// What a [`Changes`] holds, as plain values.
pub struct ChangesView {
    pub rejected: Seq<usize>,
    pub edits: Seq<LineEditView>,
}

impl View for Changes {
    type V = ChangesView;

    open spec fn view(&self) -> ChangesView {
        ChangesView { rejected: self.rejected@, edits: edit_views(self.edits@) }
    }
}

/// Whether `id` names one of `count` tasks.
pub open spec fn is_valid_id(count: nat, id: usize) -> bool {
    1 <= id <= count
}

/// Those of `ids` that name one of `count` tasks, in their order.
pub open spec fn accepted_ids(count: nat, ids: Seq<usize>) -> Seq<usize>
    decreases ids.len(),
{
    if ids.len() == 0 {
        Seq::empty()
    } else if is_valid_id(count, ids.last()) {
        accepted_ids(count, ids.drop_last()).push(ids.last())
    } else {
        accepted_ids(count, ids.drop_last())
    }
}

/// Those of `ids` that name none of `count` tasks, in their order.
pub open spec fn rejected_ids(count: nat, ids: Seq<usize>) -> Seq<usize>
    decreases ids.len(),
{
    if ids.len() == 0 {
        Seq::empty()
    } else if is_valid_id(count, ids.last()) {
        rejected_ids(count, ids.drop_last())
    } else {
        rejected_ids(count, ids.drop_last()).push(ids.last())
    }
}

/// Those of `ids` that name a task of `tasks` which is completed, or is
/// not, as `is_completed` says; in their order.
pub open spec fn ids_in_state(tasks: Seq<TodoItemView>, ids: Seq<usize>, is_completed: bool) -> Seq<
    usize,
>
    decreases ids.len(),
{
    if ids.len() == 0 {
        Seq::empty()
    } else if is_valid_id(tasks.len(), ids.last()) && tasks[ids.last() - 1].is_completed
        == is_completed {
        ids_in_state(tasks, ids.drop_last(), is_completed).push(ids.last())
    } else {
        ids_in_state(tasks, ids.drop_last(), is_completed)
    }
}

/// Whether `ids` name the task at `position`, counted from 0.
pub open spec fn names(ids: Seq<usize>, position: int) -> bool {
    listed(ids, position + 1)
}

/// `task` in the given state.
pub open spec fn in_state(task: TodoItemView, is_completed: bool) -> TodoItemView {
    TodoItemView { is_completed, ..task }
}

/// `tasks` with each task that `ids` name in the given state.
pub open spec fn with_state(tasks: Seq<TodoItemView>, ids: Seq<usize>, is_completed: bool) -> Seq<
    TodoItemView,
> {
    Seq::new(
        tasks.len(),
        |p: int|
            if names(ids, p) {
                in_state(tasks[p], is_completed)
            } else {
                tasks[p]
            },
    )
}

/// The edit that writes the task at `position` of `tasks` back to its line.
pub open spec fn edit_for(tasks: Seq<TodoItemView>, position: int, conf: TodoConfigView)
    -> LineEditView {
    LineEditView {
        position: position as nat,
        line: tasks[position].line,
        content: line_text(tasks[position], conf),
    }
}

/// The edits that write the tasks that `ids` name back to their lines, one
/// for each of `ids` and in their order.
pub open spec fn edits_for(tasks: Seq<TodoItemView>, ids: Seq<usize>, conf: TodoConfigView) -> Seq<
    LineEditView,
> {
    Seq::new(ids.len(), |k: int| edit_for(tasks, ids[k] - 1, conf))
}

/// What unchecking `ids` makes of `tasks`, and what it leaves to do: every
/// task that `ids` name is open afterwards and is written back, once for
/// each time it is named; the numbers that name no task are rejected.
pub open spec fn unchecked(tasks: Seq<TodoItemView>, ids: Seq<usize>, conf: TodoConfigView) -> (
    Seq<TodoItemView>,
    ChangesView,
) {
    let accepted = accepted_ids(tasks.len(), ids);
    let after = with_state(tasks, accepted, false);
    (
        after,
        ChangesView {
            rejected: rejected_ids(tasks.len(), ids),
            edits: edits_for(after, accepted, conf),
        },
    )
}

/// What completing `ids` makes of `tasks`, and what it leaves to do: the
/// open tasks that `ids` name are completed and written back; then the
/// tasks that `ids` name and that were completed already are unchecked.
pub open spec fn completed(tasks: Seq<TodoItemView>, ids: Seq<usize>, conf: TodoConfigView) -> (
    Seq<TodoItemView>,
    ChangesView,
) {
    let to_check = ids_in_state(tasks, ids, false);
    let to_uncheck = ids_in_state(tasks, ids, true);
    let checked = with_state(tasks, to_check, true);
    let toggled = unchecked(checked, to_uncheck, conf);
    (
        toggled.0,
        ChangesView {
            rejected: rejected_ids(tasks.len(), ids),
            edits: edits_for(checked, to_check, conf) + toggled.1.edits,
        },
    )
}

impl Todo {
    /// The empty list.
    pub fn new() -> (todo: Todo)
        ensures
            todo@ == Seq::<TodoItemView>::empty(),
    {
        let todo = Todo { todo_list: Vec::new() };
        todo
    }

    /// The tasks, in the order of their lines.
    pub fn list_all(&self) -> (tasks: &Vec<TodoItem>)
        ensures
            *tasks == self.todo_list,
    {
        &self.todo_list
    }

    /// Puts each task that `ids` name in the given state and collects the
    /// edits that write them back.
    fn set_state(&mut self, ids: &Vec<usize>, is_completed: bool, conf_todo: &TodoConfig) -> (edits:
        Vec<LineEdit>)
        requires
            forall|k: int| 0 <= k < ids.len() ==> is_valid_id(old(self)@.len(), #[trigger] ids[k]),
        ensures
            final(self)@ == with_state(old(self)@, ids@, is_completed),
            edit_views(edits@) == edits_for(final(self)@, ids@, conf_todo@),
    {
        let mut edits: Vec<LineEdit> = Vec::new();
        let mut k: usize = 0;
        while k < ids.len()
            invariant
                k <= ids.len(),
                self@.len() == old(self)@.len(),
                forall|j: int|
                    0 <= j < ids.len() ==> is_valid_id(old(self)@.len(), #[trigger] ids[j]),
                self@ == with_state(old(self)@, ids@.take(k as int), is_completed),
                edit_views(edits@) == edits_for(self@, ids@.take(k as int), conf_todo@),
            decreases ids.len() - k,
        {
            let position = ids[k] - 1;
            let ghost before = self@;
            let ghost done = ids@.take(k as int);
            let mut task = self.todo_list[position].clone();
            task.is_completed = is_completed;
            let edit = LineEdit {
                position,
                line: task.line,
                content: TodoItem::get_string(&task, conf_todo),
            };
            self.todo_list.set(position, task);
            proof {
                let now = ids@.take(k + 1);
                assert(self@ =~= before.update(
                    position as int,
                    in_state(before[position as int], is_completed),
                ));
                assert forall|p: int| 0 <= p < before.len() implies #[trigger] names(now, p) == (
                names(done, p) || p == position) by {
                    if p == position {
                        assert(now[k as int] == p + 1);
                    }
                }
                assert forall|j: int| 0 <= j < done.len() implies self@[done[j] - 1]
                    == before[done[j] - 1] by {}
                assert(edit_views(edits@.push(edit)) =~= edit_views(edits@).push(edit@));
            }
            edits.push(edit);
            k += 1;
        }
        proof {
            assert(ids@.take(ids.len() as int) =~= ids@);
        }
        edits
    }

    /// Marks the tasks that `ids` name as open.
    ///
    /// A number that names no task is handed back in `rejected` and changes
    /// nothing. Every other number has its task open afterwards and gives
    /// one edit, which writes the task back to its line.
    pub fn uncheck(&mut self, ids: &Vec<usize>, conf_todo: &TodoConfig) -> (changes: Changes)
        ensures
            final(self)@ == unchecked(old(self)@, ids@, conf_todo@).0,
            changes@ == unchecked(old(self)@, ids@, conf_todo@).1,
    {
        let mut rejected: Vec<usize> = Vec::new();
        let mut accepted: Vec<usize> = Vec::new();
        let count = self.todo_list.len();
        let mut k: usize = 0;
        while k < ids.len()
            invariant
                k <= ids.len(),
                count == self@.len(),
                rejected@ == rejected_ids(count as nat, ids@.take(k as int)),
                accepted@ == accepted_ids(count as nat, ids@.take(k as int)),
                forall|j: int|
                    0 <= j < accepted.len() ==> is_valid_id(count as nat, #[trigger] accepted[j]),
            decreases ids.len() - k,
        {
            proof {
                assert(ids@.take(k + 1).drop_last() =~= ids@.take(k as int));
            }
            let id = ids[k];
            if 1 <= id && id <= count {
                accepted.push(id);
            } else {
                rejected.push(id);
            }
            k += 1;
        }
        proof {
            assert(ids@.take(ids.len() as int) =~= ids@);
        }
        let edits = self.set_state(&accepted, false, conf_todo);
        Changes { rejected, edits }
    }

    /// Marks the tasks that `ids` name as completed; a task that is
    /// completed already is unchecked instead.
    ///
    /// A number that names no task is handed back in `rejected` and changes
    /// nothing. The state that decides is the one each task has before the
    /// call. The open tasks are completed and written back first, then the
    /// others unchecked and written back, each group in the order of `ids`.
    pub fn done(&mut self, ids: &Vec<usize>, conf_todo: &TodoConfig) -> (changes: Changes)
        ensures
            final(self)@ == completed(old(self)@, ids@, conf_todo@).0,
            changes@ == completed(old(self)@, ids@, conf_todo@).1,
    {
        let mut rejected: Vec<usize> = Vec::new();
        let mut to_check_off: Vec<usize> = Vec::new();
        let mut to_uncheck: Vec<usize> = Vec::new();
        let count = self.todo_list.len();
        let mut k: usize = 0;
        while k < ids.len()
            invariant
                k <= ids.len(),
                count == self@.len(),
                self@ == old(self)@,
                rejected@ == rejected_ids(count as nat, ids@.take(k as int)),
                to_check_off@ == ids_in_state(self@, ids@.take(k as int), false),
                to_uncheck@ == ids_in_state(self@, ids@.take(k as int), true),
                forall|j: int|
                    0 <= j < to_check_off.len() ==> is_valid_id(
                        count as nat,
                        #[trigger] to_check_off[j],
                    ),
                forall|j: int|
                    0 <= j < to_uncheck.len() ==> is_valid_id(
                        count as nat,
                        #[trigger] to_uncheck[j],
                    ),
            decreases ids.len() - k,
        {
            proof {
                assert(ids@.take(k + 1).drop_last() =~= ids@.take(k as int));
            }
            let id = ids[k];
            if 1 <= id && id <= count {
                if self.todo_list[id - 1].is_completed {
                    to_uncheck.push(id);
                } else {
                    to_check_off.push(id);
                }
            } else {
                rejected.push(id);
            }
            k += 1;
        }
        proof {
            assert(ids@.take(ids.len() as int) =~= ids@);
        }
        let mut edits = self.set_state(&to_check_off, true, conf_todo);
        let ghost first = edit_views(edits@);
        if to_uncheck.len() > 0 {
            let mut toggled = self.uncheck(&to_uncheck, conf_todo);
            proof {
                lemma_accepted_stay(count as nat, to_uncheck@);
                assert(edit_views(edits@ + toggled.edits@) =~= first + edit_views(toggled.edits@));
            }
            edits.append(&mut toggled.edits);
        }
        Changes { rejected, edits }
    }
}

/// Listing is idempotent: two listings of a list that did not change
/// between them hold the same tasks, those of the list in its order.
pub proof fn lemma_list_is_idempotent(todo: Todo, first: Vec<TodoItem>, second: Vec<TodoItem>)
    requires
        first == todo.todo_list,
        second == todo.todo_list,
    ensures
        first == second,
        item_views(first@) == todo@,
{
}

/// Numbers that all name a task are all accepted.
proof fn lemma_accepted_stay(count: nat, ids: Seq<usize>)
    requires
        forall|k: int| 0 <= k < ids.len() ==> is_valid_id(count, #[trigger] ids[k]),
    ensures
        accepted_ids(count, ids) == ids,
        rejected_ids(count, ids) == Seq::<usize>::empty(),
    decreases ids.len(),
{
    if ids.len() > 0 {
        lemma_accepted_stay(count, ids.drop_last());
    }
}

/// The numbers that are accepted all name a task.
proof fn lemma_accepted_are_valid(count: nat, ids: Seq<usize>)
    ensures
        forall|k: int|
            0 <= k < accepted_ids(count, ids).len() ==> is_valid_id(
                count,
                #[trigger] accepted_ids(count, ids)[k],
            ),
    decreases ids.len(),
{
    if ids.len() > 0 {
        lemma_accepted_are_valid(count, ids.drop_last());
        let earlier = accepted_ids(count, ids.drop_last());
        assert(accepted_ids(count, ids) == earlier || accepted_ids(count, ids) == earlier.push(
            ids.last(),
        ));
    }
}

/// Where every task that `ids` name is completed, the completed ones among
/// `ids` are the accepted ones, and none of `ids` names an open task.
proof fn lemma_all_completed(tasks: Seq<TodoItemView>, ids: Seq<usize>)
    requires
        forall|k: int|
            0 <= k < ids.len() && is_valid_id(tasks.len(), #[trigger] ids[k]) ==> tasks[ids[k]
                - 1].is_completed,
    ensures
        ids_in_state(tasks, ids, true) == accepted_ids(tasks.len(), ids),
        ids_in_state(tasks, ids, false) == Seq::<usize>::empty(),
    decreases ids.len(),
{
    if ids.len() > 0 {
        let before = ids.drop_last();
        lemma_all_completed(tasks, before);
    }
}

/// Toggle symmetry: completing tasks that are all completed already does
/// exactly what unchecking them does, to the list and to the task file.
pub proof fn lemma_toggle_symmetry(tasks: Seq<TodoItemView>, ids: Seq<usize>, conf: TodoConfigView)
    requires
        forall|k: int|
            0 <= k < ids.len() && is_valid_id(tasks.len(), #[trigger] ids[k]) ==> tasks[ids[k]
                - 1].is_completed,
    ensures
        completed(tasks, ids, conf) == unchecked(tasks, ids, conf),
{
    lemma_all_completed(tasks, ids);
    let accepted = accepted_ids(tasks.len(), ids);
    lemma_accepted_are_valid(tasks.len(), ids);
    lemma_accepted_stay(tasks.len(), accepted);
}

/// What completing does to each task: a task that `ids` name changes its
/// state, every other task stays as it is, and nothing but the state of a
/// task changes.
pub proof fn lemma_done_toggles(tasks: Seq<TodoItemView>, ids: Seq<usize>, conf: TodoConfigView)
    ensures
        completed(tasks, ids, conf).0.len() == tasks.len(),
        forall|p: int|
            0 <= p < tasks.len() ==> #[trigger] completed(tasks, ids, conf).0[p] == (if names(
                ids,
                p,
            ) {
                in_state(tasks[p], !tasks[p].is_completed)
            } else {
                tasks[p]
            }),
{
    let to_uncheck = ids_in_state(tasks, ids, true);
    lemma_ids_in_state(tasks, ids, false);
    lemma_ids_in_state(tasks, ids, true);
    lemma_accepted_stay(tasks.len(), to_uncheck);
}

/// The numbers picked by state all name a task, and they name exactly the
/// tasks in that state that `ids` name.
proof fn lemma_ids_in_state(tasks: Seq<TodoItemView>, ids: Seq<usize>, is_completed: bool)
    ensures
        forall|k: int|
            0 <= k < ids_in_state(tasks, ids, is_completed).len() ==> is_valid_id(
                tasks.len(),
                #[trigger] ids_in_state(tasks, ids, is_completed)[k],
            ),
        forall|p: int|
            0 <= p < tasks.len() ==> #[trigger] names(ids_in_state(tasks, ids, is_completed), p)
                == (names(ids, p) && tasks[p].is_completed == is_completed),
    decreases ids.len(),
{
    if ids.len() > 0 {
        let before = ids.drop_last();
        lemma_ids_in_state(tasks, before, is_completed);
        let picked = ids_in_state(tasks, ids, is_completed);
        let earlier = ids_in_state(tasks, before, is_completed);
        assert forall|p: int| 0 <= p < tasks.len() implies #[trigger] names(picked, p) == (names(
            ids,
            p,
        ) && tasks[p].is_completed == is_completed) by {
            let wanted = names(ids, p) && tasks[p].is_completed == is_completed;
            if names(picked, p) {
                let i = choose|i: int| 0 <= i < picked.len() && #[trigger] picked[i] == p + 1;
                if i < earlier.len() {
                    assert(names(earlier, p));
                }
            }
            if wanted {
                let i = choose|i: int| 0 <= i < ids.len() && #[trigger] ids[i] == p + 1;
                if i < before.len() {
                    assert(before[i] == p + 1);
                    assert(names(earlier, p));
                    let j = choose|j: int| 0 <= j < earlier.len() && #[trigger] earlier[j] == p + 1;
                    assert(picked[j] == p + 1);
                } else {
                    assert(picked[picked.len() - 1] == p + 1);
                }
            }
        }
    }
}

/// What is written is what the list holds afterwards: each edit of a
/// batch of completions writes a task of the list as it then is, to the
/// line of that task.
pub proof fn lemma_done_writes_the_list(
    tasks: Seq<TodoItemView>,
    ids: Seq<usize>,
    conf: TodoConfigView,
)
    ensures
        forall|k: int|
            0 <= k < completed(tasks, ids, conf).1.edits.len() ==> {
                let edit = #[trigger] completed(tasks, ids, conf).1.edits[k];
                &&& edit.position < tasks.len()
                &&& edit == edit_for(completed(tasks, ids, conf).0, edit.position as int, conf)
            },
{
    let to_check = ids_in_state(tasks, ids, false);
    let to_uncheck = ids_in_state(tasks, ids, true);
    let checked = with_state(tasks, to_check, true);
    let after = completed(tasks, ids, conf).0;
    let edits = completed(tasks, ids, conf).1.edits;
    lemma_ids_in_state(tasks, ids, false);
    lemma_ids_in_state(tasks, ids, true);
    lemma_accepted_stay(tasks.len(), to_uncheck);
    let first = edits_for(checked, to_check, conf);
    assert forall|k: int| 0 <= k < edits.len() implies {
        let edit = #[trigger] edits[k];
        &&& edit.position < tasks.len()
        &&& edit == edit_for(after, edit.position as int, conf)
    } by {}
}

/// Whatever a batch of completions changes in the list, it writes: a task
/// that is not as it was has an edit of its own.
pub proof fn lemma_done_writes_each_change(
    tasks: Seq<TodoItemView>,
    ids: Seq<usize>,
    conf: TodoConfigView,
)
    ensures
        forall|p: int|
            0 <= p < tasks.len() && #[trigger] completed(tasks, ids, conf).0[p] != tasks[p]
                ==> exists|k: int|
                0 <= k < completed(tasks, ids, conf).1.edits.len() && (#[trigger] completed(
                    tasks,
                    ids,
                    conf,
                ).1.edits[k]).position == p,
{
    let to_check = ids_in_state(tasks, ids, false);
    let to_uncheck = ids_in_state(tasks, ids, true);
    let checked = with_state(tasks, to_check, true);
    let after = completed(tasks, ids, conf).0;
    let edits = completed(tasks, ids, conf).1.edits;
    let first = edits_for(checked, to_check, conf);
    let second = edits_for(after, to_uncheck, conf);
    lemma_ids_in_state(tasks, ids, false);
    lemma_ids_in_state(tasks, ids, true);
    lemma_accepted_stay(tasks.len(), to_uncheck);
    lemma_done_toggles(tasks, ids, conf);
    assert forall|p: int| 0 <= p < tasks.len() && #[trigger] after[p] != tasks[p] implies exists|
        k: int,
    |
        0 <= k < edits.len() && (#[trigger] edits[k]).position == p by {
        if tasks[p].is_completed {
            let j = choose|j: int| 0 <= j < to_uncheck.len() && #[trigger] to_uncheck[j] == p + 1;
            assert(edits[first.len() + j] == second[j]);
        } else {
            let j = choose|j: int| 0 <= j < to_check.len() && #[trigger] to_check[j] == p + 1;
            assert(edits[j] == first[j]);
        }
    }
}

/// The numbers that are accepted name the tasks that `ids` name.
proof fn lemma_accepted_name_the_same(count: nat, ids: Seq<usize>)
    ensures
        forall|p: int|
            0 <= p < count ==> #[trigger] names(accepted_ids(count, ids), p) == names(ids, p),
    decreases ids.len(),
{
    if ids.len() > 0 {
        let before = ids.drop_last();
        lemma_accepted_name_the_same(count, before);
        let accepted = accepted_ids(count, ids);
        let earlier = accepted_ids(count, before);
        assert forall|p: int| 0 <= p < count implies #[trigger] names(accepted, p) == names(
            ids,
            p,
        ) by {
            if names(accepted, p) {
                let i = choose|i: int| 0 <= i < accepted.len() && #[trigger] accepted[i] == p + 1;
                if i < earlier.len() {
                    assert(names(earlier, p));
                }
            }
            if names(ids, p) {
                let i = choose|i: int| 0 <= i < ids.len() && #[trigger] ids[i] == p + 1;
                if i < before.len() {
                    assert(before[i] == p + 1);
                    assert(names(earlier, p));
                    let j = choose|j: int| 0 <= j < earlier.len() && #[trigger] earlier[j] == p + 1;
                    assert(accepted[j] == p + 1);
                } else {
                    assert(accepted[accepted.len() - 1] == p + 1);
                }
            }
        }
    }
}

/// What unchecking does to each task: a task that `ids` name is open
/// afterwards, every other task stays as it is, and nothing but the state
/// of a task changes.
pub proof fn lemma_uncheck_opens(tasks: Seq<TodoItemView>, ids: Seq<usize>, conf: TodoConfigView)
    ensures
        unchecked(tasks, ids, conf).0.len() == tasks.len(),
        forall|p: int|
            0 <= p < tasks.len() ==> #[trigger] unchecked(tasks, ids, conf).0[p] == (if names(
                ids,
                p,
            ) {
                in_state(tasks[p], false)
            } else {
                tasks[p]
            }),
{
    lemma_accepted_name_the_same(tasks.len(), ids);
}

} // verus!
