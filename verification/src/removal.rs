//! Removing tasks, one decision at a time.
//!
//! The tasks that were asked for are presented in the order of the list.
//! For each the caller decides: delete it, keep it, or delete it and all
//! that follow. What comes out is the list of line numbers to delete from
//! the task file.

use crate::item::TodoItemView;
use crate::store::Todo;
use crate::text::{contains, listed, same_text};
use vstd::prelude::*;

verus! {

/// What the user decides about one task that is up for removal.
#[derive(Debug, Clone, Copy, PartialEq, Eq, Structural)]
pub enum Decision {
    /// Delete the task.
    Delete,
    /// Keep the task.
    Skip,
    /// Delete the task and every task that is still to come.
    DeleteRest,
}

/// A task that is up for removal.
#[derive(Debug, Clone, Copy, PartialEq, Eq, Structural)]
pub struct Candidate {
    /// The place of the task in the list, counted from 0.
    pub position: usize,
    /// The number of the task's line in the task file, counted from 1.
    pub line: usize,
}

/// The decision that an answer typed at the prompt stands for.
pub open spec fn decision_for(answer: Seq<char>) -> Decision {
    if answer == "y"@ || answer == "yes"@ {
        Decision::Delete
    } else if answer == "a"@ || answer == "all"@ {
        Decision::DeleteRest
    } else {
        Decision::Skip
    }
}

/// The tasks of `tasks` whose `id` is among `ids`, in the order of the
/// list.
pub open spec fn candidates(tasks: Seq<TodoItemView>, ids: Seq<usize>) -> Seq<Candidate>
    decreases tasks.len(),
{
    if tasks.len() == 0 {
        Seq::empty()
    } else if listed(ids, tasks.last().id as int) {
        candidates(tasks.drop_last(), ids).push(
            Candidate {
                position: (tasks.len() - 1) as usize,
                line: tasks.last().line as usize,
            },
        )
    } else {
        candidates(tasks.drop_last(), ids)
    }
}

/// Whether one of `answers` was to delete all that follows.
pub open spec fn takes_rest(answers: Seq<Decision>) -> bool {
    exists|i: int| 0 <= i < answers.len() && #[trigger] answers[i] == Decision::DeleteRest
}

/// The lines to delete once the first of `asked` have been decided as
/// `answers` say. A task is deleted where its answer is not to keep it, or
/// where an earlier answer was to delete all that follows.
pub open spec fn chosen_lines(asked: Seq<Candidate>, answers: Seq<Decision>) -> Seq<usize>
    decreases answers.len(),
{
    if answers.len() == 0 {
        Seq::empty()
    } else {
        let before = answers.drop_last();
        if takes_rest(before) || answers.last() != Decision::Skip {
            chosen_lines(asked, before).push(asked[before.len() as int].line)
        } else {
            chosen_lines(asked, before)
        }
    }
}

impl Decision {
    /// The decision that an answer typed at the prompt stands for: `y` or
    /// `yes` deletes, `a` or `all` deletes the task and the rest, anything
    /// else keeps the task.
    pub fn from_answer(answer: &str) -> (decision: Decision)
        ensures
            decision == decision_for(answer@),
    {
        if same_text(answer, "y") || same_text(answer, "yes") {
            Decision::Delete
        } else if same_text(answer, "a") || same_text(answer, "all") {
            Decision::DeleteRest
        } else {
            Decision::Skip
        }
    }
}

/// A removal in progress: the tasks that were asked for, the decisions
/// taken so far, and the lines to delete that follow from them.
#[derive(Debug)]
pub struct Removal {
    asked: Vec<Candidate>,
    answers: Vec<Decision>,
    delete_all: bool,
    chosen: Vec<usize>,
}

impl Removal {
    #[verifier::type_invariant]
    spec fn consistent(self) -> bool {
        &&& self.answers@.len() <= self.asked@.len()
        &&& self.delete_all == takes_rest(self.answers@)
        &&& self.chosen@ == chosen_lines(self.asked@, self.answers@)
    }

    /// The tasks that are up for removal, in the order of the list.
    pub closed spec fn asked(&self) -> Seq<Candidate> {
        self.asked@
    }

    /// The decisions taken so far, one for each task presented.
    pub closed spec fn answers(&self) -> Seq<Decision> {
        self.answers@
    }

    /// The task to decide next, if there is one left.
    pub fn current(&self) -> (next: Option<Candidate>)
        ensures
            next == if self.answers().len() < self.asked().len() {
                Some(self.asked()[self.answers().len() as int])
            } else {
                None
            },
    {
        proof {
            use_type_invariant(self);
        }
        if self.answers.len() < self.asked.len() {
            Some(self.asked[self.answers.len()])
        } else {
            None
        }
    }

    /// Whether the decision on the next task is still open. Once an answer
    /// was to delete all that follows, it is not: whatever is answered, the
    /// task is deleted.
    pub fn needs_answer(&self) -> (open: bool)
        ensures
            open == !takes_rest(self.answers()),
    {
        proof {
            use_type_invariant(self);
        }
        !self.delete_all
    }

    /// The removal after the decision on the task that
    /// [`Removal::current`] presents. Where no task is left, nothing
    /// changes.
    pub fn resolve(self, decision: Decision) -> (next: Removal)
        ensures
            next.asked() == self.asked(),
            next.answers() == if self.answers().len() < self.asked().len() {
                self.answers().push(decision)
            } else {
                self.answers()
            },
    {
        proof {
            use_type_invariant(&self);
        }
        if self.answers.len() < self.asked.len() {
            let ghost before = self.answers@;
            let line = self.asked[self.answers.len()].line;
            let take = self.delete_all || decision != Decision::Skip;
            let rest = self.delete_all || decision == Decision::DeleteRest;
            proof {
                let after = before.push(decision);
                assert(after.drop_last() =~= before);
            }
            let Removal { asked, mut answers, delete_all: _, mut chosen } = self;
            answers.push(decision);
            if take {
                chosen.push(line);
            }
            Removal { asked, answers, delete_all: rest, chosen }
        } else {
            self
        }
    }

    /// The numbers of the lines to delete, as far as decided.
    pub fn into_lines(self) -> (lines: Vec<usize>)
        ensures
            lines@ == chosen_lines(self.asked(), self.answers()),
    {
        proof {
            use_type_invariant(&self);
        }
        self.chosen
    }
}

impl Todo {
    /// Starts the removal of the tasks whose `id` is among `ids`. No
    /// decision is taken yet.
    pub fn remove(&self, ids: &Vec<usize>) -> (removal: Removal)
        ensures
            removal.asked() == candidates(self@, ids@),
            removal.answers() == Seq::<Decision>::empty(),
    {
        let mut asked: Vec<Candidate> = Vec::new();
        let mut position: usize = 0;
        while position < self.todo_list.len()
            invariant
                position <= self.todo_list.len(),
                asked@ == candidates(self@.take(position as int), ids@),
            decreases self.todo_list.len() - position,
        {
            proof {
                let upto = self@.take(position + 1);
                assert(upto.drop_last() =~= self@.take(position as int));
            }
            let task = &self.todo_list[position];
            if contains(ids, task.id) {
                asked.push(Candidate { position, line: task.line });
            }
            position += 1;
        }
        proof {
            assert(self@.take(self.todo_list.len() as int) =~= self@);
        }
        Removal { asked, answers: Vec::new(), delete_all: false, chosen: Vec::new() }
    }
}

/// Only tasks that were asked for are removed: each candidate is a task of
/// the list whose `id` is among `ids`, and the candidates stand in the
/// order of the list.
pub proof fn lemma_candidates_are_asked(tasks: Seq<TodoItemView>, ids: Seq<usize>)
    requires
        forall|p: int| 0 <= p < tasks.len() ==> (#[trigger] tasks[p]).line <= usize::MAX,
        tasks.len() <= usize::MAX,
    ensures
        forall|k: int|
            0 <= k < candidates(tasks, ids).len() ==> {
                let candidate = #[trigger] candidates(tasks, ids)[k];
                &&& candidate.position < tasks.len()
                &&& listed(ids, tasks[candidate.position as int].id as int)
                &&& candidate.line == tasks[candidate.position as int].line
            },
        forall|j: int, k: int|
            0 <= j < k < candidates(tasks, ids).len() ==> (#[trigger] candidates(
                tasks,
                ids,
            )[j]).position < (#[trigger] candidates(tasks, ids)[k]).position,
    decreases tasks.len(),
{
    if tasks.len() > 0 {
        let before = tasks.drop_last();
        lemma_candidates_are_asked(before, ids);
    }
}

/// Every line that is chosen for deletion is the line of a task that was
/// presented.
pub proof fn lemma_chosen_were_presented(asked: Seq<Candidate>, answers: Seq<Decision>)
    requires
        answers.len() <= asked.len(),
    ensures
        chosen_lines(asked, answers).len() <= answers.len(),
        forall|k: int|
            0 <= k < chosen_lines(asked, answers).len() ==> exists|j: int|
                0 <= j < answers.len() && (#[trigger] asked[j]).line == #[trigger] chosen_lines(
                    asked,
                    answers,
                )[k],
    decreases answers.len(),
{
    if answers.len() > 0 {
        let before = answers.drop_last();
        lemma_chosen_were_presented(asked, before);
    }
}

/// Where every answer is to delete, every task presented is deleted, in
/// the order of the list.
pub proof fn lemma_all_deleted(asked: Seq<Candidate>, answers: Seq<Decision>)
    requires
        answers.len() <= asked.len(),
        forall|i: int| 0 <= i < answers.len() ==> #[trigger] answers[i] != Decision::Skip,
    ensures
        chosen_lines(asked, answers) == Seq::new(answers.len(), |i: int| asked[i].line),
    decreases answers.len(),
{
    if answers.len() > 0 {
        let before = answers.drop_last();
        lemma_all_deleted(asked, before);
    }
}

/// Where every answer is to keep the task, nothing is deleted.
pub proof fn lemma_none_deleted(asked: Seq<Candidate>, answers: Seq<Decision>)
    requires
        forall|i: int| 0 <= i < answers.len() ==> #[trigger] answers[i] == Decision::Skip,
    ensures
        chosen_lines(asked, answers) == Seq::<usize>::empty(),
    decreases answers.len(),
{
    if answers.len() > 0 {
        let before = answers.drop_last();
        lemma_none_deleted(asked, before);
    }
}

} // verus!
