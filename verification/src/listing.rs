//! How a task is shown in a listing: which pieces of text, in which order.
//! Colour and printing are the caller's.

use crate::date::iso_text;
use crate::item::{TodoItem, TodoItemView};
use crate::store::Todo;
use crate::text::{decimal, decimal_text, join_words, joined, texts};
use vstd::prelude::*;
use vstd::string::*;

verus! {

/// The pieces a task is shown with. After the head, each piece that is
/// there is shown behind a separator.
#[derive(Debug)]
pub struct Listing {
    /// The label, the checkbox, the number and the title of the task.
    pub head: String,
    /// The due date in ISO form, where the task has one.
    pub date: Option<String>,
    /// The tags, joined by single spaces, where the task has any.
    pub tags: Option<String>,
    /// The mentions, joined by single spaces, where the task has any.
    pub names: Option<String>,
    /// Whether the whole is struck through, which it is for a completed
    /// task.
    pub struck: bool,
}

/// What a [`Listing`] holds, as plain values.
pub struct ListingView {
    pub head: Seq<char>,
    pub date: Option<Seq<char>>,
    pub tags: Option<Seq<char>>,
    pub names: Option<Seq<char>>,
    pub struck: bool,
}

impl View for Listing {
    type V = ListingView;

    open spec fn view(&self) -> ListingView {
        ListingView {
            head: self.head@,
            date: match self.date {
                Some(text) => Some(text@),
                None => None,
            },
            tags: match self.tags {
                Some(text) => Some(text@),
                None => None,
            },
            names: match self.names {
                Some(text) => Some(text@),
                None => None,
            },
            struck: self.struck,
        }
    }
}

/// The label in front of a listed task: `prefix` with a colon and a space
/// behind it, or nothing where `prefix` is empty.
pub open spec fn label(prefix: Seq<char>) -> Seq<char> {
    if prefix.len() > 0 {
        prefix + seq![':', ' ']
    } else {
        Seq::empty()
    }
}

/// The checkbox of a listed task.
pub open spec fn checkbox(is_completed: bool) -> Seq<char> {
    if is_completed {
        seq!['[', 'x', ']', ' ']
    } else {
        seq!['[', ' ', ']', ' ']
    }
}

/// `words` joined by single spaces, or `None` where there are none.
pub open spec fn joined_if_any(words: Seq<Seq<char>>) -> Option<Seq<char>> {
    if words.len() > 0 {
        Some(joined(words))
    } else {
        None
    }
}

/// The pieces that `item` is shown with under the label `prefix`.
pub open spec fn listing_of(item: TodoItemView, prefix: Seq<char>) -> ListingView {
    ListingView {
        head: label(prefix) + checkbox(item.is_completed) + seq![' '] + decimal(item.id) + seq![
            ' ',
        ] + item.title,
        date: match item.date_due {
            Some((year, month, day)) => Some(iso_text(year, month, day)),
            None => None,
        },
        tags: joined_if_any(item.tags),
        names: joined_if_any(item.names),
        struck: item.is_completed,
    }
}

/// The words joined by single spaces, or `None` where there are none.
fn join_if_any(words: &Vec<String>) -> (text: Option<String>)
    ensures
        match text {
            Some(text) => joined_if_any(texts(words@)) == Some(text@),
            None => joined_if_any(texts(words@)) is None,
        },
{
    if words.len() > 0 {
        Some(join_words(words))
    } else {
        None
    }
}

impl Todo {
    /// The pieces that `item` is shown with. `prefix` labels the task; an
    /// empty `prefix` leaves the label out.
    pub fn list_single(item: &TodoItem, prefix: &str) -> (shown: Listing)
        ensures
            shown@ == listing_of(item@, prefix@),
    {
        let mut head = String::from_str(prefix);
        proof {
            reveal_strlit(": ");
            reveal_strlit("[x] ");
            reveal_strlit("[ ] ");
            reveal_strlit(" ");
            assert(": "@ =~= seq![':', ' ']);
            assert("[x] "@ =~= seq!['[', 'x', ']', ' ']);
            assert("[ ] "@ =~= seq!['[', ' ', ']', ' ']);
            assert(" "@ =~= seq![' ']);
        }
        if prefix.unicode_len() > 0 {
            head.append(": ");
        }
        if item.is_completed {
            head.append("[x] ");
        } else {
            head.append("[ ] ");
        }
        head.append(" ");
        let number = decimal_text(item.id);
        head.append(number.as_str());
        head.append(" ");
        head.append(item.title.as_str());
        let date = match &item.date_due {
            Some(date) => Some(date.to_iso()),
            None => None,
        };
        Listing {
            head,
            date,
            tags: join_if_any(&item.tags),
            names: join_if_any(&item.names),
            struck: item.is_completed,
        }
    }
}

} // verus!
