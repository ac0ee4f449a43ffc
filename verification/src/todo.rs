//! The record that the list is made of.

use vstd::prelude::*;
use crate::ident::{fresh_id, is_random_uuid_text};
use crate::timestamp::{now, Timestamp};

verus! {

/// One entry of the list.
///
/// `id` names the record and is never reassigned; `created` is the time the
/// record was made and serves as a sort key only. A record is changed by
/// putting another record with the same `id` in its place.
#[derive(Debug)]
pub struct Todo {
    pub id: String,
    pub title: String,
    pub description: String,
    pub created: Timestamp,
}

/// What a [`Todo`] holds, with each string as the sequence of its characters.
pub struct TodoView {
    pub id: Seq<char>,
    pub title: Seq<char>,
    pub description: Seq<char>,
    pub created: Timestamp,
}

impl View for Todo {
    type V = TodoView;

    open spec fn view(&self) -> TodoView {
        TodoView {
            id: self.id@,
            title: self.title@,
            description: self.description@,
            created: self.created,
        }
    }
}

/// The views of a sequence of records, one for one.
pub open spec fn views(items: Seq<Todo>) -> Seq<TodoView> {
    items.map_values(|t: Todo| t@)
}

impl Clone for Todo {
    fn clone(&self) -> (copy: Self)
        ensures
            copy == *self,
    {
        Todo {
            id: self.id.clone(),
            title: self.title.clone(),
            description: self.description.clone(),
            created: self.created,
        }
    }
}

impl Todo {
    /// Puts a record together from its four parts.
    pub fn from_parts(id: String, title: String, description: String, created: Timestamp) -> (todo:
        Todo)
        ensures
            todo@ == (TodoView { id: id@, title: title@, description: description@, created }),
    {
        Todo { id, title, description, created }
    }

    /// Makes a record with the given texts, a freshly drawn identifier and
    /// the current time.
    ///
    /// The identifier has the shape of a random UUID; that it differs from
    /// every identifier drawn before rests on chance and is not promised.
    pub fn new(title: String, description: String) -> (todo: Todo)
        ensures
            todo@.title == title@,
            todo@.description == description@,
            is_random_uuid_text(todo@.id),
            todo@.created.is_plain(),
    {
        let id = fresh_id();
        let created = now();
        Todo::from_parts(id, title, description, created)
    }

    /// Makes a record with an empty title and an empty description: the
    /// placeholder that the editor starts from.
    pub fn new_empty() -> (todo: Todo)
        ensures
            todo@.title == Seq::<char>::empty(),
            todo@.description == Seq::<char>::empty(),
            is_random_uuid_text(todo@.id),
            todo@.created.is_plain(),
    {
        Todo::new(String::new(), String::new())
    }

    /// A copy of this record with the two texts put in place of its own;
    /// the identifier and the creation time stay.
    pub fn with_texts(&self, title: String, description: String) -> (todo: Todo)
        ensures
            todo@ == (TodoView { title: title@, description: description@, ..self@ }),
    {
        Todo { id: self.id.clone(), title, description, created: self.created }
    }
}

} // verus!
