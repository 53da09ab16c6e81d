//! The todo record and the payload that creates or replaces one.

use vstd::prelude::*;

verus! {

/// A stored todo. The table assigns `id` when the row is inserted and never
/// changes it afterwards.
#[derive(Debug, PartialEq, Eq)]
pub struct Model {
    pub id: i32,
    pub title: String,
    pub completed: bool,
}

/// What a client sends to create a todo or to replace one: every field of a
/// record but the id.
#[derive(Debug, PartialEq, Eq)]
pub struct TodoPayload {
    pub title: String,
    pub completed: bool,
}

/// The mathematical value of a [`Model`].
pub struct ModelView {
    pub id: int,
    pub title: Seq<char>,
    pub completed: bool,
}

/// The mathematical value of a [`TodoPayload`].
pub struct TodoPayloadView {
    pub title: Seq<char>,
    pub completed: bool,
}

impl View for Model {
    type V = ModelView;

    open spec fn view(&self) -> ModelView {
        ModelView { id: self.id as int, title: self.title@, completed: self.completed }
    }
}

impl DeepView for Model {
    type V = ModelView;

    open spec fn deep_view(&self) -> ModelView {
        self@
    }
}

impl View for TodoPayload {
    type V = TodoPayloadView;

    open spec fn view(&self) -> TodoPayloadView {
        TodoPayloadView { title: self.title@, completed: self.completed }
    }
}

impl Clone for Model {
    fn clone(&self) -> (copy: Model)
        ensures
            copy@ == self@,
    {
        Model { id: self.id, title: self.title.clone(), completed: self.completed }
    }
}

impl Clone for TodoPayload {
    fn clone(&self) -> (copy: TodoPayload)
        ensures
            copy@ == self@,
    {
        TodoPayload { title: self.title.clone(), completed: self.completed }
    }
}

impl TodoPayloadView {
    /// The record that this payload describes once it is stored under `id`.
    pub open spec fn stored_as(self, id: int) -> ModelView {
        ModelView { id, title: self.title, completed: self.completed }
    }
}

impl Model {
    /// Builds the record that `data` describes under `id`.
    pub fn new(id: i32, data: TodoPayload) -> (row: Model)
        ensures
            row@ == data@.stored_as(id as int),
    {
        Model { id, title: data.title, completed: data.completed }
    }
}

} // verus!
