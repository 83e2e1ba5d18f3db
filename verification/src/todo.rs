//! One item of the list, and the form in which it is kept between sessions.

use vstd::prelude::*;

verus! {

/// An item of the list. `editing` says that its edit field is open; it is
/// never kept between sessions.
#[derive(Clone, Debug, PartialEq, Eq)]
pub struct Todo {
    pub text: String,
    pub completed: bool,
    pub editing: bool,
}

/// What a [`Todo`] stands for.
pub struct TodoModel {
    pub text: Seq<char>,
    pub completed: bool,
    pub editing: bool,
}

/// An item as it is kept between sessions: without `editing`.
#[derive(Clone, Debug, PartialEq, Eq)]
pub struct StoredTodo {
    pub text: String,
    pub completed: bool,
}

/// What a [`StoredTodo`] stands for.
pub struct StoredModel {
    pub text: Seq<char>,
    pub completed: bool,
}

impl TodoModel {
    /// A fresh item: not completed, not being edited.
    pub open spec fn new(text: Seq<char>) -> TodoModel {
        TodoModel { text, completed: false, editing: false }
    }

    /// The form in which this item is kept.
    pub open spec fn stored(self) -> StoredModel {
        StoredModel { text: self.text, completed: self.completed }
    }
}

impl StoredModel {
    /// The item that a kept record gives back: never being edited.
    pub open spec fn restored(self) -> TodoModel {
        TodoModel { text: self.text, completed: self.completed, editing: false }
    }
}

impl View for Todo {
    type V = TodoModel;

    open spec fn view(&self) -> TodoModel {
        TodoModel { text: self.text@, completed: self.completed, editing: self.editing }
    }
}

impl View for StoredTodo {
    type V = StoredModel;

    open spec fn view(&self) -> StoredModel {
        StoredModel { text: self.text@, completed: self.completed }
    }
}

/// The items that a list stands for, in order.
pub open spec fn todo_models(todos: Seq<Todo>) -> Seq<TodoModel> {
    todos.map_values(|t: Todo| t@)
}

/// The records that a kept list stands for, in order.
pub open spec fn stored_models(records: Seq<StoredTodo>) -> Seq<StoredModel> {
    records.map_values(|r: StoredTodo| r@)
}

/// The form in which a list is kept: each item's, in order.
pub open spec fn stored_list(todos: Seq<TodoModel>) -> Seq<StoredModel> {
    todos.map_values(|t: TodoModel| t.stored())
}

/// The list that kept records give back: each record's item, in order.
pub open spec fn restored_list(records: Seq<StoredModel>) -> Seq<TodoModel> {
    records.map_values(|r: StoredModel| r.restored())
}

impl Todo {
    /// A fresh item with the given text.
    pub fn new(text: &str) -> (todo: Todo)
        ensures
            todo@ == TodoModel::new(text@),
    {
        Todo { text: text.to_owned(), completed: false, editing: false }
    }

    /// The record under which this item is kept.
    pub fn stored(&self) -> (record: StoredTodo)
        ensures
            record@ == self@.stored(),
    {
        StoredTodo { text: self.text.clone(), completed: self.completed }
    }
}

impl StoredTodo {
    /// The item that this record gives back.
    pub fn restored(&self) -> (todo: Todo)
        ensures
            todo@ == self@.restored(),
    {
        Todo { text: self.text.clone(), completed: self.completed, editing: false }
    }
}

} // verus!
