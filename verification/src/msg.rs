//! What a user can ask of the list.

use crate::text::same_text;
use vstd::prelude::*;

verus! {

/// A request to the list. An index is a position in the whole list, not in
/// what a route shows of it.
#[derive(Clone, Debug, PartialEq, Eq)]
pub enum Msg {
    /// Nothing to do.
    Nop,
    /// The draft of a new item was typed.
    Update(String),
    /// The draft is submitted.
    Create,
    /// The item at this index goes.
    Delete(usize),
    /// The item at this index changes between active and completed.
    Toggle(usize),
    /// Every item is completed; or, if all were, every item is active again.
    ToggleAll,
    /// The completed items go.
    ClearCompleted,
    /// The edit field of the item at this index opens.
    StartEdit(usize),
    /// The text of the item at this index was typed over.
    UpdateItem(usize, String),
    /// The edit field of the item at this index closes.
    CompleteEdit(usize),
}

/// What a [`Msg`] stands for.
pub enum MsgModel {
    Nop,
    Update(Seq<char>),
    Create,
    Delete(int),
    Toggle(int),
    ToggleAll,
    ClearCompleted,
    StartEdit(int),
    UpdateItem(int, Seq<char>),
    CompleteEdit(int),
}

impl View for Msg {
    type V = MsgModel;

    open spec fn view(&self) -> MsgModel {
        match self {
            Msg::Nop => MsgModel::Nop,
            Msg::Update(s) => MsgModel::Update(s@),
            Msg::Create => MsgModel::Create,
            Msg::Delete(i) => MsgModel::Delete(*i as int),
            Msg::Toggle(i) => MsgModel::Toggle(*i as int),
            Msg::ToggleAll => MsgModel::ToggleAll,
            Msg::ClearCompleted => MsgModel::ClearCompleted,
            Msg::StartEdit(i) => MsgModel::StartEdit(*i as int),
            Msg::UpdateItem(i, s) => MsgModel::UpdateItem(*i as int, s@),
            Msg::CompleteEdit(i) => MsgModel::CompleteEdit(*i as int),
        }
    }
}

impl MsgModel {
    /// The index that the request names, if it names one.
    pub open spec fn index(self) -> Option<int> {
        match self {
            MsgModel::Delete(i) => Some(i),
            MsgModel::Toggle(i) => Some(i),
            MsgModel::StartEdit(i) => Some(i),
            MsgModel::UpdateItem(i, _) => Some(i),
            MsgModel::CompleteEdit(i) => Some(i),
            _ => None,
        }
    }

    /// The request that a key pressed in the field for a new item makes:
    /// Enter submits the draft.
    pub open spec fn of_new_todo_key(key: Seq<char>) -> MsgModel {
        if key == "Enter"@ {
            MsgModel::Create
        } else {
            MsgModel::Nop
        }
    }

    /// The request that a key pressed in the edit field of the item at
    /// `index` makes: Enter closes the field.
    pub open spec fn of_edit_key(index: int, key: Seq<char>) -> MsgModel {
        if key == "Enter"@ {
            MsgModel::CompleteEdit(index)
        } else {
            MsgModel::Nop
        }
    }
}

impl Msg {
    /// The index that the request names, if it names one.
    pub fn index(&self) -> (index: Option<usize>)
        ensures
            match index {
                Some(i) => self@.index() == Some(i as int),
                None => self@.index() is None,
            },
    {
        match self {
            Msg::Delete(i) => Some(*i),
            Msg::Toggle(i) => Some(*i),
            Msg::StartEdit(i) => Some(*i),
            Msg::UpdateItem(i, _) => Some(*i),
            Msg::CompleteEdit(i) => Some(*i),
            _ => None,
        }
    }

    /// The request that a key pressed in the field for a new item makes.
    pub fn new_todo_key(key: &str) -> (msg: Msg)
        ensures
            msg@ == MsgModel::of_new_todo_key(key@),
    {
        if same_text(key, "Enter") {
            Msg::Create
        } else {
            Msg::Nop
        }
    }

    /// The request that a key pressed in the edit field of the item at
    /// `index` makes.
    pub fn edit_key(index: usize, key: &str) -> (msg: Msg)
        ensures
            msg@ == MsgModel::of_edit_key(index as int, key@),
    {
        if same_text(key, "Enter") {
            Msg::CompleteEdit(index)
        } else {
            Msg::Nop
        }
    }
}

} // verus!
