//! What a page shows of the list: plain values, one for each part of the
//! page, and for each the function that says what it is for a given state.

use crate::app::{all_completed, AppModel};
use crate::route::{AppRoute, FragmentAdapter, FragmentModel};
use crate::todo::TodoModel;
use vstd::prelude::*;

verus! {

/// How a shown item is marked.
#[derive(Clone, Copy, Debug, PartialEq, Eq, Structural)]
pub enum ItemClass {
    /// Its edit field is open.
    Editing,
    /// It is completed, and its edit field is closed.
    Completed,
    /// It is neither.
    Plain,
}

/// An item as the page shows it.
#[derive(Clone, Debug, PartialEq, Eq)]
pub struct TodoItem {
    /// The item's position in the whole list: what requests name.
    pub index: usize,
    pub class: ItemClass,
    pub text: String,
    pub completed: bool,
    /// Whether the edit field is shown; it holds `text`.
    pub editing: bool,
}

/// What a [`TodoItem`] stands for.
pub struct TodoItemModel {
    pub index: int,
    pub class: ItemClass,
    pub text: Seq<char>,
    pub completed: bool,
    pub editing: bool,
}

/// The part of the page that holds the items.
#[derive(Clone, Debug, PartialEq, Eq)]
pub struct MainSection {
    /// The box that completes every item: absent without items, else
    /// checked when every item is completed.
    pub toggle_all: Option<bool>,
    /// The items that the route shows, in the order of the list.
    pub items: Vec<TodoItem>,
}

/// What a [`MainSection`] stands for.
pub struct MainModel {
    pub toggle_all: Option<bool>,
    pub items: Seq<TodoItemModel>,
}

/// A link to the page under one route.
#[derive(Clone, Debug, PartialEq, Eq)]
pub struct FilterLink {
    pub target: FragmentAdapter,
    pub label: String,
    /// Whether the page is shown under this route now.
    pub selected: bool,
}

/// What a [`FilterLink`] stands for.
pub struct FilterLinkModel {
    pub target: FragmentModel,
    pub label: Seq<char>,
    pub selected: bool,
}

/// The part of the page below the items.
#[derive(Clone, Debug, PartialEq, Eq)]
pub struct Footer {
    /// How many items are not completed.
    pub remaining: usize,
    /// One link for each route.
    pub filters: Vec<FilterLink>,
    /// The button that removes the completed items, with their number:
    /// absent where none is completed.
    pub clear_completed: Option<usize>,
}

/// What a [`Footer`] stands for.
pub struct FooterModel {
    pub remaining: nat,
    pub filters: Seq<FilterLinkModel>,
    pub clear_completed: Option<nat>,
}

/// The page: the draft of a new item and, where the list has items, the
/// items and the footer.
#[derive(Clone, Debug, PartialEq, Eq)]
pub struct Page {
    pub value: String,
    pub main: Option<MainSection>,
    pub footer: Option<Footer>,
}

/// What a [`Page`] stands for.
pub struct PageModel {
    pub value: Seq<char>,
    pub main: Option<MainModel>,
    pub footer: Option<FooterModel>,
}

impl View for TodoItem {
    type V = TodoItemModel;

    open spec fn view(&self) -> TodoItemModel {
        TodoItemModel {
            index: self.index as int,
            class: self.class,
            text: self.text@,
            completed: self.completed,
            editing: self.editing,
        }
    }
}

impl View for MainSection {
    type V = MainModel;

    open spec fn view(&self) -> MainModel {
        MainModel {
            toggle_all: self.toggle_all,
            items: self.items@.map_values(|item: TodoItem| item@),
        }
    }
}

impl View for FilterLink {
    type V = FilterLinkModel;

    open spec fn view(&self) -> FilterLinkModel {
        FilterLinkModel { target: self.target@, label: self.label@, selected: self.selected }
    }
}

impl View for Footer {
    type V = FooterModel;

    open spec fn view(&self) -> FooterModel {
        FooterModel {
            remaining: self.remaining as nat,
            filters: self.filters@.map_values(|link: FilterLink| link@),
            clear_completed: match self.clear_completed {
                Some(n) => Some(n as nat),
                None => None,
            },
        }
    }
}

impl View for Page {
    type V = PageModel;

    open spec fn view(&self) -> PageModel {
        PageModel {
            value: self.value@,
            main: match self.main {
                Some(main) => Some(main@),
                None => None,
            },
            footer: match self.footer {
                Some(footer) => Some(footer@),
                None => None,
            },
        }
    }
}

impl ItemClass {
    /// The mark of an item: an open edit field goes before completion.
    pub open spec fn of(todo: TodoModel) -> ItemClass {
        if todo.editing {
            ItemClass::Editing
        } else if todo.completed {
            ItemClass::Completed
        } else {
            ItemClass::Plain
        }
    }

    /// The class name under which the page shows the mark.
    pub open spec fn name(self) -> Seq<char> {
        match self {
            ItemClass::Editing => "editing"@,
            ItemClass::Completed => "completed"@,
            ItemClass::Plain => ""@,
        }
    }

    /// The class name under which the page shows the mark.
    pub fn as_str(&self) -> (name: &'static str)
        ensures
            name@ == self.name(),
    {
        match self {
            ItemClass::Editing => "editing",
            ItemClass::Completed => "completed",
            ItemClass::Plain => "",
        }
    }
}

impl FilterLink {
    /// The class name of the link: `selected` for the route that is shown.
    pub fn class(&self) -> (name: &'static str)
        ensures
            name@ == (if self.selected { "selected"@ } else { ""@ }),
    {
        if self.selected {
            "selected"
        } else {
            ""
        }
    }
}

impl TodoItemModel {
    /// The item that the page shows here.
    pub open spec fn todo(self) -> TodoModel {
        TodoModel { text: self.text, completed: self.completed, editing: self.editing }
    }

    /// The item at `index` as the page shows it.
    pub open spec fn of(index: int, todo: TodoModel) -> TodoItemModel {
        TodoItemModel {
            index,
            class: ItemClass::of(todo),
            text: todo.text,
            completed: todo.completed,
            editing: todo.editing,
        }
    }
}

/// The items that a route shows, in the order of the list.
pub open spec fn visible(todos: Seq<TodoModel>, route: AppRoute) -> Seq<TodoModel> {
    todos.filter(|t: TodoModel| route.accepts(t.completed))
}

/// The positions `0..n`, in order.
pub open spec fn positions(n: nat) -> Seq<int> {
    Seq::new(n, |i: int| i)
}

/// The positions among the first `n` of the list whose items a route shows,
/// in order.
pub open spec fn visible_positions(todos: Seq<TodoModel>, route: AppRoute, n: nat) -> Seq<int> {
    positions(n).filter(|i: int| route.accepts(todos[i].completed))
}

/// The items among the first `n` of the list that a route shows, as the page
/// shows them, in order.
pub open spec fn shown_items(todos: Seq<TodoModel>, route: AppRoute, n: nat) -> Seq<
    TodoItemModel,
> {
    visible_positions(todos, route, n).map_values(|i: int| TodoItemModel::of(i, todos[i]))
}

/// How many items are completed.
pub open spec fn completed_count(todos: Seq<TodoModel>) -> nat {
    todos.filter(|t: TodoModel| t.completed).len()
}

impl FilterLinkModel {
    /// The link to `route` on a page that is shown under `current`.
    pub open spec fn of(route: AppRoute, current: AppRoute) -> FilterLinkModel {
        FilterLinkModel {
            target: FragmentModel { path: "/"@, route },
            label: route.name(),
            selected: route == current,
        }
    }
}

impl MainModel {
    /// The part of the page that holds the items, for a state.
    pub open spec fn of(app: AppModel) -> MainModel {
        MainModel {
            toggle_all: if app.todos.len() > 0 {
                Some(all_completed(app.todos))
            } else {
                None
            },
            items: shown_items(app.todos, app.route, app.todos.len()),
        }
    }
}

impl FooterModel {
    /// The part of the page below the items, for a state.
    pub open spec fn of(app: AppModel) -> FooterModel {
        let completed = completed_count(app.todos);
        FooterModel {
            remaining: (app.todos.len() - completed) as nat,
            filters: AppRoute::all().map_values(|r: AppRoute| FilterLinkModel::of(r, app.route)),
            clear_completed: if completed > 0 {
                Some(completed)
            } else {
                None
            },
        }
    }
}

impl PageModel {
    /// The page for a state.
    pub open spec fn of(app: AppModel) -> PageModel {
        if app.todos.len() > 0 {
            PageModel {
                value: app.value,
                main: Some(MainModel::of(app)),
                footer: Some(FooterModel::of(app)),
            }
        } else {
            PageModel { value: app.value, main: None, footer: None }
        }
    }
}

/// What [`visible_positions`] makes of one more position.
pub proof fn lemma_visible_positions_step(todos: Seq<TodoModel>, route: AppRoute, n: nat)
    ensures
        visible_positions(todos, route, 0) == Seq::<int>::empty(),
        visible_positions(todos, route, n + 1) == if route.accepts(todos[n as int].completed) {
            visible_positions(todos, route, n).push(n as int)
        } else {
            visible_positions(todos, route, n)
        },
{
    reveal(Seq::filter);
    assert(positions(0) =~= Seq::<int>::empty());
    assert(positions(n + 1).drop_last() =~= positions(n));
}

/// What [`completed_count`] makes of one more item.
pub proof fn lemma_completed_count_step(todos: Seq<TodoModel>, n: int)
    requires
        0 <= n < todos.len(),
    ensures
        completed_count(todos.take(0)) == 0,
        completed_count(todos.take(n + 1)) == completed_count(todos.take(n)) + (if todos[n].completed {
            1int
        } else {
            0int
        }),
        completed_count(todos.take(n)) <= n,
{
    reveal(Seq::filter);
    assert(todos.take(n + 1).drop_last() =~= todos.take(n));
    todos.take(n).lemma_filter_len(|t: TodoModel| t.completed);
}

} // verus!
