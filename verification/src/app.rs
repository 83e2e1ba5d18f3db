//! The list itself: its state, and how each request changes it.

use crate::msg::{Msg, MsgModel};
use crate::render::{
    completed_count, lemma_completed_count_step, lemma_visible_positions_step, shown_items,
    FilterLink, FilterLinkModel, Footer, FooterModel, ItemClass, MainModel, MainSection, Page,
    PageModel, TodoItem, TodoItemModel,
};
use crate::route::{AppRoute, FragmentAdapter, Props};
use crate::text::{trim, trimmed};
use crate::todo::{
    restored_list, stored_list, stored_models, todo_models, StoredModel, StoredTodo, Todo,
    TodoModel,
};
use vstd::prelude::*;

verus! {

/// The state of the list: the items, the draft of a new item, the route, and
/// whether the next rendering is to focus the edit field.
pub struct App {
    props: Props,
    todos: Vec<Todo>,
    value: String,
    focus_edit: bool,
}

/// What an [`App`] stands for.
pub struct AppModel {
    pub route: AppRoute,
    pub todos: Seq<TodoModel>,
    pub value: Seq<char>,
    pub focus_edit: bool,
}

/// What a request leaves to be done outside the list.
#[derive(Clone, Debug, PartialEq, Eq)]
pub struct Effect {
    /// Whether the page is to be rendered again.
    pub should_render: bool,
    /// The records to keep under [`STORAGE_KEY`], in place of what was kept.
    pub persist: Vec<StoredTodo>,
}

/// Which fields a rendering is to focus.
#[derive(Clone, Copy, Debug, PartialEq, Eq, Structural)]
pub struct Focus {
    /// The field for a new item.
    pub new_input: bool,
    /// The edit field of the item that is being edited.
    pub edit_input: bool,
}

/// The key under which the list is kept between sessions.
pub const STORAGE_KEY: &'static str = "todos";

/// Whether every item of the list is completed; so for the empty list.
pub open spec fn all_completed(todos: Seq<TodoModel>) -> bool {
    forall|i: int| 0 <= i < todos.len() ==> (#[trigger] todos[i]).completed
}

/// The list with `completed` set on every item.
pub open spec fn with_all_completed(todos: Seq<TodoModel>, completed: bool) -> Seq<TodoModel> {
    todos.map_values(|t: TodoModel| TodoModel { completed, ..t })
}

/// The list without its completed items, the others in their order.
pub open spec fn without_completed(todos: Seq<TodoModel>) -> Seq<TodoModel> {
    todos.filter(|t: TodoModel| !t.completed)
}

impl AppModel {
    /// The state at the start of a session: the items that the kept records
    /// give back, or none where nothing usable was kept.
    pub open spec fn created(route: AppRoute, stored: Option<Seq<StoredModel>>) -> AppModel {
        AppModel {
            route,
            todos: match stored {
                Some(records) => restored_list(records),
                None => Seq::empty(),
            },
            value: Seq::empty(),
            focus_edit: false,
        }
    }

    /// The records under which the list is kept.
    pub open spec fn persisted(self) -> Seq<StoredModel> {
        stored_list(self.todos)
    }

    /// Whether the list can take a request: an index that it names must be
    /// the position of an item.
    pub open spec fn accepts(self, msg: MsgModel) -> bool {
        match msg.index() {
            Some(i) => 0 <= i < self.todos.len(),
            None => true,
        }
    }

    /// The state after a request.
    pub open spec fn step(self, msg: MsgModel) -> AppModel {
        match msg {
            MsgModel::Nop => self,
            MsgModel::Update(draft) => AppModel { value: draft, ..self },
            MsgModel::Create => {
                let text = trimmed(self.value);
                if text.len() > 0 {
                    AppModel {
                        todos: self.todos.push(TodoModel::new(text)),
                        value: Seq::empty(),
                        ..self
                    }
                } else {
                    self
                }
            },
            MsgModel::Delete(i) => AppModel { todos: self.todos.remove(i), ..self },
            MsgModel::Toggle(i) => AppModel {
                todos: self.todos.update(
                    i,
                    TodoModel { completed: !self.todos[i].completed, ..self.todos[i] },
                ),
                ..self
            },
            MsgModel::ToggleAll => AppModel {
                todos: with_all_completed(self.todos, !all_completed(self.todos)),
                ..self
            },
            MsgModel::ClearCompleted => AppModel {
                todos: without_completed(self.todos),
                ..self
            },
            MsgModel::StartEdit(i) => AppModel {
                todos: self.todos.update(i, TodoModel { editing: true, ..self.todos[i] }),
                focus_edit: true,
                ..self
            },
            MsgModel::UpdateItem(i, text) => AppModel {
                todos: self.todos.update(i, TodoModel { text, ..self.todos[i] }),
                ..self
            },
            MsgModel::CompleteEdit(i) => AppModel {
                todos: self.todos.update(i, TodoModel { editing: false, ..self.todos[i] }),
                ..self
            },
        }
    }
}

impl App {
    /// What this state stands for.
    pub closed spec fn model(&self) -> AppModel {
        AppModel {
            route: self.props.route,
            todos: todo_models(self.todos@),
            value: self.value@,
            focus_edit: self.focus_edit,
        }
    }

    /// The state at the start of a session: the draft empty, the items that
    /// the kept records give back, or none where nothing usable was kept.
    pub fn create(props: Props, stored: Option<Vec<StoredTodo>>) -> (app: App)
        ensures
            app.model() == AppModel::created(
                props.route,
                match stored {
                    Some(records) => Some(stored_models(records@)),
                    None => None,
                },
            ),
    {
        let mut todos: Vec<Todo> = Vec::new();
        if let Some(records) = stored {
            let mut i: usize = 0;
            while i < records.len()
                invariant
                    i <= records.len(),
                    todos.len() == i,
                    forall|k: int| 0 <= k < i ==> (#[trigger] todos[k])@ == records[k]@.restored(),
                decreases records.len() - i,
            {
                todos.push(records[i].restored());
                i += 1;
            }
            assert(todo_models(todos@) =~= restored_list(stored_models(records@)));
        } else {
            assert(todo_models(todos@) =~= Seq::<TodoModel>::empty());
        }
        App { props, todos, value: String::new(), focus_edit: false }
    }

    /// Whether the list can take `msg`: an index that it names must be the
    /// position of an item.
    pub fn accepts(&self, msg: &Msg) -> (ok: bool)
        ensures
            ok == self.model().accepts(msg@),
    {
        match msg.index() {
            Some(i) => i < self.todos.len(),
            None => true,
        }
    }

    /// Applies a request, and says what is to be kept and that the page is to
    /// be rendered again.
    pub fn update(&mut self, msg: Msg) -> (effect: Effect)
        requires
            old(self).model().accepts(msg@),
        ensures
            final(self).model() == old(self).model().step(msg@),
            effect.should_render,
            stored_models(effect.persist@) == final(self).model().persisted(),
    {
        match msg {
            Msg::Nop => (),
            Msg::Update(draft) => self.value = draft,
            Msg::Create => {
                let text = trim(self.value.as_str());
                if !text.is_empty() {
                    self.todos.push(Todo::new(text));
                    self.value = String::new();
                    assert(self.model().todos =~= old(self).model().todos.push(
                        TodoModel::new(trimmed(old(self).model().value)),
                    ));
                }
            },
            Msg::Delete(index) => {
                self.todos.remove(index);
                assert(self.model().todos =~= old(self).model().todos.remove(index as int));
            },
            Msg::Toggle(index) => {
                let todo = &mut self.todos[index];
                todo.completed = !todo.completed;
                assert(self.model().todos =~= old(self).model().step(msg@).todos);
            },
            Msg::ToggleAll => {
                let completed = !self.all_completed();
                self.set_all_completed(completed);
            },
            Msg::ClearCompleted => {
                self.clear_completed();
            },
            Msg::StartEdit(index) => {
                self.todos[index].editing = true;
                self.focus_edit = true;
                assert(self.model().todos =~= old(self).model().step(msg@).todos);
            },
            Msg::UpdateItem(index, value) => {
                self.todos[index].text = value;
                assert(self.model().todos =~= old(self).model().step(msg@).todos);
            },
            Msg::CompleteEdit(index) => {
                self.todos[index].editing = false;
                assert(self.model().todos =~= old(self).model().step(msg@).todos);
            },
        }
        Effect { should_render: true, persist: self.stored() }
    }

    /// The records under which the list is kept: one for each item, in order.
    pub fn stored(&self) -> (records: Vec<StoredTodo>)
        ensures
            stored_models(records@) == self.model().persisted(),
    {
        let mut records: Vec<StoredTodo> = Vec::new();
        let mut i: usize = 0;
        while i < self.todos.len()
            invariant
                i <= self.todos.len(),
                records.len() == i,
                forall|k: int| 0 <= k < i ==> (#[trigger] records[k])@ == self.todos[k]@.stored(),
            decreases self.todos.len() - i,
        {
            records.push(self.todos[i].stored());
            i += 1;
        }
        assert(stored_models(records@) =~= stored_list(self.model().todos));
        records
    }

    /// What a rendering is to focus: the field for a new item at the first
    /// rendering, and the edit field where an edit has just begun, which is
    /// asked once.
    pub fn rendered(&mut self, first_render: bool) -> (focus: Focus)
        ensures
            focus == (Focus { new_input: first_render, edit_input: old(self).model().focus_edit }),
            final(self).model() == (AppModel { focus_edit: false, ..old(self).model() }),
    {
        let edit_input = self.focus_edit;
        if self.focus_edit {
            self.focus_edit = false;
        }
        Focus { new_input: first_render, edit_input }
    }

    /// Shows the list under another route, and says that the page is to be
    /// rendered again.
    pub fn change(&mut self, props: Props) -> (should_render: bool)
        ensures
            should_render,
            final(self).model() == (AppModel { route: props.route, ..old(self).model() }),
    {
        self.props = props;
        true
    }

    /// The page for this state.
    pub fn view(&self) -> (page: Page)
        ensures
            page@ == PageModel::of(self.model()),
    {
        if !self.todos.is_empty() {
            Page {
                value: self.value.clone(),
                main: Some(self.view_main()),
                footer: Some(self.view_footer()),
            }
        } else {
            Page { value: self.value.clone(), main: None, footer: None }
        }
    }

    /// The part of the page that holds the items.
    pub fn view_main(&self) -> (main: MainSection)
        ensures
            main@ == MainModel::of(self.model()),
    {
        let toggle_all = if !self.todos.is_empty() {
            Some(self.all_completed())
        } else {
            None
        };
        let ghost todos = self.model().todos;
        let ghost route = self.model().route;
        let mut items: Vec<TodoItem> = Vec::new();
        let mut index: usize = 0;
        proof {
            lemma_visible_positions_step(todos, route, 0);
            assert(items@.map_values(|item: TodoItem| item@) =~= shown_items(todos, route, 0));
        }
        while index < self.todos.len()
            invariant
                index <= self.todos.len(),
                todos == self.model().todos,
                route == self.model().route,
                items@.map_values(|item: TodoItem| item@) == shown_items(
                    todos,
                    route,
                    index as nat,
                ),
            decreases self.todos.len() - index,
        {
            proof {
                lemma_visible_positions_step(todos, route, index as nat);
            }
            let ghost before = items@;
            match self.view_todo(index) {
                Some(item) => {
                    items.push(item);
                    assert(items@.map_values(|item: TodoItem| item@) =~= before.map_values(
                        |item: TodoItem| item@,
                    ).push(item@));
                    assert(shown_items(todos, route, (index + 1) as nat) =~= shown_items(
                        todos,
                        route,
                        index as nat,
                    ).push(TodoItemModel::of(index as int, todos[index as int])));
                },
                None => {},
            }
            index += 1;
        }
        MainSection { toggle_all, items }
    }

    /// The item at `index` as the page shows it, if the route shows it.
    pub fn view_todo(&self, index: usize) -> (shown: Option<TodoItem>)
        requires
            index < self.model().todos.len(),
        ensures
            shown is Some == self.model().route.accepts(self.model().todos[index as int].completed),
            shown matches Some(item) ==> item@ == TodoItemModel::of(
                index as int,
                self.model().todos[index as int],
            ),
    {
        let todo = &self.todos[index];
        if self.props.route.shows(todo.completed) {
            let class = if todo.editing {
                ItemClass::Editing
            } else if todo.completed {
                ItemClass::Completed
            } else {
                ItemClass::Plain
            };
            Some(
                TodoItem {
                    index,
                    class,
                    text: todo.text.clone(),
                    completed: todo.completed,
                    editing: todo.editing,
                },
            )
        } else {
            None
        }
    }

    /// How many items are completed.
    pub fn completed_count(&self) -> (completed: usize)
        ensures
            completed == completed_count(self.model().todos),
            completed <= self.model().todos.len(),
    {
        let ghost todos = self.model().todos;
        let mut completed: usize = 0;
        let mut i: usize = 0;
        while i < self.todos.len()
            invariant
                i <= self.todos.len(),
                todos == self.model().todos,
                completed == completed_count(todos.take(i as int)),
                completed <= i,
            decreases self.todos.len() - i,
        {
            proof {
                lemma_completed_count_step(todos, i as int);
            }
            if self.todos[i].completed {
                completed += 1;
            }
            i += 1;
        }
        assert(todos.take(todos.len() as int) =~= todos);
        completed
    }

    /// How many items are not completed.
    pub fn active_count(&self) -> (active: usize)
        ensures
            active == self.model().todos.len() - completed_count(self.model().todos),
            active == without_completed(self.model().todos).len(),
    {
        let completed = self.completed_count();
        proof {
            lemma_partition_len(self.model().todos);
        }
        self.todos.len() - completed
    }

    /// The part of the page below the items.
    pub fn view_footer(&self) -> (footer: Footer)
        ensures
            footer@ == FooterModel::of(self.model()),
    {
        let completed = self.completed_count();
        let not_completed = self.todos.len() - completed;
        let routes = AppRoute::iter();
        let mut filters: Vec<FilterLink> = Vec::new();
        let mut k: usize = 0;
        while k < routes.len()
            invariant
                k <= routes.len(),
                routes@ == AppRoute::all(),
                filters.len() == k,
                forall|j: int|
                    0 <= j < k ==> (#[trigger] filters[j])@ == FilterLinkModel::of(
                        routes[j],
                        self.model().route,
                    ),
            decreases routes.len() - k,
        {
            let r = routes[k];
            filters.push(
                FilterLink {
                    target: FragmentAdapter { path: "/".to_owned(), route: r },
                    label: r.to_string(),
                    selected: self.props.route == r,
                },
            );
            k += 1;
        }
        let footer = Footer {
            remaining: not_completed,
            filters,
            clear_completed: if completed > 0 {
                Some(completed)
            } else {
                None
            },
        };
        assert(footer@.filters =~= FooterModel::of(self.model()).filters);
        footer
    }

    /// The items, in order.
    pub fn todos(&self) -> (todos: &Vec<Todo>)
        ensures
            todo_models(todos@) == self.model().todos,
    {
        &self.todos
    }

    /// The draft of a new item.
    pub fn value(&self) -> (value: &str)
        ensures
            value@ == self.model().value,
    {
        self.value.as_str()
    }

    /// The route under which the list is shown.
    pub fn route(&self) -> (route: AppRoute)
        ensures
            route == self.model().route,
    {
        self.props.route
    }

    /// Whether the next rendering is to focus the edit field.
    pub fn focus_edit(&self) -> (pending: bool)
        ensures
            pending == self.model().focus_edit,
    {
        self.focus_edit
    }

    /// Whether every item is completed.
    pub fn all_completed(&self) -> (all: bool)
        ensures
            all == all_completed(self.model().todos),
    {
        let mut i: usize = 0;
        while i < self.todos.len()
            invariant
                i <= self.todos.len(),
                forall|k: int| 0 <= k < i ==> (#[trigger] self.todos[k]).completed,
            decreases self.todos.len() - i,
        {
            if !self.todos[i].completed {
                assert(!todo_models(self.todos@)[i as int].completed);
                return false;
            }
            i += 1;
        }
        true
    }

    fn set_all_completed(&mut self, completed: bool)
        ensures
            final(self).model() == (AppModel {
                todos: with_all_completed(old(self).model().todos, completed),
                ..old(self).model()
            }),
    {
        let mut i: usize = 0;
        while i < self.todos.len()
            invariant
                i <= self.todos.len(),
                self.todos.len() == old(self).todos.len(),
                self.props == old(self).props,
                self.value == old(self).value,
                self.focus_edit == old(self).focus_edit,
                forall|k: int|
                    0 <= k < i ==> (#[trigger] self.todos[k])@ == (TodoModel {
                        completed,
                        ..old(self).todos[k]@
                    }),
                forall|k: int| i <= k < self.todos.len() ==> self.todos[k] == old(self).todos[k],
            decreases self.todos.len() - i,
        {
            let todo = &mut self.todos[i];
            todo.completed = completed;
            i += 1;
        }
        assert(self.model().todos =~= with_all_completed(old(self).model().todos, completed));
    }

    fn clear_completed(&mut self)
        ensures
            final(self).model() == (AppModel {
                todos: without_completed(old(self).model().todos),
                ..old(self).model()
            }),
    {
        let mut todos: Vec<Todo> = Vec::new();
        std::mem::swap(&mut self.todos, &mut todos);
        let ghost all = todos@;
        assert(all == old(self).todos@);
        let mut kept: Vec<Todo> = Vec::new();
        assert(todo_models(all.take(0)) =~= Seq::<TodoModel>::empty());
        assert(todo_models(kept@) =~= Seq::<TodoModel>::empty());
        assert(without_completed(Seq::<TodoModel>::empty()) =~= Seq::<TodoModel>::empty()) by {
            reveal(Seq::filter);
        }
        for todo in it: todos
            invariant
                it.seq() == all,
                todo_models(kept@) == without_completed(todo_models(all.take(it.index() as int))),
        {
            proof {
                let i = it.index() as int;
                let seen = all.take(i);
                assert(all[i] == todo);
                assert(all.take(i + 1) =~= seen.push(todo));
                assert(todo_models(seen.push(todo)) =~= todo_models(seen).push(todo@));
                lemma_without_completed_push(todo_models(seen), todo@);
                assert(todo_models(kept@.push(todo)) =~= todo_models(kept@).push(todo@));
            }
            if !todo.completed {
                kept.push(todo);
            }
        }
        assert(all.take(all.len() as int) =~= all);
        self.todos = kept;
    }
}

/// What [`without_completed`] makes of a list with one more item at its end.
pub proof fn lemma_without_completed_push(todos: Seq<TodoModel>, todo: TodoModel)
    ensures
        without_completed(todos.push(todo)) == if todo.completed {
            without_completed(todos)
        } else {
            without_completed(todos).push(todo)
        },
{
    reveal(Seq::filter);
    assert(todos.push(todo).drop_last() =~= todos);
}

/// The completed and the other items of a list are as many as the list.
pub proof fn lemma_partition_len(todos: Seq<TodoModel>)
    ensures
        without_completed(todos).len() + completed_count(todos) == todos.len(),
    decreases todos.len(),
{
    reveal(Seq::filter);
    if todos.len() > 0 {
        lemma_partition_len(todos.drop_last());
    }
}

} // verus!
