//! What holds of the list whatever its state.

use crate::app::{all_completed, lemma_partition_len, without_completed, AppModel};
use crate::msg::MsgModel;
use crate::render::{
    completed_count, lemma_visible_positions_step, shown_items, visible, FooterModel, MainModel,
    TodoItemModel,
};
use crate::route::AppRoute;
use crate::text::{
    is_blank, is_whitespace, lemma_trim_end, lemma_trim_start, lemma_trimmed_empty, trim_start,
    trimmed,
};
use crate::todo::{restored_list, stored_list, TodoModel};
use vstd::prelude::*;

verus! {

/// Submitting a draft that holds nothing but whitespace changes nothing.
/// Submitting any other draft puts one item at the end of the list, not
/// completed and not being edited, whose text is the draft without the
/// whitespace around it, and empties the draft; the items before it stay.
pub proof fn law_create(app: AppModel)
    ensures
        is_blank(app.value) ==> app.step(MsgModel::Create) == app,
        !is_blank(app.value) ==> {
            let after = app.step(MsgModel::Create);
            &&& after.todos == app.todos.push(TodoModel::new(trimmed(app.value)))
            &&& after.value.len() == 0
            &&& after.route == app.route
            &&& after.focus_edit == app.focus_edit
            &&& trimmed(app.value).len() > 0
            &&& !is_whitespace(trimmed(app.value).first())
            &&& !is_whitespace(trimmed(app.value).last())
        },
{
    lemma_trimmed_empty(app.value);
    lemma_trim_start(app.value);
    lemma_trim_end(trim_start(app.value));
    if !is_blank(app.value) {
        let inner = trim_start(app.value);
        let k = choose|k: int|
            0 <= k <= inner.len() && #[trigger] inner.subrange(0, k) == trimmed(app.value)
                && is_blank(inner.subrange(k, inner.len() as int));
        assert(trimmed(app.value).first() == inner.first());
    }
}

/// Toggling all completes every item where some item was not completed, and
/// makes every item active where all were completed; nothing else of any
/// item changes. So toggling all twice, from a list with an item that is not
/// completed, leaves no item completed.
pub proof fn law_toggle_all(app: AppModel)
    ensures
        ({
            let after = app.step(MsgModel::ToggleAll);
            &&& after.todos.len() == app.todos.len()
            &&& forall|i: int|
                0 <= i < app.todos.len() ==> (#[trigger] after.todos[i]) == (TodoModel {
                    completed: !all_completed(app.todos),
                    ..app.todos[i]
                })
            &&& after.value == app.value
            &&& after.route == app.route
            &&& after.focus_edit == app.focus_edit
        }),
        !all_completed(app.todos) ==> {
            let once = app.step(MsgModel::ToggleAll);
            let twice = once.step(MsgModel::ToggleAll);
            &&& all_completed(once.todos)
            &&& forall|i: int| 0 <= i < twice.todos.len() ==> !(#[trigger] twice.todos[i]).completed
        },
{
}

/// Clearing leaves the items that are not completed, in their order, and
/// nothing else: what the route `Active` showed before. Their number is the
/// number of items less the number of completed ones.
pub proof fn law_clear_completed(app: AppModel)
    ensures
        ({
            let after = app.step(MsgModel::ClearCompleted);
            &&& after.todos == visible(app.todos, AppRoute::Active)
            &&& forall|i: int| 0 <= i < after.todos.len() ==> !(#[trigger] after.todos[i]).completed
            &&& after.todos.len() + completed_count(app.todos) == app.todos.len()
            &&& after.value == app.value
            &&& after.route == app.route
            &&& after.focus_edit == app.focus_edit
        }),
{
    let after = app.step(MsgModel::ClearCompleted);
    assert(after.todos =~= visible(app.todos, AppRoute::Active)) by {
        law_visible(app.todos);
    }
    assert forall|i: int| 0 <= i < after.todos.len() implies !(#[trigger] after.todos[i]).completed by {
        app.todos.lemma_filter_pred(|t: TodoModel| !t.completed, i);
    }
    lemma_partition_len(app.todos);
}

/// Under `All` the page shows every item; under `Active` those that are not
/// completed; under `Completed` those that are; each time in the order of
/// the list.
pub proof fn law_visible(todos: Seq<TodoModel>)
    ensures
        visible(todos, AppRoute::All) == todos,
        visible(todos, AppRoute::Active) == todos.filter(|t: TodoModel| !t.completed),
        visible(todos, AppRoute::Completed) == todos.filter(|t: TodoModel| t.completed),
    decreases todos.len(),
{
    reveal(Seq::filter);
    if todos.len() > 0 {
        law_visible(todos.drop_last());
        assert(todos.drop_last().push(todos.last()) =~= todos);
    }
    assert(visible(todos, AppRoute::Active) =~= todos.filter(|t: TodoModel| !t.completed));
    assert(visible(todos, AppRoute::Completed) =~= todos.filter(|t: TodoModel| t.completed));
}

/// The page shows the items that its route accepts and no others, each once
/// and in the order of the list, each under its position in the whole list
/// and with the mark that its state asks for.
pub proof fn law_shown_items(todos: Seq<TodoModel>, route: AppRoute)
    ensures
        shown_items(todos, route, todos.len()).map_values(|item: TodoItemModel| item.todo())
            == visible(todos, route),
        forall|k: int|
            0 <= k < shown_items(todos, route, todos.len()).len() ==> {
                let item = #[trigger] shown_items(todos, route, todos.len())[k];
                &&& 0 <= item.index < todos.len()
                &&& item == TodoItemModel::of(item.index, todos[item.index])
                &&& route.accepts(item.completed)
            },
        forall|j: int, k: int|
            0 <= j < k < shown_items(todos, route, todos.len()).len() ==> (#[trigger] shown_items(
                todos,
                route,
                todos.len(),
            )[j]).index < (#[trigger] shown_items(todos, route, todos.len())[k]).index,
{
    lemma_shown_todos(todos, route, todos.len());
    assert(todos.take(todos.len() as int) =~= todos);
    lemma_shown_positions(todos, route, todos.len());
}

/// Among the first `n` items, the page shows those that the route accepts,
/// in the order of the list.
pub proof fn lemma_shown_todos(todos: Seq<TodoModel>, route: AppRoute, n: nat)
    requires
        n <= todos.len(),
    ensures
        shown_items(todos, route, n).map_values(|item: TodoItemModel| item.todo()) == visible(
            todos.take(n as int),
            route,
        ),
    decreases n,
{
    let shown = shown_items(todos, route, n);
    let todo_of = |item: TodoItemModel| item.todo();
    if n == 0 {
        lemma_visible_positions_step(todos, route, 0);
        assert(visible(todos.take(0), route) =~= Seq::<TodoModel>::empty()) by {
            reveal(Seq::filter);
        }
        assert(shown.map_values(todo_of) =~= visible(todos.take(0), route));
    } else {
        let m = (n - 1) as nat;
        let before = shown_items(todos, route, m);
        lemma_shown_todos(todos, route, m);
        lemma_visible_positions_step(todos, route, m);
        let last = todos[m as int];
        assert(visible(todos.take(n as int), route) == if route.accepts(last.completed) {
            visible(todos.take(m as int), route).push(last)
        } else {
            visible(todos.take(m as int), route)
        }) by {
            reveal(Seq::filter);
            assert(todos.take(n as int).drop_last() =~= todos.take(m as int));
        }
        if route.accepts(last.completed) {
            let item = TodoItemModel::of(m as int, last);
            assert(shown =~= before.push(item));
            assert(shown.map_values(todo_of) =~= before.map_values(todo_of).push(last));
        } else {
            assert(shown =~= before);
        }
    }
}

/// Among the first `n` items, each item that the page shows stands under
/// its position in the list, and the positions rise.
pub proof fn lemma_shown_positions(todos: Seq<TodoModel>, route: AppRoute, n: nat)
    requires
        n <= todos.len(),
    ensures
        forall|k: int|
            0 <= k < shown_items(todos, route, n).len() ==> {
                let item = #[trigger] shown_items(todos, route, n)[k];
                &&& 0 <= item.index < n
                &&& item == TodoItemModel::of(item.index, todos[item.index])
                &&& route.accepts(item.completed)
            },
        forall|j: int, k: int|
            0 <= j < k < shown_items(todos, route, n).len() ==> (#[trigger] shown_items(
                todos,
                route,
                n,
            )[j]).index < (#[trigger] shown_items(todos, route, n)[k]).index,
    decreases n,
{
    let shown = shown_items(todos, route, n);
    if n == 0 {
        lemma_visible_positions_step(todos, route, 0);
        assert(shown.len() == 0);
    } else {
        let m = (n - 1) as nat;
        let before = shown_items(todos, route, m);
        lemma_shown_positions(todos, route, m);
        lemma_visible_positions_step(todos, route, m);
        if route.accepts(todos[m as int].completed) {
            let item = TodoItemModel::of(m as int, todos[m as int]);
            assert(shown =~= before.push(item));
            assert forall|k: int| 0 <= k < shown.len() implies {
                let item = #[trigger] shown[k];
                &&& 0 <= item.index < n
                &&& item == TodoItemModel::of(item.index, todos[item.index])
                &&& route.accepts(item.completed)
            } by {
                if k < before.len() {
                    assert(shown[k] == before[k]);
                }
            }
            assert forall|j: int, k: int| 0 <= j < k < shown.len() implies (#[trigger] shown[j]).index
                < (#[trigger] shown[k]).index by {
                assert(shown[j] == before[j]);
                if k < before.len() {
                    assert(shown[k] == before[k]);
                }
            }
        } else {
            assert(shown =~= before);
        }
    }
}

/// Keeping a list and taking it back gives the same items in the same
/// order, each with its text and its completion, and none being edited.
pub proof fn law_round_trip(todos: Seq<TodoModel>)
    ensures
        ({
            let back = restored_list(stored_list(todos));
            &&& back.len() == todos.len()
            &&& forall|i: int|
                0 <= i < todos.len() ==> (#[trigger] back[i]) == (TodoModel {
                    editing: false,
                    ..todos[i]
                })
        }),
{
}

/// A session that starts from what a state keeps has the items of that
/// state in their order, each with its text and its completion, none being
/// edited; its draft is empty and no focus is asked for.
pub proof fn law_reload(app: AppModel, route: AppRoute)
    ensures
        ({
            let fresh = AppModel::created(route, Some(app.persisted()));
            &&& fresh.todos.len() == app.todos.len()
            &&& forall|i: int|
                0 <= i < app.todos.len() ==> (#[trigger] fresh.todos[i]) == (TodoModel {
                    editing: false,
                    ..app.todos[i]
                })
            &&& fresh.persisted() == app.persisted()
            &&& fresh.value.len() == 0
            &&& !fresh.focus_edit
            &&& fresh.route == route
        }),
{
    law_round_trip(app.todos);
    let fresh = AppModel::created(route, Some(app.persisted()));
    assert(fresh.persisted() =~= app.persisted());
}

/// Deleting the item at `i` leaves one item less: those before `i` where
/// they were, those after `i` one place earlier, none of them changed.
pub proof fn law_delete(app: AppModel, i: int)
    requires
        0 <= i < app.todos.len(),
    ensures
        ({
            let after = app.step(MsgModel::Delete(i));
            &&& after.todos.len() == app.todos.len() - 1
            &&& forall|k: int| 0 <= k < i ==> (#[trigger] after.todos[k]) == app.todos[k]
            &&& forall|k: int|
                i <= k < app.todos.len() - 1 ==> (#[trigger] after.todos[k]) == app.todos[k + 1]
            &&& after.value == app.value
            &&& after.route == app.route
            &&& after.focus_edit == app.focus_edit
        }),
{
}

/// The text of an item is what was last typed into its edit field, as it
/// was typed: closing the field keeps it, be it empty or nothing but
/// whitespace. The other items do not change.
pub proof fn law_edit_keeps_text(app: AppModel, i: int, text: Seq<char>)
    requires
        0 <= i < app.todos.len(),
    ensures
        ({
            let typed = app.step(MsgModel::UpdateItem(i, text));
            let after = typed.step(MsgModel::CompleteEdit(i));
            &&& typed.todos == app.todos.update(i, TodoModel { text, ..app.todos[i] })
            &&& after.todos == app.todos.update(
                i,
                TodoModel { text, editing: false, ..app.todos[i] },
            )
            &&& after.todos[i].text == text
            &&& after.value == app.value
            &&& after.route == app.route
            &&& after.focus_edit == app.focus_edit
        }),
{
    let typed = app.step(MsgModel::UpdateItem(i, text));
    let after = typed.step(MsgModel::CompleteEdit(i));
    assert(after.todos =~= app.todos.update(i, TodoModel { text, editing: false, ..app.todos[i] }));
}

/// Toggling an item twice gives the list back.
pub proof fn law_toggle_twice(app: AppModel, i: int)
    requires
        0 <= i < app.todos.len(),
    ensures
        app.step(MsgModel::Toggle(i)).step(MsgModel::Toggle(i)) == app,
{
    let twice = app.step(MsgModel::Toggle(i)).step(MsgModel::Toggle(i));
    assert(twice.todos =~= app.todos);
}

/// A request that names an item by the index under which the page shows it
/// is one that the list can take.
pub proof fn law_shown_index_is_accepted(app: AppModel, k: int, text: Seq<char>)
    requires
        0 <= k < MainModel::of(app).items.len(),
    ensures
        ({
            let index = MainModel::of(app).items[k].index;
            &&& app.accepts(MsgModel::Delete(index))
            &&& app.accepts(MsgModel::Toggle(index))
            &&& app.accepts(MsgModel::StartEdit(index))
            &&& app.accepts(MsgModel::UpdateItem(index, text))
            &&& app.accepts(MsgModel::CompleteEdit(index))
        }),
{
    law_shown_items(app.todos, app.route);
    let item = shown_items(app.todos, app.route, app.todos.len())[k];
    assert(0 <= item.index < app.todos.len());
}

/// The footer counts the items that are not completed, and offers to clear
/// the completed ones exactly when there is one, with their number.
pub proof fn law_footer_counts(app: AppModel)
    ensures
        ({
            let footer = FooterModel::of(app);
            &&& footer.remaining == without_completed(app.todos).len()
            &&& footer.remaining + completed_count(app.todos) == app.todos.len()
            &&& footer.clear_completed is Some <==> exists|i: int|
                0 <= i < app.todos.len() && (#[trigger] app.todos[i]).completed
            &&& footer.clear_completed is Some ==> footer.clear_completed
                == Some(completed_count(app.todos))
        }),
{
    lemma_partition_len(app.todos);
    let completed = |t: TodoModel| t.completed;
    if exists|i: int| 0 <= i < app.todos.len() && (#[trigger] app.todos[i]).completed {
        let i = choose|i: int| 0 <= i < app.todos.len() && (#[trigger] app.todos[i]).completed;
        app.todos.lemma_filter_contains(completed, i);
        assert(app.todos.filter(completed).len() > 0);
    }
    if completed_count(app.todos) > 0 {
        let first = app.todos.filter(completed)[0];
        app.todos.lemma_filter_pred(completed, 0);
        assert(app.todos.filter(completed).contains(first));
        app.todos.lemma_filter_contains_rev(completed, first);
        let i = choose|i: int| 0 <= i < app.todos.len() && app.todos[i] == first;
        assert(app.todos[i].completed);
    }
}

} // verus!
