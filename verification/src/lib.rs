//! The state and the rules of a todo list: items that are created, edited,
//! completed and deleted, a route that filters them, the form in which they
//! are kept between sessions, and what a page shows of them.
//!
//! Each type that holds state has a model, a value of `Seq`s and flags, and
//! each function says what it does over the models: [`App::update`] by
//! [`AppModel::step`], [`App::view`] by [`PageModel::of`]. The module `laws`
//! proves what holds of every state.

pub mod app;
pub mod laws;
pub mod msg;
pub mod render;
pub mod root;
pub mod route;
pub mod text;
pub mod todo;

pub use app::{App, AppModel, Effect, Focus, STORAGE_KEY};
pub use msg::{Msg, MsgModel};
pub use render::{
    FilterLink, FilterLinkModel, Footer, FooterModel, ItemClass, MainModel, MainSection, Page,
    PageModel, TodoItem, TodoItemModel,
};
pub use root::{Root, RouterView};
pub use route::{AppRoute, FragmentAdapter, FragmentModel, Props, FRAGMENT_PATTERN, IGNORE_CASE};
pub use todo::{StoredModel, StoredTodo, Todo, TodoModel};
