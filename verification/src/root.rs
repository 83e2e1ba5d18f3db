//! The top of the page: it shows the list at the place that the address
//! names, or at the place of every item where the address names none.

use crate::route::{AppRoute, FragmentAdapter, FragmentModel, Props};
use vstd::prelude::*;

verus! {

/// The top of the page. It keeps no state.
#[derive(Clone, Copy, Debug)]
pub struct Root;

/// What the top of the page shows: a router over places.
#[derive(Clone, Debug, PartialEq, Eq)]
pub struct RouterView {
    /// The place that is shown where the address names none.
    pub redirect: FragmentAdapter,
}

impl Root {
    /// The place that is shown where the address names none: the path `/`,
    /// with every item.
    pub open spec fn fallback() -> FragmentModel {
        FragmentModel { path: "/"@, route: AppRoute::All }
    }

    /// The top of the page at the start of a session.
    pub fn create() -> Root {
        Root
    }

    /// Takes a message, which holds nothing, and says that the page is to
    /// be rendered again.
    pub fn update(&mut self) -> (should_render: bool)
        ensures
            should_render,
    {
        true
    }

    /// Takes new properties, which hold nothing, and says that the page is
    /// to be rendered again.
    pub fn change(&mut self) -> (should_render: bool)
        ensures
            should_render,
    {
        true
    }

    /// What the top of the page shows.
    pub fn view(&self) -> (router: RouterView)
        ensures
            router.redirect@ == Root::fallback(),
    {
        RouterView { redirect: FragmentAdapter { path: "/".to_owned(), route: AppRoute::All } }
    }

    /// What the list is given where the router shows `place`: its route.
    pub fn render(place: &FragmentAdapter) -> (props: Props)
        ensures
            props.route == place.route,
    {
        Props { route: place.route }
    }
}

} // verus!
