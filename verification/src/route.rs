//! The filter over the list, which is also the route of the page.

use vstd::prelude::*;
use yew_router::matcher::{MatcherSettings, RouteMatcher};

verus! {

/// Which items the page shows.
#[derive(Clone, Copy, Debug, PartialEq, Eq, Structural)]
pub enum AppRoute {
    /// Every item.
    All,
    /// The items that are not completed.
    Active,
    /// The items that are completed.
    Completed,
}

/// What the list component is given: the route under which it is shown.
#[derive(Clone, Copy, Debug, PartialEq, Eq, Structural)]
pub struct Props {
    pub route: AppRoute,
}

/// A place of the page: the path of the document, and after `#` the route.
#[derive(Clone, Debug, PartialEq, Eq)]
pub struct FragmentAdapter {
    pub path: String,
    pub route: AppRoute,
}

/// What a [`FragmentAdapter`] stands for.
pub struct FragmentModel {
    pub path: Seq<char>,
    pub route: AppRoute,
}

impl View for FragmentAdapter {
    type V = FragmentModel;

    open spec fn view(&self) -> FragmentModel {
        FragmentModel { path: self.path@, route: self.route }
    }
}

/// The pattern of a place: a path, `#`, and a route.
pub const FRAGMENT_PATTERN: &'static str = "{*:path}#{*:route}";

/// Routes are matched without regard to case.
pub const IGNORE_CASE: bool = true;

/// Whether `pattern` is one of the patterns that this library matches
/// routes against.
pub open spec fn is_route_pattern(pattern: Seq<char>) -> bool {
    ||| pattern == AppRoute::All.pattern()
    ||| pattern == AppRoute::Active.pattern()
    ||| pattern == AppRoute::Completed.pattern()
    ||| pattern == FRAGMENT_PATTERN@
}

/// What yew_router's matcher for `pattern` captures in `route`, in the order
/// of the pattern's captures; `None` where the pattern describes no matcher
/// or the route does not match.
pub uninterp spec fn route_captures(
    pattern: Seq<char>,
    case_insensitive: bool,
    route: Seq<char>,
) -> Option<Seq<Seq<char>>>;

/// `RouteMatcher::new` and `RouteMatcher::capture_route_into_vec` of
/// yew_router. `new` builds the matcher that `pattern` describes, which
/// takes the pattern's literal text in either case where `case_insensitive`
/// is set; `capture_route_into_vec` runs it on `route` and gives what the
/// pattern's captures took, in their order. The result is `None` where the
/// pattern describes no matcher or the route does not match.
///
/// Not proved: that the call returns for the patterns of this library, and
/// that its result depends on the three arguments alone. Nothing is claimed
/// of which routes match, nor of what is captured.
#[verifier::external_body]
fn capture_route(pattern: &str, case_insensitive: bool, route: &str) -> (found: Option<
    Vec<String>,
>)
    requires
        is_route_pattern(pattern@),
    ensures
        found.deep_view() == route_captures(pattern@, case_insensitive, route@),
{
    let settings = MatcherSettings { case_insensitive };
    let matcher = RouteMatcher::new(pattern, settings).ok()?;
    matcher.capture_route_into_vec(route).ok().map(|matched| matched.1)
}

impl FragmentModel {
    /// The place that a route string names, if it names one: the string
    /// matches the pattern of places, and what follows `#` names a route.
    pub open spec fn switched(part: Seq<char>) -> Option<FragmentModel> {
        match FragmentModel::parts(route_captures(FRAGMENT_PATTERN@, IGNORE_CASE, part)) {
            Some((path, route)) => match AppRoute::switched(route) {
                Some(route) => Some(FragmentModel { path, route }),
                None => None,
            },
            None => None,
        }
    }

    /// The path and the route part among the captures of a place.
    pub open spec fn parts(found: Option<Seq<Seq<char>>>) -> Option<(Seq<char>, Seq<char>)> {
        match found {
            Some(found) => if found.len() == 2 {
                Some((found[0], found[1]))
            } else {
                None
            },
            None => None,
        }
    }

    /// The route string of this place.
    pub open spec fn section(self) -> Seq<char> {
        self.path + "#"@ + self.route.section()
    }
}

impl FragmentAdapter {
    /// The path and the route part among the captures of a place: there are
    /// two captures, in this order.
    pub fn parts(found: Option<Vec<String>>) -> (parts: Option<(String, String)>)
        ensures
            match parts {
                Some((path, route)) => FragmentModel::parts(found.deep_view()) == Some(
                    (path@, route@),
                ),
                None => FragmentModel::parts(found.deep_view()) is None,
            },
    {
        match found {
            Some(mut found) => {
                if found.len() == 2 {
                    let ghost both = found.deep_view();
                    let route = found.pop();
                    let path = found.pop();
                    match (path, route) {
                        (Some(path), Some(route)) => {
                            assert(path@ == both[0] && route@ == both[1]);
                            Some((path, route))
                        },
                        _ => None,
                    }
                } else {
                    None
                }
            },
            None => None,
        }
    }

    /// The place that a route string names, if it names one.
    pub fn from_route_part(part: &str) -> (place: Option<FragmentAdapter>)
        ensures
            match place {
                Some(place) => FragmentModel::switched(part@) == Some(place@),
                None => FragmentModel::switched(part@) is None,
            },
    {
        match FragmentAdapter::parts(capture_route(FRAGMENT_PATTERN, IGNORE_CASE, part)) {
            Some((path, route)) => match AppRoute::from_route_part(route.as_str()) {
                Some(route) => Some(FragmentAdapter { path, route }),
                None => None,
            },
            None => None,
        }
    }

    /// Writes the route string of this place at the end of `route`.
    pub fn build_route_section(&self, route: &mut String)
        ensures
            final(route)@ == old(route)@ + self@.section(),
    {
        route.append(self.path.as_str());
        route.append("#");
        self.route.build_route_section(route);
        assert(route@ =~= old(route)@ + self@.section());
    }
}

impl AppRoute {
    /// The pattern that the route part of a place is matched against for
    /// this route. `!` at its end asks that nothing follows.
    pub open spec fn pattern(self) -> Seq<char> {
        match self {
            AppRoute::All => "/!"@,
            AppRoute::Active => "/active"@,
            AppRoute::Completed => "/completed"@,
        }
    }

    /// The route part of a place that shows this route.
    pub open spec fn section(self) -> Seq<char> {
        match self {
            AppRoute::All => "/"@,
            AppRoute::Active => "/active"@,
            AppRoute::Completed => "/completed"@,
        }
    }

    /// Whether the route part `part` matches the pattern of this route.
    pub open spec fn matches(self, part: Seq<char>) -> bool {
        route_captures(self.pattern(), IGNORE_CASE, part) is Some
    }

    /// The first route in the order `All`, `Active`, `Completed` whose
    /// pattern matched.
    pub open spec fn preferred(all: bool, active: bool, completed: bool) -> Option<AppRoute> {
        if all {
            Some(AppRoute::All)
        } else if active {
            Some(AppRoute::Active)
        } else if completed {
            Some(AppRoute::Completed)
        } else {
            None
        }
    }

    /// The route that a route part names, if it names one.
    pub open spec fn switched(part: Seq<char>) -> Option<AppRoute> {
        AppRoute::preferred(
            AppRoute::All.matches(part),
            AppRoute::Active.matches(part),
            AppRoute::Completed.matches(part),
        )
    }

    /// The pattern that the route part of a place is matched against for
    /// this route.
    pub fn matcher(&self) -> (pattern: &'static str)
        ensures
            pattern@ == self.pattern(),
    {
        match self {
            AppRoute::All => "/!",
            AppRoute::Active => "/active",
            AppRoute::Completed => "/completed",
        }
    }

    /// The first route in the order `All`, `Active`, `Completed` whose
    /// pattern matched, given for each whether it did.
    pub fn first_match(all: bool, active: bool, completed: bool) -> (route: Option<AppRoute>)
        ensures
            route == AppRoute::preferred(all, active, completed),
    {
        if all {
            Some(AppRoute::All)
        } else if active {
            Some(AppRoute::Active)
        } else if completed {
            Some(AppRoute::Completed)
        } else {
            None
        }
    }

    /// The route that a route part names, if it names one.
    pub fn from_route_part(part: &str) -> (route: Option<AppRoute>)
        ensures
            route == AppRoute::switched(part@),
    {
        let all = capture_route(AppRoute::All.matcher(), IGNORE_CASE, part).is_some();
        let active = capture_route(AppRoute::Active.matcher(), IGNORE_CASE, part).is_some();
        let completed = capture_route(AppRoute::Completed.matcher(), IGNORE_CASE, part).is_some();
        AppRoute::first_match(all, active, completed)
    }

    /// Writes the route part of a place that shows this route at the end of
    /// `route`.
    pub fn build_route_section(&self, route: &mut String)
        ensures
            final(route)@ == old(route)@ + self.section(),
    {
        match self {
            AppRoute::All => route.append("/"),
            AppRoute::Active => route.append("/active"),
            AppRoute::Completed => route.append("/completed"),
        }
    }

    /// Whether an item is shown under this route, by its `completed` flag.
    pub open spec fn accepts(self, completed: bool) -> bool {
        match self {
            AppRoute::All => true,
            AppRoute::Active => !completed,
            AppRoute::Completed => completed,
        }
    }

    /// The routes in the order in which the page offers them.
    pub open spec fn all() -> Seq<AppRoute> {
        seq![AppRoute::All, AppRoute::Active, AppRoute::Completed]
    }

    /// The name under which the page offers this route.
    pub open spec fn name(self) -> Seq<char> {
        match self {
            AppRoute::All => "All"@,
            AppRoute::Active => "Active"@,
            AppRoute::Completed => "Completed"@,
        }
    }

    /// Whether an item with the given `completed` flag is shown under this
    /// route.
    pub fn shows(&self, completed: bool) -> (shown: bool)
        ensures
            shown == self.accepts(completed),
    {
        match self {
            AppRoute::All => true,
            AppRoute::Active => !completed,
            AppRoute::Completed => completed,
        }
    }

    /// Every route, in the order in which the page offers them.
    pub fn iter() -> (routes: Vec<AppRoute>)
        ensures
            routes@ == AppRoute::all(),
    {
        let mut routes: Vec<AppRoute> = Vec::new();
        routes.push(AppRoute::All);
        routes.push(AppRoute::Active);
        routes.push(AppRoute::Completed);
        assert(routes@ =~= AppRoute::all());
        routes
    }

    /// The name under which the page offers this route.
    pub fn to_string(&self) -> (name: String)
        ensures
            name@ == self.name(),
    {
        match self {
            AppRoute::All => "All".to_owned(),
            AppRoute::Active => "Active".to_owned(),
            AppRoute::Completed => "Completed".to_owned(),
        }
    }
}

} // verus!
