//! Routes of the site and the choice between the shell page and a fragment.
use vstd::prelude::*;

verus! {

/// One of the site's logical routes.
pub enum Route {
    Home,
    Posts,
    Post(String),
    Projects,
    Project(String),
    About,
    Tag(String),
}

/// The path at which a route is served.
pub open spec fn path_of(route: Route) -> Seq<char> {
    match route {
        Route::Home => "/"@,
        Route::Posts => "/posts"@,
        Route::Post(id) => "/post/"@ + id@,
        Route::Projects => "/projects"@,
        Route::Project(id) => "/project/"@ + id@,
        Route::About => "/about"@,
        Route::Tag(tag) => "/tag/"@ + tag@,
    }
}

/// The fragment URL that the shell page of a route loads once it is open:
/// the route's own path, except for the home page, which opens on the posts.
pub open spec fn start_link_of(route: Route) -> Seq<char> {
    match route {
        Route::Home => "/posts"@,
        _ => path_of(route),
    }
}

/// What a request receives: the shell page with its start link, or the
/// fragment of a route.
pub enum Reply {
    Shell(String),
    Fragment(Route),
}

impl Route {
    /// The path at which this route is served.
    pub fn path(&self) -> (p: String)
        ensures
            p@ == path_of(*self),
    {
        match self {
            Route::Home => String::from_str("/"),
            Route::Posts => String::from_str("/posts"),
            Route::Post(id) => String::from_str("/post/").concat(id.as_str()),
            Route::Projects => String::from_str("/projects"),
            Route::Project(id) => String::from_str("/project/").concat(id.as_str()),
            Route::About => String::from_str("/about"),
            Route::Tag(tag) => String::from_str("/tag/").concat(tag.as_str()),
        }
    }

    /// The link that this route's shell page loads as a fragment.
    pub fn start_link(&self) -> (p: String)
        ensures
            p@ == start_link_of(*self),
    {
        match self {
            Route::Home => String::from_str("/posts"),
            _ => self.path(),
        }
    }
}

/// The reply that a request on `route` is owed.
pub open spec fn answers(route: Route, fragment_marker: bool, r: Reply) -> bool {
    match r {
        Reply::Shell(link) => link@ == start_link_of(route) && (!fragment_marker || route is Home),
        Reply::Fragment(f) => f == route && fragment_marker && !(route is Home),
    }
}

/// Decides how a request on `route` is answered. A request that carries the
/// partial-request marker gets the route's fragment; any other request gets
/// the shell page, pointed at the route's start link. The home page has no
/// fragment of its own and always gets the shell.
pub fn respond(route: Route, fragment_marker: bool) -> (r: Reply)
    ensures
        answers(route, fragment_marker, r),
{
    match route {
        Route::Home => Reply::Shell(route.start_link()),
        _ => if fragment_marker {
            Reply::Fragment(route)
        } else {
            Reply::Shell(route.start_link())
        },
    }
}

/// A full navigation to any route but the home page is answered with the shell
/// page whose start link is that route's own path.
pub proof fn lemma_full_navigation_starts_at_own_path(route: Route, r: Reply)
    requires
        !(route is Home),
        answers(route, false, r),
    ensures
        r is Shell,
        r->Shell_0@ == path_of(route),
{
}

} // verus!
