//! The pages of the application and their addresses: a route's path, its
//! text, and the route that a path names.

use vstd::prelude::*;
use crate::slug::Slug;
use crate::text::{eq_literal, join, seq_join, views};
use crate::username::Username;

verus! {

/// A page of the application.
pub enum Route {
    Home,
    Root,
    Login,
    Logout,
    Register,
    Settings,
    Article(Slug),
    Profile(Username),
    NewArticle,
    EditArticle(Slug),
}

/// A route, with the text of its slug or user name.
pub enum RouteView {
    Home,
    Root,
    Login,
    Logout,
    Register,
    Settings,
    Article(Seq<char>),
    Profile(Seq<char>),
    NewArticle,
    EditArticle(Seq<char>),
}

impl View for Route {
    type V = RouteView;

    open spec fn view(&self) -> RouteView {
        match self {
            Route::Home => RouteView::Home,
            Route::Root => RouteView::Root,
            Route::Login => RouteView::Login,
            Route::Logout => RouteView::Logout,
            Route::Register => RouteView::Register,
            Route::Settings => RouteView::Settings,
            Route::Article(s) => RouteView::Article(s@),
            Route::Profile(u) => RouteView::Profile(u@),
            Route::NewArticle => RouteView::NewArticle,
            Route::EditArticle(s) => RouteView::EditArticle(s@),
        }
    }
}

/// The path segment `login`.
pub open spec fn seg_login() -> Seq<char> {
    seq!['l', 'o', 'g', 'i', 'n']
}

/// The path segment `logout`.
pub open spec fn seg_logout() -> Seq<char> {
    seq!['l', 'o', 'g', 'o', 'u', 't']
}

/// The path segment `register`.
pub open spec fn seg_register() -> Seq<char> {
    seq!['r', 'e', 'g', 'i', 's', 't', 'e', 'r']
}

/// The path segment `settings`.
pub open spec fn seg_settings() -> Seq<char> {
    seq!['s', 'e', 't', 't', 'i', 'n', 'g', 's']
}

/// The path segment `article`.
pub open spec fn seg_article() -> Seq<char> {
    seq!['a', 'r', 't', 'i', 'c', 'l', 'e']
}

/// The path segment `profile`.
pub open spec fn seg_profile() -> Seq<char> {
    seq!['p', 'r', 'o', 'f', 'i', 'l', 'e']
}

/// The path segment `editor`.
pub open spec fn seg_editor() -> Seq<char> {
    seq!['e', 'd', 'i', 't', 'o', 'r']
}

/// The segments of a route's path.
pub open spec fn route_path(r: RouteView) -> Seq<Seq<char>> {
    match r {
        RouteView::Home | RouteView::Root => Seq::empty(),
        RouteView::Login => seq![seg_login()],
        RouteView::Logout => seq![seg_logout()],
        RouteView::Register => seq![seg_register()],
        RouteView::Settings => seq![seg_settings()],
        RouteView::Article(slug) => seq![seg_article(), slug],
        RouteView::Profile(username) => seq![seg_profile(), username],
        RouteView::NewArticle => seq![seg_editor()],
        RouteView::EditArticle(slug) => seq![seg_editor(), slug],
    }
}

/// The text of a route: a slash, then the segments of its path joined by
/// slashes.
pub open spec fn route_text(r: RouteView) -> Seq<char> {
    seq!['/'] + seq_join(route_path(r), seq!['/'])
}

/// The route that a path names, where it names one. An empty path or an
/// empty first segment names the home page; a profile or an article needs a
/// second segment that is not empty; the editor without one is the editor of
/// a new article. Segments after those are not read.
pub open spec fn parse_route(p: Seq<Seq<char>>) -> Option<RouteView> {
    if p.len() == 0 || p[0].len() == 0 {
        Some(RouteView::Home)
    } else if p[0] == seg_login() {
        Some(RouteView::Login)
    } else if p[0] == seg_logout() {
        Some(RouteView::Logout)
    } else if p[0] == seg_settings() {
        Some(RouteView::Settings)
    } else if p[0] == seg_profile() {
        if p.len() > 1 && p[1].len() > 0 {
            Some(RouteView::Profile(p[1]))
        } else {
            None
        }
    } else if p[0] == seg_register() {
        Some(RouteView::Register)
    } else if p[0] == seg_article() {
        if p.len() > 1 && p[1].len() > 0 {
            Some(RouteView::Article(p[1]))
        } else {
            None
        }
    } else if p[0] == seg_editor() {
        if p.len() > 1 && p[1].len() > 0 {
            Some(RouteView::EditArticle(p[1]))
        } else {
            Some(RouteView::NewArticle)
        }
    } else {
        None
    }
}

/// Whether the slug or user name that a route carries is not empty.
pub open spec fn has_named_parts(r: RouteView) -> bool {
    match r {
        RouteView::Article(s) => s.len() > 0,
        RouteView::Profile(u) => u.len() > 0,
        RouteView::EditArticle(s) => s.len() > 0,
        _ => true,
    }
}

/// The route read back from the path of a route is that route, for every
/// route whose slug or user name is not empty; the root's empty path reads
/// back as the home page.
pub proof fn lemma_parse_path_roundtrip(r: RouteView)
    requires
        has_named_parts(r),
    ensures
        r != RouteView::Root ==> parse_route(route_path(r)) == Some(r),
        r == RouteView::Root ==> parse_route(route_path(r)) == Some(RouteView::Home),
{
    let p = route_path(r);
    match r {
        RouteView::Login => {
            assert(p[0] == seg_login());
        },
        RouteView::Logout => {
            assert(p[0] == seg_logout());
            assert(seg_logout() != seg_login());
        },
        RouteView::Settings => {
            assert(p[0] == seg_settings());
            assert(seg_settings() != seg_login());
            assert(seg_settings() != seg_logout());
        },
        RouteView::Register => {
            assert(p[0] == seg_register());
            assert(seg_register()[0] != seg_settings()[0]);
            assert(seg_register() != seg_login());
            assert(seg_register() != seg_logout());
            assert(seg_register() != seg_profile());
        },
        RouteView::Profile(u) => {
            assert(p[0] == seg_profile());
            assert(seg_profile() != seg_login());
            assert(seg_profile() != seg_logout());
            assert(seg_profile()[0] != seg_settings()[0]);
        },
        RouteView::Article(s) => {
            assert(p[0] == seg_article());
            assert(seg_article() != seg_login());
            assert(seg_article() != seg_logout());
            assert(seg_article()[0] != seg_settings()[0]);
            assert(seg_article()[0] != seg_profile()[0]);
            assert(seg_article()[0] != seg_register()[0]);
        },
        RouteView::NewArticle | RouteView::EditArticle(_) => {
            assert(p[0] == seg_editor());
            assert(seg_editor() != seg_login());
            assert(seg_editor() != seg_logout());
            assert(seg_editor()[0] != seg_settings()[0]);
            assert(seg_editor()[0] != seg_profile()[0]);
            assert(seg_editor()[0] != seg_register()[0]);
            assert(seg_editor()[0] != seg_article()[0]);
        },
        _ => {},
    }
}

/// The literal segments, character by character.
proof fn lemma_segment_literals()
    ensures
        "login"@ == seg_login(),
        "logout"@ == seg_logout(),
        "register"@ == seg_register(),
        "settings"@ == seg_settings(),
        "article"@ == seg_article(),
        "profile"@ == seg_profile(),
        "editor"@ == seg_editor(),
        "/"@ == seq!['/'],
{
    reveal_strlit("login");
    reveal_strlit("logout");
    reveal_strlit("register");
    reveal_strlit("settings");
    reveal_strlit("article");
    reveal_strlit("profile");
    reveal_strlit("editor");
    reveal_strlit("/");
    assert("login"@ =~= seg_login());
    assert("logout"@ =~= seg_logout());
    assert("register"@ =~= seg_register());
    assert("settings"@ =~= seg_settings());
    assert("article"@ =~= seg_article());
    assert("profile"@ =~= seg_profile());
    assert("editor"@ =~= seg_editor());
    assert("/"@ =~= seq!['/']);
}

/// A segment of a path, from a literal.
fn segment(lit: &str) -> (s: String)
    ensures
        s@ == lit@,
{
    String::from_str(lit)
}

impl Route {
    /// The segments of the route's path.
    pub fn path(&self) -> (r: Vec<String>)
        ensures
            views(r@) == route_path(self@),
    {
        proof {
            lemma_segment_literals();
        }
        let mut r: Vec<String> = Vec::new();
        match self {
            Route::Home | Route::Root => {},
            Route::Login => {
                r.push(segment("login"));
            },
            Route::Logout => {
                r.push(segment("logout"));
            },
            Route::Register => {
                r.push(segment("register"));
            },
            Route::Settings => {
                r.push(segment("settings"));
            },
            Route::Article(slug) => {
                r.push(segment("article"));
                r.push(slug.value.clone());
            },
            Route::Profile(username) => {
                r.push(segment("profile"));
                r.push(username.value.clone());
            },
            Route::NewArticle => {
                r.push(segment("editor"));
            },
            Route::EditArticle(slug) => {
                r.push(segment("editor"));
                r.push(slug.value.clone());
            },
        }
        assert(views(r@) =~= route_path(self@));
        r
    }

    /// The text of the route: a slash, then the segments of its path joined
    /// by slashes.
    pub fn to_string(&self) -> (r: String)
        ensures
            r@ == route_text(self@),
    {
        proof {
            lemma_segment_literals();
        }
        let mut r = String::from_str("/");
        let segments = self.path();
        let joined = join(&segments, "/");
        r.append(joined.as_str());
        r
    }

    /// The route that a path names: `Err(())` where it names none.
    pub fn from_path(path: &Vec<String>) -> (r: Result<Route, ()>)
        ensures
            match parse_route(views(path@)) {
                Some(rv) => (r matches Ok(route) && route@ == rv),
                None => r is Err,
            },
    {
        proof {
            lemma_segment_literals();
        }
        let ghost p = views(path@);
        if path.len() == 0 {
            return Ok(Route::Home);
        }
        assert(p[0] == path@[0]@);
        let first = &path[0];
        if first.unicode_len() == 0 {
            return Ok(Route::Home);
        }
        let second: Option<String> = if path.len() > 1 && path[1].unicode_len() > 0 {
            Some(path[1].clone())
        } else {
            None
        };
        assert(path.len() > 1 ==> p[1] == path@[1]@);
        if eq_literal(first, "login") {
            Ok(Route::Login)
        } else if eq_literal(first, "logout") {
            Ok(Route::Logout)
        } else if eq_literal(first, "settings") {
            Ok(Route::Settings)
        } else if eq_literal(first, "profile") {
            match second {
                Some(s) => Ok(Route::Profile(Username::new(s))),
                None => Err(()),
            }
        } else if eq_literal(first, "register") {
            Ok(Route::Register)
        } else if eq_literal(first, "article") {
            match second {
                Some(s) => Ok(Route::Article(Slug::new(s))),
                None => Err(()),
            }
        } else if eq_literal(first, "editor") {
            match second {
                Some(s) => Ok(Route::EditArticle(Slug::new(s))),
                None => Ok(Route::NewArticle),
            }
        } else {
            Err(())
        }
    }
}

impl Clone for Route {
    fn clone(&self) -> (r: Self)
        ensures
            r == *self,
    {
        match self {
            Route::Home => Route::Home,
            Route::Root => Route::Root,
            Route::Login => Route::Login,
            Route::Logout => Route::Logout,
            Route::Register => Route::Register,
            Route::Settings => Route::Settings,
            Route::Article(s) => Route::Article(s.clone()),
            Route::Profile(u) => Route::Profile(u.clone()),
            Route::NewArticle => Route::NewArticle,
            Route::EditArticle(s) => Route::EditArticle(s.clone()),
        }
    }
}

} // verus!
