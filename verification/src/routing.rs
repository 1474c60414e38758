//! Which page a request path shows.
//!
//! The router tries the routes in the order of `spec_routed_pages`; a route
//! is a single static path segment, matched by leptos_router's
//! `StaticSegment`, and it is taken when the segment match leaves nothing of
//! the path but an optional trailing `/`. A path that no route takes shows
//! the not-found page.

use vstd::prelude::*;
use leptos_router::PossibleRouteMatch;
use leptos_router::StaticSegment;
use crate::pages::Page;

verus! {

/// A segment as the site's routes write them: no `/` in it (it may be empty).
pub open spec fn is_plain_segment(segment: Seq<char>) -> bool {
    forall|i: int| 0 <= i < segment.len() ==> segment[i] != '/'
}

/// What `StaticSegment(segment).test(path)` leaves of `path`, for a plain
/// segment: `None` when the segment does not match at the start of `path`.
///
/// The empty segment matches any path that is empty or starts with `/` and
/// consumes nothing. A non-empty segment matches `"/" + segment` followed by
/// the end of the path or by a `/`, and leaves what follows it.
pub open spec fn static_segment_remaining(segment: Seq<char>, path: Seq<char>) -> Option<Seq<char>> {
    if segment.len() == 0 {
        if path.len() == 0 || path[0] == '/' {
            Some(path)
        } else {
            None
        }
    } else {
        let n = segment.len() + 1;
        if path.len() >= n && path[0] == '/' && path.subrange(1, n as int) == segment && (path.len()
            == n || path[n as int] == '/') {
            Some(path.skip(n as int))
        } else {
            None
        }
    }
}

/// A route takes a path when its segment matched and left nothing, or a lone `/`.
pub open spec fn is_complete_match(remaining: Option<Seq<char>>) -> bool {
    match remaining {
        Some(r) => r.len() == 0 || r == seq!['/'],
        None => false,
    }
}

/// The pages that have a route, in the order the router tries them.
pub open spec fn spec_routed_pages() -> Seq<Page> {
    seq![Page::Home, Page::Projects, Page::About, Page::Contact]
}

/// The path segment of each routed page's route (the not-found page has
/// none; it is given the empty sequence only to keep the function total).
pub open spec fn spec_route_segment(page: Page) -> Seq<char> {
    match page {
        Page::Home => ""@,
        Page::Projects => "projects"@,
        Page::About => "about"@,
        Page::Contact => "contact"@,
        Page::NotFound => Seq::empty(),
    }
}

/// The page shown for `path` when the routes from index `i` on are tried.
pub open spec fn resolve_from(path: Seq<char>, i: nat) -> Page
    decreases spec_routed_pages().len() - i,
{
    if i >= spec_routed_pages().len() {
        Page::NotFound
    } else {
        let page = spec_routed_pages()[i as int];
        if is_complete_match(static_segment_remaining(spec_route_segment(page), path)) {
            page
        } else {
            resolve_from(path, i + 1)
        }
    }
}

/// The page shown for `path`.
pub open spec fn spec_resolve_page(path: Seq<char>) -> Page {
    resolve_from(path, 0)
}

/// The view of an optional string, as a sequence of characters.
pub open spec fn option_string_view(s: Option<String>) -> Option<Seq<char>> {
    match s {
        Some(r) => Some(r@),
        None => None,
    }
}

/// Calls leptos_router's `StaticSegment(segment).test(path)` (leptos_router
/// 0.8.17, `matching/horizontal/static_segment.rs`) and returns the remaining
/// part of the path of the match. The contract restates that function for
/// segments without `/`: the empty segment matches a path that is empty or
/// starts with `/` and leaves all of it; a non-empty segment matches only
/// `"/" + segment` followed by the end or by `/`, and leaves the rest.
#[verifier::external_body]
fn segment_remaining(segment: &'static str, path: &str) -> (remaining: Option<String>)
    requires
        is_plain_segment(segment@),
    ensures
        option_string_view(remaining) == static_segment_remaining(segment@, path@),
{
    match StaticSegment(segment).test(path) {
        Some(partial) => Some(partial.remaining().to_string()),
        None => None,
    }
}

/// The pages that have a route, in the order the router tries them.
pub fn routed_pages() -> (pages: Vec<Page>)
    ensures
        pages@ == spec_routed_pages(),
{
    let pages = vec![Page::Home, Page::Projects, Page::About, Page::Contact];
    assert(pages@ =~= spec_routed_pages());
    pages
}

/// The path segment of `page`'s route; the not-found page has no route.
pub fn route_segment(page: Page) -> (segment: Option<&'static str>)
    ensures
        segment is None <==> page == Page::NotFound,
        segment matches Some(s) ==> s@ == spec_route_segment(page),
{
    match page {
        Page::Home => Some(""),
        Page::Projects => Some("projects"),
        Page::About => Some("about"),
        Page::Contact => Some("contact"),
        Page::NotFound => None,
    }
}

/// Whether a segment match with `remaining` left over completes a route:
/// the segment matched and left nothing, or a lone `/`.
pub fn is_complete_route_match(remaining: &Option<String>) -> (complete: bool)
    ensures
        complete == is_complete_match(option_string_view(*remaining)),
{
    match remaining {
        Some(r) => {
            let s = r.as_str();
            if s.is_empty() {
                true
            } else if s.unicode_len() == 1 && s.get_char(0) == '/' {
                assert(s@ =~= seq!['/']);
                true
            } else {
                false
            }
        },
        None => false,
    }
}

/// The route segments have no `/` in them.
pub proof fn lemma_route_segments_plain(page: Page)
    ensures
        is_plain_segment(spec_route_segment(page)),
{
    reveal_strlit("");
    reveal_strlit("projects");
    reveal_strlit("about");
    reveal_strlit("contact");
}

/// The page shown for a request path: the first routed page whose segment
/// completes a match on `path`, else the not-found page.
pub fn resolve_page(path: &str) -> (page: Page)
    ensures
        page == spec_resolve_page(path@),
{
    let pages = routed_pages();
    let mut i: usize = 0;
    while i < pages.len()
        invariant
            pages@ == spec_routed_pages(),
            i <= pages.len(),
            spec_resolve_page(path@) == resolve_from(path@, i as nat),
        decreases pages.len() - i,
    {
        let page = pages[i];
        proof {
            lemma_route_segments_plain(page);
        }
        if let Some(segment) = route_segment(page) {
            let remaining = segment_remaining(segment, path);
            if is_complete_route_match(&remaining) {
                return page;
            }
        }
        i += 1;
    }
    Page::NotFound
}

/// The path that links to each page (the not-found page has none; it is
/// given the empty sequence only to keep the function total).
pub open spec fn spec_page_href(page: Page) -> Seq<char> {
    match page {
        Page::Home => "/"@,
        Page::Projects => "/projects"@,
        Page::About => "/about"@,
        Page::Contact => "/contact"@,
        Page::NotFound => Seq::empty(),
    }
}

/// The path that links to `page`; the not-found page has none.
pub fn page_href(page: Page) -> (href: Option<&'static str>)
    ensures
        href is None <==> page == Page::NotFound,
        href matches Some(h) ==> h@ == spec_page_href(page),
{
    match page {
        Page::Home => Some("/"),
        Page::Projects => Some("/projects"),
        Page::About => Some("/about"),
        Page::Contact => Some("/contact"),
        Page::NotFound => None,
    }
}

/// The paths on which the router shows a routed `page`: the empty path and
/// `/` for the home page; a page's link path, with or without a trailing
/// `/`, for the others. No path shows the not-found page through a route.
pub open spec fn path_routes_to(page: Page, path: Seq<char>) -> bool {
    match page {
        Page::Home => path.len() == 0 || path == seq!['/'],
        Page::NotFound => false,
        _ => path == spec_page_href(page) || path == spec_page_href(page).push('/'),
    }
}

proof fn lemma_literals()
    ensures
        "/"@ == seq!['/'],
        ""@ == Seq::<char>::empty(),
        "projects"@ == seq!['p', 'r', 'o', 'j', 'e', 'c', 't', 's'],
        "about"@ == seq!['a', 'b', 'o', 'u', 't'],
        "contact"@ == seq!['c', 'o', 'n', 't', 'a', 'c', 't'],
        "/projects"@ == seq!['/'] + "projects"@,
        "/about"@ == seq!['/'] + "about"@,
        "/contact"@ == seq!['/'] + "contact"@,
{
    reveal_strlit("/");
    reveal_strlit("");
    reveal_strlit("projects");
    reveal_strlit("about");
    reveal_strlit("contact");
    reveal_strlit("/projects");
    reveal_strlit("/about");
    reveal_strlit("/contact");
    assert("/projects"@ =~= seq!['/'] + "projects"@);
    assert("/about"@ =~= seq!['/'] + "about"@);
    assert("/contact"@ =~= seq!['/'] + "contact"@);
}

/// A non-empty plain segment completes a match on exactly two paths:
/// `"/" + segment` and `"/" + segment + "/"`.
proof fn lemma_segment_complete(segment: Seq<char>, path: Seq<char>)
    requires
        segment.len() > 0,
        is_plain_segment(segment),
    ensures
        is_complete_match(static_segment_remaining(segment, path)) <==> (path == seq!['/']
            + segment || path == (seq!['/'] + segment).push('/')),
{
    let n = segment.len() + 1;
    let a = seq!['/'] + segment;
    let b = a.push('/');
    if is_complete_match(static_segment_remaining(segment, path)) {
        assert(path.subrange(1, n as int) == segment);
        if path.len() == n {
            assert(path =~= a);
        } else {
            assert(path.skip(n as int) == seq!['/']);
            assert(path.len() == n + 1);
            assert(path[n as int] == path.skip(n as int)[0]);
            assert(path =~= b);
        }
    }
    if path == a {
        assert(path.subrange(1, n as int) =~= segment);
        assert(path.skip(n as int) =~= Seq::<char>::empty());
    }
    if path == b {
        assert(path.subrange(1, n as int) =~= segment);
        assert(path.skip(n as int) =~= seq!['/']);
    }
}

/// The empty segment completes a match on exactly the empty path and `/`.
proof fn lemma_empty_segment_complete(path: Seq<char>)
    ensures
        is_complete_match(static_segment_remaining(Seq::empty(), path)) <==> (path.len() == 0
            || path == seq!['/']),
{
}

/// The router's choice, written as one `if` per route.
proof fn lemma_resolve_page_cases(path: Seq<char>)
    ensures
        spec_resolve_page(path) == (if path_routes_to(Page::Home, path) {
            Page::Home
        } else if path_routes_to(Page::Projects, path) {
            Page::Projects
        } else if path_routes_to(Page::About, path) {
            Page::About
        } else if path_routes_to(Page::Contact, path) {
            Page::Contact
        } else {
            Page::NotFound
        }),
{
    lemma_literals();
    lemma_empty_segment_complete(path);
    lemma_route_segments_plain(Page::Projects);
    lemma_route_segments_plain(Page::About);
    lemma_route_segments_plain(Page::Contact);
    lemma_segment_complete(spec_route_segment(Page::Projects), path);
    lemma_segment_complete(spec_route_segment(Page::About), path);
    lemma_segment_complete(spec_route_segment(Page::Contact), path);
    assert(spec_route_segment(Page::Home) == Seq::<char>::empty());
    assert(spec_routed_pages()[0] == Page::Home);
    assert(spec_routed_pages()[1] == Page::Projects);
    assert(spec_routed_pages()[2] == Page::About);
    assert(spec_routed_pages()[3] == Page::Contact);
    assert(resolve_from(path, 4) == Page::NotFound);
    assert(resolve_from(path, 3) == (if path_routes_to(Page::Contact, path) {
        Page::Contact
    } else {
        Page::NotFound
    }));
    assert(resolve_from(path, 2) == (if path_routes_to(Page::About, path) {
        Page::About
    } else {
        resolve_from(path, 3)
    }));
    assert(resolve_from(path, 1) == (if path_routes_to(Page::Projects, path) {
        Page::Projects
    } else {
        resolve_from(path, 2)
    }));
    assert(resolve_from(path, 0) == (if path_routes_to(Page::Home, path) {
        Page::Home
    } else {
        resolve_from(path, 1)
    }));
}

/// No path routes to two different pages.
proof fn lemma_routed_paths_disjoint(path: Seq<char>, p: Page, q: Page)
    requires
        path_routes_to(p, path),
        path_routes_to(q, path),
    ensures
        p == q,
{
    lemma_literals();
    if p != q {
        if p == Page::Home || q == Page::Home {
            assert(path.len() <= 1);
        } else {
            assert(path.len() >= 2);
            assert(path[1] == spec_route_segment(p)[0]) by {
                assert(spec_page_href(p) == seq!['/'] + spec_route_segment(p));
                assert(spec_page_href(p).push('/')[1] == spec_page_href(p)[1]);
            }
            assert(path[1] == spec_route_segment(q)[0]) by {
                assert(spec_page_href(q) == seq!['/'] + spec_route_segment(q));
                assert(spec_page_href(q).push('/')[1] == spec_page_href(q)[1]);
            }
        }
    }
}

/// Routing law: a routed page is shown on exactly the paths that
/// `path_routes_to` gives for it, and the not-found page on every other path.
pub proof fn lemma_resolve_page_exact(path: Seq<char>, page: Page)
    ensures
        spec_resolve_page(path) == page <==> (path_routes_to(page, path) || (page == Page::NotFound
            && forall|p: Page| !#[trigger] path_routes_to(p, path))),
{
    lemma_resolve_page_cases(path);
    let shown = spec_resolve_page(path);
    if path_routes_to(page, path) {
        if path_routes_to(shown, path) {
            lemma_routed_paths_disjoint(path, page, shown);
        }
    }
    if shown == Page::NotFound {
        assert forall|p: Page| !#[trigger] path_routes_to(p, path) by {
            match p {
                Page::Home => {},
                Page::Projects => {},
                Page::About => {},
                Page::Contact => {},
                Page::NotFound => {},
            }
        }
    }
}

} // verus!
