use bayworks::pages::Page;
use bayworks::routing::{is_complete_route_match, page_href, resolve_page, route_segment, routed_pages};
use leptos_router::{MatchInterface, NestedRoute, RouteDefs, StaticSegment};

#[test]
fn home_is_shown_at_root() {
    assert_eq!(resolve_page("/"), Page::Home);
    assert_eq!(resolve_page(""), Page::Home);
}

#[test]
fn each_route_path_shows_its_page() {
    assert_eq!(resolve_page("/projects"), Page::Projects);
    assert_eq!(resolve_page("/about"), Page::About);
    assert_eq!(resolve_page("/contact"), Page::Contact);
}

#[test]
fn trailing_slash_is_accepted() {
    assert_eq!(resolve_page("/projects/"), Page::Projects);
    assert_eq!(resolve_page("/about/"), Page::About);
    assert_eq!(resolve_page("/contact/"), Page::Contact);
}

#[test]
fn unknown_paths_show_not_found() {
    assert_eq!(resolve_page("/nope"), Page::NotFound);
    assert_eq!(resolve_page("/projectsx"), Page::NotFound);
    assert_eq!(resolve_page("/project"), Page::NotFound);
    assert_eq!(resolve_page("/projects/kamiroh"), Page::NotFound);
    assert_eq!(resolve_page("/about//"), Page::NotFound);
    assert_eq!(resolve_page("//"), Page::NotFound);
    assert_eq!(resolve_page("projects"), Page::NotFound);
    assert_eq!(resolve_page("/Projects"), Page::NotFound);
    assert_eq!(resolve_page("/contact/x/"), Page::NotFound);
}

#[test]
fn non_ascii_paths_show_not_found() {
    assert_eq!(resolve_page("/abouté"), Page::NotFound);
    assert_eq!(resolve_page("/é"), Page::NotFound);
}

#[test]
fn routed_pages_in_router_order() {
    assert_eq!(routed_pages(), vec![Page::Home, Page::Projects, Page::About, Page::Contact]);
}

#[test]
fn route_segments_and_hrefs() {
    assert_eq!(route_segment(Page::Home), Some(""));
    assert_eq!(route_segment(Page::Projects), Some("projects"));
    assert_eq!(route_segment(Page::About), Some("about"));
    assert_eq!(route_segment(Page::Contact), Some("contact"));
    assert_eq!(route_segment(Page::NotFound), None);
    assert_eq!(page_href(Page::Home), Some("/"));
    assert_eq!(page_href(Page::Projects), Some("/projects"));
    assert_eq!(page_href(Page::About), Some("/about"));
    assert_eq!(page_href(Page::Contact), Some("/contact"));
    assert_eq!(page_href(Page::NotFound), None);
}

#[test]
fn complete_match_rule() {
    assert!(is_complete_route_match(&Some(String::new())));
    assert!(is_complete_route_match(&Some("/".to_string())));
    assert!(!is_complete_route_match(&Some("/x".to_string())));
    assert!(!is_complete_route_match(&Some("//".to_string())));
    assert!(!is_complete_route_match(&None));
}

#[test]
fn every_href_resolves_to_its_page() {
    for page in routed_pages() {
        assert_eq!(resolve_page(page_href(page).unwrap()), page);
    }
}

fn leptos_choice(path: &str) -> Page {
    let routes = RouteDefs::new_with_base(
        (
            NestedRoute::new(StaticSegment(""), || ()),
            NestedRoute::new(StaticSegment("projects"), || ()),
            NestedRoute::new(StaticSegment("about"), || ()),
            NestedRoute::new(StaticSegment("contact"), || ()),
        ),
        "",
    );
    match routes.match_route(path) {
        None => Page::NotFound,
        Some(m) => match m.as_matched() {
            "" => Page::Home,
            "/projects" => Page::Projects,
            "/about" => Page::About,
            "/contact" => Page::Contact,
            other => panic!("unexpected match {other}"),
        },
    }
}

#[test]
fn agrees_with_the_leptos_router() {
    let paths = [
        "", "/", "//", "/projects", "/projects/", "/projects//", "/projectsx", "/project",
        "/about", "/about/", "/about/us", "/contact", "/contact/", "/nope", "projects", "/é",
        "/Projects", "/contact/x/",
    ];
    for path in paths {
        assert_eq!(resolve_page(path), leptos_choice(path), "path {path:?}");
    }
}
