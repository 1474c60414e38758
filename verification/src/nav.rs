//! The site header: its navigation links and the mobile menu that shows or
//! hides them.

use vstd::prelude::*;
use crate::pages::Page;
use crate::routing::{path_routes_to, spec_page_href, spec_resolve_page, spec_routed_pages, lemma_resolve_page_exact};

verus! {

/// A link of the header's navigation bar.
#[derive(Clone, Copy, Debug)]
pub struct NavLink {
    pub page: Page,
    pub href: &'static str,
    pub label: &'static str,
}

/// The text of each routed page's navigation link.
pub open spec fn spec_nav_label(page: Page) -> Seq<char> {
    match page {
        Page::Home => "Home"@,
        Page::Projects => "Projects"@,
        Page::About => "About"@,
        Page::Contact => "Contact"@,
        Page::NotFound => Seq::empty(),
    }
}

/// The header's navigation links: one per routed page, in route order, each
/// with that page's link path and label.
pub fn nav_links() -> (links: Vec<NavLink>)
    ensures
        links@.len() == spec_routed_pages().len(),
        forall|i: int|
            0 <= i < links@.len() ==> {
                &&& #[trigger] links@[i].page == spec_routed_pages()[i]
                &&& links@[i].href@ == spec_page_href(links@[i].page)
                &&& links@[i].label@ == spec_nav_label(links@[i].page)
            },
{
    let links = vec![
        NavLink { page: Page::Home, href: "/", label: "Home" },
        NavLink { page: Page::Projects, href: "/projects", label: "Projects" },
        NavLink { page: Page::About, href: "/about", label: "About" },
        NavLink { page: Page::Contact, href: "/contact", label: "Contact" },
    ];
    assert forall|i: int| 0 <= i < links@.len() implies #[trigger] links@[i].page
        == spec_routed_pages()[i] by {
        assert(spec_routed_pages()[0] == Page::Home);
        assert(spec_routed_pages()[1] == Page::Projects);
        assert(spec_routed_pages()[2] == Page::About);
        assert(spec_routed_pages()[3] == Page::Contact);
    }
    links
}

/// Navigation law: the link path of every routed page brings the router back
/// to that page, so no header link leads to the not-found page.
pub proof fn lemma_nav_links_reach_their_pages(page: Page)
    requires
        spec_routed_pages().contains(page),
    ensures
        spec_resolve_page(spec_page_href(page)) == page,
        page != Page::NotFound,
{
    assert(spec_routed_pages()[0] == Page::Home);
    assert(spec_routed_pages()[1] == Page::Projects);
    assert(spec_routed_pages()[2] == Page::About);
    assert(spec_routed_pages()[3] == Page::Contact);
    reveal_strlit("/");
    assert("/"@ =~= seq!['/']);
    assert(path_routes_to(page, spec_page_href(page)));
    lemma_resolve_page_exact(spec_page_href(page), page);
}

} // verus!
