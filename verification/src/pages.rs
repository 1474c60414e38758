//! The pages of the site and the text that names them.

use vstd::prelude::*;

verus! {

/// A page of the site. `NotFound` is what any path without a route shows.
#[derive(Clone, Copy, Debug, PartialEq, Eq, Structural)]
pub enum Page {
    Home,
    Projects,
    About,
    Contact,
    NotFound,
}

/// The document title that each page sets.
pub open spec fn spec_page_title(page: Page) -> Seq<char> {
    match page {
        Page::Home => "BayWorks — Software Engineering"@,
        Page::Projects => "Projects — BayWorks"@,
        Page::About => "About — BayWorks"@,
        Page::Contact => "Contact — BayWorks"@,
        Page::NotFound => "Not found — BayWorks"@,
    }
}

/// The document title of `page`.
pub fn page_title(page: Page) -> (title: &'static str)
    ensures
        title@ == spec_page_title(page),
{
    match page {
        Page::Home => "BayWorks — Software Engineering",
        Page::Projects => "Projects — BayWorks",
        Page::About => "About — BayWorks",
        Page::Contact => "Contact — BayWorks",
        Page::NotFound => "Not found — BayWorks",
    }
}

} // verus!
