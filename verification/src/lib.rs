//! The BayWorks website's own logic: which page a request path shows, what
//! each page is called, the header's navigation links, and the mobile menu's
//! open/closed state. The Leptos components that render these live in `app/`.

pub mod menu;
pub mod nav;
pub mod pages;
pub mod routing;
