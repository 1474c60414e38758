# bayworks

The logic of the BayWorks website, verified with Verus.

- `src/routing.rs`: the route table and the page a request path shows, with
  the exact set of paths that reach each page.
- `src/pages.rs`: the pages and their document titles.
- `src/nav.rs`: the header's navigation links, each proved to reach its page.
- `src/menu.rs`: the header menu's open/closed state machine.
- `app/`: the Leptos components (document shell, layout, pages), which take
  their routes, titles, links and menu behaviour from the library.
