# Wichita Housing Logistics

An operations console for coordinating housing logistics in Wichita: case
managers track households through intake, assessment, placement and
follow-up, match them to housing resources, and keep an audit trail. It runs
as a Cloudflare Worker with a D1 database and a Leptos front end.

## Layout

- `src/` — the verified library (Verus). Everything the console decides lives
  here, each function with a contract:
  - `validation`, `error` — input normalisation, allow-lists, and which error
    message reaches the client;
  - `households`, `resources`, `placements`, `activity`, `sitrep`, `todos` —
    what each write accepts and what each read returns, built from database
    rows;
  - `counts`, `dashboard` — grouped counts and their totals;
  - `routing`, `reference` — the feasibility ranking over the property
    catalog, and the field-reference tables;
  - `labels`, `pages`, `web` — the text, classes and form checks the pages
    show, and the response headers;
  - `text` — the string operations the rest is specified with.
- `tests/` — tests on concrete values, run against the compiled library.
- `app/` — the Worker itself: the fetch handler, the D1 queries, the server
  functions and the Leptos pages. It performs the I/O and rendering and calls
  the library for every rule.
