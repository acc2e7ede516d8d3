# crossref-client

A client for the [Crossref REST API](https://api.crossref.org), written in
Verus: the queries, the routes and query strings they render to, the rate
limit and retry decisions, deep paging, content negotiation and the
citation-key matching of the `cite` command are proved against their
contracts.

## Layout

- `src/` — the verified library.
  - `query/` — the query types of every route (`/works`, `/funders`,
    `/members`, `/journals`, `/prefixes`, `/types`, `/licenses`), their
    filters, field queries and elements, and the routes they render to.
  - `encode.rs`, `words.rs`, `numbers.rs`, `text.rs`, `date.rs` — percent
    encoding, query text, number parsing and dates.
  - `limit.rs` — the rate limit crossref reports, the pacing of requests and
    the retry budget after a `429`.
  - `paging.rs` — cursor-based deep paging.
  - `citekey.rs` — bibtex citation keys such as `LindforsJakobsen2022`:
    parsing, alternate spellings, and how a work answers a key.
  - `cn.rs` — content negotiation formats.
  - `journal.rs` — a journal's DOI counts by year.
  - `builder.rs` — the client's settings.
  - `cli.rs` — the decisions of the command line: reading its arguments into
    queries, and what `cite` asks and concludes.
- `app/` — the HTTP client over `reqwest`, the `crossref` command line over
  `clap`, and the JSON it writes.
- `tests/` — tests of the library.
