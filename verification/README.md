# bandcompta

Bookkeeping for a band: transactions with their supporting documents,
companies and tags, merchandise stock, and an HTTP API that serves them.

- `src/` is the library, verified with Verus. Each function states in its
  contract what it returns, and the properties that span functions (what a
  form gives back, what storage reads back, what a query binds) are proof
  functions next to the code they are about. Two things are left open where
  they depend on something outside the library: which component of an
  uploaded file's path is its name when the path holds `\`, has `:` as its
  second character or starts with two separators (that depends on the
  platform's separators and drive or network prefixes; a path without
  such a prefix whose final segment is not empty, `.` or `..` is still
  always stored under some name), and the amount
  that typed amount text becomes (the library holds amounts as bit
  patterns; reading and adding them up is done in `app/`).
  - `text`: blank texts, comparisons, decimal formatting and parsing, URL queries.
  - `models`: transactions, amounts, date filters, companies, tags.
  - `inventory`: products, variants, attributes and their rules, stock movements.
  - `api`: the API's paths and the URLs a client calls.
  - `store`: the queries the server runs and how it reads stored values back.
  - `invoices`: where uploaded documents go and under which name.
  - `forms`: what the web forms start with, send, and read from their selectors.
  - `records`: rows of the older transaction schema.
- `app/` is the program around the library. Built for a server it is the
  API (axum and SQLite); built for the browser (wasm32) it is the web
  interface (yew) and its client (gloo-net). It converts between the
  library's records and their JSON and SQL forms, and it adds up, reads and
  prints amounts, which the library holds as bit patterns.
- `tests/` runs the library on concrete values.
