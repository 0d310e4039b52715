# local_board

The request handling of a local project board (projects, issues, workflow
statuses, tags, and tags attached to issues), verified with Verus.

- `src/` is the verified library. Each route of the board is a list of
  steps (`routes`, `steps`): statements to run against the SQLite store
  (`sql`), with the values they bind, and decisions taken on a number the
  store returns (seed a missing project, insert the default statuses and
  tags of a project that has none, number a new issue). `projects`,
  `issues`, `statuses` and `tags` build the statements; `defaults` holds
  the fixed values; `decimal` writes issue numbers; `laws` states what
  holds across requests. Fresh ids and timestamps come from the `uuid` and
  `chrono` crates (`ids`).
- `app/` is the HTTP side: the axum routes, the JSON forms of the records,
  and a loop that runs a route's steps on a `sqlx` SQLite pool.
- `tests/` runs the library on concrete requests.
