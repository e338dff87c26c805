# rdbs_interface

A desktop tool for managing PostgreSQL logical replication: after logging in,
the user adds tables to publications, renames publications, and disables or
renames subscriptions.

- `src/` is the verified library (Verus). Each screen is a state machine whose
  `update` returns a `Task` describing what must happen next (deliver a
  message, run a database job, open a connection, move the focus). The
  contracts state each transition exactly (`step`), the SQL sent for each job
  (`sql.rs`), and `laws.rs` proves properties of the screens together: the
  connection never changes once logged in, going back closes exactly one
  screen, and fetched rows reach the screen that asked for them.
- `app/` is the iced application around it: rendering, the event loop,
  running the jobs with `tokio-postgres`, and reading the desktop theme.
- `tests/` exercises the library on concrete values.
