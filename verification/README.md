# cobase

Group management for the cobase platform, verified with Verus.

- `src/` is the library: stream and document naming (`event`), the group
  command, its validation and the event it records (`group::command`), group
  events (`group::event`), the read model and its queries (`group::query`),
  errors and validation reports with their messages (`error`), notifications
  (`publisher`), HTTP replies (`response`), the services' settings
  (`api_config`, `worker_config`) and text routines (`text`).
- `app/` runs the two services (`api`, `worker`): HTTP routes, the actors
  that talk to the event store, the document store and redis, and the
  subscription loop, which follows the library's decisions.
- `tests/` runs the library on concrete values.
