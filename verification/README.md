# data_sync_tool

A data synchronization engine: sync plans are split into tasks, task queues
hand the tasks out under per-plan rate limits, and workers fetch each task's
data over HTTP or a websocket. A message-driven engine (engine, supervisor,
task manager, workers) coordinates the whole.

Layout:

- `src/` is the library, written in Verus. Every function there carries a
  contract that Verus proves: the rate limiter, the task queues and task
  managers, the decisions of the engine's components (each a function from
  a command or response to the actions it causes), the workers' steps, the
  message-bus wrappers over tokio channels, and the builders and factories.
  Calls into outside crates (uuid, chrono, tokio, reqwest's header types,
  serde_json) stand behind small trusted wrappers whose doc comments say
  what is assumed of them.
- `app/` is ordinary Rust around the library: the async runtime that runs
  the engine's loops, the HTTP and websocket I/O, and a websocket echo
  client as the program's entry point.
- `tests/` holds the tests, run against the compiled library.
