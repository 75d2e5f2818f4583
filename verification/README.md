# bitfun_logic

The request handling, task tracking and storage layout of the BitFun desktop's
local agent API, written in Verus with each function's behaviour stated in its
contract and proved.

- `src/local_agent/` — the local agent API: request and error types, the task
  tracker (a `DashMap` of turns), validation of run requests, resolution of the
  session a request names, the steps of a run, bearer-token authorization and the
  HTTP status of each error.
- `src/session_api/` — the session-style API: its types, error texts and the
  table of task results.
- `src/miniapp/` — where a MiniApp's files live and where a JavaScript runtime is
  looked for, and the dependencies of a MiniApp's `package.json`: read from its
  text with `serde_json`, and written as a `serde_json` object.
- `src/tools/` — the portable facts of a tool call's context, and the product
  tools a provider plan can name.
- `src/git_agent.rs`, `src/review_platform.rs` — the decisions of the commit
  message service and the failure messages of the review platform commands.
- `src/text.rs`, `src/clock.rs`, `src/ids.rs`, `src/paths.rs` — trimming and
  prefixes, time stamps, UUID-based identifiers, and planned file paths.
- `src/laws.rs` — properties that relate the operations to one another.
- `app/` — the HTTP server, the token file, the asynchronous wait for a turn, a
  session-result table shared between handles, and the JSON forms of the types.
