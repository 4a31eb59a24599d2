# club_im

The core of an instant messaging service, written in Verus: direct conversations and groups,
messages with sequence numbers, read marks, recalls, group management, and the real-time channel.

The library does no I/O. A request is a state machine (`src/flow.rs`): each step asks its
environment for one action, such as reading a row or pushing a text, and goes on with the answer.
`app/` is the environment: tables in PostgreSQL, HTTP routes and WebSocket connections.

| Where | What |
| --- | --- |
| `src/domain.rs` | rules on single values: message checks, previews, unread counts |
| `src/entity/` | the rows of conversations, members and messages |
| `src/error.rs` | the errors, with status, code, text and field |
| `src/flow.rs` | actions, answers, steps |
| `src/repo/` | data access: joining, creating, listing, storing, handing over |
| `src/service.rs` | sending, reading, recalling, receipts |
| `src/routes/` | the requests of the HTTP interface and the documents they are answered with |
| `src/realtime/` | connections, envelopes, and what clients ask for over a connection |
| `src/store.rs` | the tables as a mathematical value, and how a request ends on them |
| `src/guarantees/` | what is promised of requests, proved |
| `src/text.rs`, `src/json.rs`, `src/ids.rs`, `src/clock.rs` | what is taken from other crates |
| `tests/` | tests, with tables in memory |
| `app/` | the service around the library |
