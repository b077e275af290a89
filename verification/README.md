# vauxl_core

The chat contract of the Vauxl client (rooms, spaces, members, messages, events,
errors) and an in-memory backend that serves canned data, verified with Verus.

- `src/` is the verified library.
  - `ids`, `model`, `event`, `error`: the data contract. Copies made by `clone`
    are stated equal to their originals (in their views where a type holds a
    `Vec`).
  - `table`: per-room lists with a map view, in which no room occurs twice.
    A `HashMap` keyed by `RoomId` is not used: vstd specifies `HashMap` lookups
    only for key types known to obey its key model (primitives and boxes of
    them), and admitting `RoomId` to it would take an `assume`, which this crate
    does not use.
  - `decimal`: decimal rendering of counters and its injectivity.
  - `clock`: the timestamp of new messages, from the system clock.
  - `sample`: the canned data, pinned down field by field.
  - `mock`: the backend. Each operation of the chat contract is a method with a
    contract over the backend's state; emitted events are queued in an outbox.
    Message identifiers stay unique while the counter does not wrap. The
    tables' well-formedness is a type invariant; no operation changes the user,
    spaces, rooms or member lists.
- `app/` is the asynchronous shell: the `ChatBackend` trait, a shared backend
  that locks, forwards queued events on a broadcast channel and drives the
  demonstration traffic, and the serde forms of the data contract.
- `tests/` runs the library on concrete values.
