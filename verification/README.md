# break_timer

A break-reminder timer: work sessions count down to a break, every few short
breaks a long one comes, settings persist, and keyboard shortcuts drive it.

- `src/` is the verified library. Each command takes the state and the current
  instant (nanoseconds since the Unix epoch), updates the state and returns the
  side effects as a list of `Action`s, in order. Its contracts state the new
  state and the actions exactly; `src/laws.rs` proves properties that span
  several operations (settings read back as written, pause then resume keeps
  the time left, the long-break cycle, breaks and running sessions never
  overlap, the shortcuts toggle).
  - `decimal`: decimal text of integers, written and read as `i64` does.
  - `clock`: RFC 3339 instants through chrono, and the seconds left.
  - `settings`, `session`, `state`: the data and its accessors.
  - `commands`, `shortcuts`: the decisions.
  - `text`: texts and comparisons on text.
- `app/` is a terminal host: it keeps the state behind a mutex, runs the
  countdowns with tokio, reads and writes the settings file as JSON, and carries
  out the actions (printing what a desktop shell would show).
