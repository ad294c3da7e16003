# logid

A logging library that identifies log events by ids, written in Verus: the filter syntax,
the event entries and their addons, the decisions of log event handlers, the terminal
layout and the subscription bookkeeping are executable Rust with contracts that Verus
proves.

The library is built with one set of features: hints and notes, diagnostics and payloads
are addons of every entry and may be allowed by a filter, while debug and trace events and
addons are always left out by the logger's filter. Messages formatted by a function are not
part of the verified library; `app/fmt.rs` holds them.

## Layout

- `src/` is the verified library.
  - `log_id.rs`: log-ids and levels.
  - `logging/`: event entries and addons, events that are set and finalized, errors with
    their events, messages, and the filter: `logging/filter/` (module paths of the form
    `module::id`) and `logging/crate_filter.rs` (crate-qualified ids, `crate::module::id`).
    `logging/filter/laws.rs` states what every filter text of a given shape allows.
  - `event_handler.rs`: the control log-ids and the step a handler's listener takes for
    each received event, with the laws that hold of it.
  - `terminal.rs`, `layout.rs`, `text.rs`: the lines a handler writes for an event, and the
    text operations they are built from.
  - `derived_ids.rs`: the log-ids the id derives give the variants of an enum, and the way
    back.
  - `publisher.rs`: who is subscribed to which events.
  - `result.rs`, `event/`: data returned with its logged event; events of a crate.
- `tests/`: tests of the library.
- `app/`: the runtime around it: the central logger built on `evident`, the log event
  handler threads, terminal output, subscriptions over channels, messages formatted by
  function pointers, and a benchmark program.
