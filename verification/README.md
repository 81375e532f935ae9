# p4tc

Typed requests, responses and schema handling for the P4TC runtime control
library (`libp4tctrl`), verified with Verus.

- `src/` is the verified library. A request is built with a builder from a
  `Context` (`insert`, `update`, `delete`, `get`, `dump`, `flush`, the
  `extern_*` requests, subscriptions) and turned into a `Plan`: the calls
  into the control library, in order, each with the error its failure gives,
  or the error the request stops with (a name holding a NUL byte). A
  `Runner` hands the calls out one by one, ends the request at the first
  failure and says whether the request object is to be released. A plan
  also says what becomes of the responses to it (`Responses::handling`):
  callbacks that take entries get only the batches that carry data. Responses, read as plain records, are turned into `TableEntry`
  and `ExternEntry` values, with key bytes decoded along the pipeline schema
  (`parse_entry`, `decode_key_field`, `Param::decoded`). Schema lookups and
  validation of named keys and action parameters are in `schema.rs`; the
  laws that every request keeps are in `laws.rs`.
- `app/` is ordinary Rust around it: the C declarations, the handles that
  are destroyed on drop, the loop that performs the calls, the reading of
  response memory, subscriptions on a thread, and loading schema JSON.
- `tests/` runs the library on concrete values.
