# catalyze

A model of protobuf descriptors for `protoc` plugins, written in Verus.

`src/` is the library. Its functions carry contracts that Verus proves,
with two exceptions: the small functions that call `slotmap`, `ahash`,
`itertools` and std's `str::to_lowercase` have contracts that are taken as
given (each doc comment names the call), and derived impls carry none.

- `ast::fqn` — fully qualified names and how they are built.
- `ast::location` — spans, comments, and the tree of nodes that the flat
  source code info of a file describes (`File::new`, `Message::new`, ...).
- `ast::path` — the field numbers by which `protoc` addresses nodes.
- `ast::file`, `ast::package`, `ast::message`, `ast::enums`,
  `ast::enum_value` — the data of each node and its hydration from a
  descriptor.
- `ast::table`, `ast::hydrate` — the tables (slot maps of the `slotmap`
  crate, with `ahash` hash maps that find a node by its fully qualified
  name) that hold the nodes, and the hydration of packages, imports, enums
  and enum values into them.
- `ast::field`, `ast::reference`, `ast::reserved`, `ast::uninterpreted`,
  `ast::container`, `ast::node` — the values that describe fields,
  references, reservations, uninterpreted options, containers and keys.
- `ast::enums::WellKnownEnum`, `ast::message::WellKnownMessage`,
  `ast::WellKnownType` — the types of `google.protobuf`.
- `descriptor` — the parts of `protoc`'s descriptor messages that the model
  reads, as plain values.

`app/` is `protoc-gen-debug`, a plugin that records the request it is given,
with the conversions from the `protobuf` crate's messages to the plain
values of `descriptor` and the error type with its display messages.

`tests/` runs the library on concrete values.
