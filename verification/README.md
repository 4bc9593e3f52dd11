# available_range

Which checkpoints can the data behind a GraphQL field be served for?

A field is answered from one or more indexing pipelines, each of which is pruned on its own. The
range of a field starts at the highest of the lower watermarks of its pipelines: from there on none
of them has lost data.

- `src/pipelines.rs`: from a type, a field and filters to the pipelines (`collect_pipelines`).
- `src/available_range.rs`: from a key and the watermarks to the range (`AvailableRange::new`).
- `src/watermarks.rs`, `src/string_set.rs`, `src/strings.rs`: the data that these work on.
- `src/context.rs`, `src/error.rs`: what is taken from `async-graphql`, the only part that is
  trusted.
- `src/pipeline_laws.rs`, `src/range_laws.rs`, `src/names.rs`: what holds of all fields and ranges.
- `app/`: the range as a GraphQL object.
