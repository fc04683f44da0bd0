# gfx_core device handles

Reference-counted handles to the resources of a rendering back end, and the
`Manager` that keeps a reference to each resource it made or that a command
buffer used, until `clean_with` hands the unused ones back for deletion.

- `src/handle.rs`: the handle types, `Manager`, the `Producer` trait.
- `src/info.rs`: the descriptions that come with a resource name.
- `src/shared.rs`: the shared pointers underneath the handles.
- `src/positions.rs`: removing a set of positions from a list, and its laws.
