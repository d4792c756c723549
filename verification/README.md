# suplex

Request/response channel pairs over `crossbeam-channel`, verified with Verus.

- `src/bridge.rs`: the `Bridge` (one channel for each direction) and the
  functions that split fresh channel pairs between a `Left` and a `Right`.
- `src/pipe.rs`: one channel held by both of its ends, with the capacity it
  was made with; the only place that calls crossbeam, through trusted items.
- `src/channel.rs`: the declarations of crossbeam's types.
- `tests/`: the library's tests.
