# geobacter_runtime

The host-side logic of the Geobacter accelerator runtime, verified with Verus:
launch grids and the ids each workitem sees, launch limits and grid rounding,
dispatch packets and their fences, dependency barriers, the kernel argument
arena, device access grants, device and pool selection, asynchronous copy
plans, descriptor layouts, texture channel masks, target specifications, and
the reading of a code object's kernel metadata.

- `src/` is the verified library. Each public function states its result in
  its `ensures`; the `law_*` proof functions state properties that span
  several calls.
- `tests/` runs the library on concrete values.
- `app/` holds the glue that cannot be verified: the environment, processes,
  and the MessagePack decoding of the metadata note.
