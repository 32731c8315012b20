# alloy_gc

The logic of a conservative garbage collector's integration with a Rust
toolchain, written in Verus with its contracts proved.

`src/` is the verified library:

- `metrics`: the collector's wrapping counters and what is logged of them.
- `alloc_plan`: which entry point of the native collector serves an
  allocation, a reallocation or an allocator-interface request.
- `ub_checks`: address and size checks for unsafe memory operations.
- `gc_layout`: the bytes of the constant describing a type's scanned words.
- `packed_layout`: the lint that refuses packed structs hiding traced fields
  at misaligned offsets.
- `heap_lint`: the lint that reports allocations through allocators other than the
  collector's own.
- `keep_alive`: the pass that keeps collected locals alive up to every return.
- `finalizer_safety`, `finalizer_check`: the analysis that decides whether
  drop methods may run as finalizers, and the wording of its errors.
- `collectable`: which `set_collectable` methods a type reaches, at
  monomorphization and at run time.
- `remove_drops`: the pass that turns needless drops in the finalizer glue
  function into jumps.
- `gc_stats`, `runtime_log`, `text`: the statistics logs.
- `bdwgc_build`: the decisions of the step that builds the native collector.
- `gc_types`, `collect_fixtures`: small public types.

Compiler queries, types and bodies are given to the library as plain tables
and sequences; each module's documentation says what they stand for.

`app/` holds what talks to the outside: the native collector's C interface,
process-wide counters, files and environment variables, running `main`, and
the CMake build.
