# wdk_alloc

The decisions of a global allocator for Windows kernel drivers that draws its
memory from the non-paged pool, verified with Verus.

- `src/` holds the verified library: the request layout and its invariants,
  the pool's alignment rules, the allocator's decision for each allocation
  and each free, and the proofs that handed-out blocks are aligned, lie in
  their pool block, and are freed through the pool block they came from.
- `app/` holds the kernel glue: the pool and file-system bindings, the
  `GlobalAlloc` implementation that carries out the library's decisions, and
  the file-system critical-region guard.
- `tests/` drives the allocator against a simulated pool.
