# xsk_umem

The user-space side of an `AF_XDP` packet buffer area: an area of memory, cut into frames, that
the kernel receives packets into and transmits packets from.

- `src/` is the library, verified with Verus. It computes frames, descriptors, socket options and
  addresses, and decides which system call comes next and what its reply means. It makes no system
  call itself.
- `src/laws.rs`, and the public proof functions in the other modules, state what holds of the
  library as a whole.
- `app/` owns the file descriptors and the mappings, and makes the system calls through `libc`.
- `tests/` runs the library on given replies.
