# uring

The user's side of Linux io_uring rings, verified with Verus.

`src/` holds the logic: which submission slot an entry goes to and when the
ring is full, what a flush publishes, when `io_uring_enter` must be called and
with which flags, how a pass over the completion ring walks from the kernel's
head to its tail, how provided-buffer rings are filled and recycled, how big
each mapping is, and how `mmap` and system-call results are read. The values
that live in memory shared with the kernel (its heads, tails and flags) are
passed in as plain numbers.

`app/` performs what the library decides: the system calls, the mappings
(with clean-up when one fails), the atomic loads and stores on shared memory,
and the loops that wait on the kernel. Two ways of setting a ring up are
there: `IoUring::new`, through owned mappings of each ring, and
`setup::io_uring_queue_init_params`, through raw mappings sized, placed and
unmapped as `uring::setup` computes.
