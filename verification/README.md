# hisi_hal

Verified driver logic for the HiSilicon WS63 and BS2X RISC-V SoCs.

`src/` is a Verus library. Each driver method takes the register values it
reads and returns the words to write, a step program to run, or a decoded
value, with a contract over spec functions. A method that interleaves reads
and writes (a bounded wait followed by a read, a latch handshake, a DMA
teardown, the USB bring-up) makes every access through one closure over an
access enum; its contract states the sequence of accesses made, in order,
as a function of the answers they got (`poll::access_trace`).
`program::run_steps` runs a step program through an executor and stops at
the first failing step. Bounded polling loops, transaction programs, divisor
and timing arithmetic, field packing and decoding are all proved; the
`law_*` proof functions state properties that span several functions (round
trips, disjoint fields, monotonicity, bounds, last-write-wins).

`app/` is plain Rust around the library: the peripheral singleton, the
memory-mapped register accesses through `ws63-pac`, the interrupt-controller
and cache CSR accesses, interrupt-to-future signalling, and the
`embedded-hal` / `embedded-io` trait implementations. The BS2X-only blocks
(the USB controller among them) have no executor there: their register crate
is not among the dependencies.

`tests/` exercises the library on concrete values.
