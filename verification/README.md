# lib — a verified Game Boy CPU core

The library models the LR35902 CPU of the Game Boy: its registers, the
flag-computing ALU, the instructions (each a small state machine that runs one
machine cycle per tick), the decoder, the CPU loop with interrupts, and a
per-category time accumulator. Every function is verified by Verus against its
contract, except the three small wrappers of `std::time` in
`performance_timer.rs`, which make one clock call each and promise nothing
about its result.

Layout:

- `src/register.rs`, `src/registers.rs`: 8- and 16-bit registers, the register
  file and its mathematical view.
- `src/carry_trait.rs`, `src/alu.rs`: carry detection and the ALU, with the
  flags stated exactly.
- `src/memory.rs`: the 64 KiB address space.
- `src/instructions/`: the instructions, grouped by kind, and the decoders
  (`decode.rs`).
- `src/cpu.rs`: the CPU: ticking, fetching, interrupts, and a bounded
  history of the addresses fetched.
- `src/performance_timer.rs`: time spent per named category.
- `src/laws.rs`: properties that span several functions (register
  write/read, arithmetic identities, decimal adjust after add and subtract,
  every tick making progress, interrupt service, timer totals only growing).
- `app/main.rs`: a headless runner that loads a cartridge image, clocks the
  CPU, reports where the time went and writes the fetch history to
  `./callstack`.
