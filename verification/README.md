# gba

A Game Boy Advance core written in Verus: the memory bus, the ARM7TDMI register
file with its program status register, and a decoder and executor for THUMB
instructions, each function with a contract that Verus proves.

Layout:

- `src/program_status_register.rs`: the CPSR flags and their packed 32-bit word.
- `src/bus.rs`: the memory regions, big-endian word, halfword and byte reads,
  writes into the BIOS ROM, and read-after-write laws.
- `src/thumb.rs`: the instruction formats, operand fields and the decoder.
- `src/cpu.rs`: the register file and the execution of each instruction format.
- `src/semantics.rs`: the specification of each format and of a whole cycle,
  with the laws that a cycle keeps.
- `src/cycle_check.rs`: an executable test of whether the next cycle is defined.
- `src/gba.rs`: the machine that ties processor and bus together.
- `app/`: the egui front end (a debugger view and a free-running mode).
- `tests/`: tests of the library.

A cycle is defined where the core does not stop with a panic: the formats that
are not executed yet (conditional branch, multiple load/store, long branch with
link, SP-relative load/store, register transfers of push/pop, a switch to ARM
state) and memory accesses outside their region lie outside `cpu_cycle`'s
precondition; `can_cycle` tells a caller whether the next cycle is defined.
