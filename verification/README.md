# bss2k

A small 32-bit register machine, verified with Verus.

- `src/types.rs`: `Word` (u32), `Address` (u32), `Instruction` (u64), `Register`.
- `src/memory.rs`: 16 MiB of byte-addressed memory. Words and instructions are
  big-endian; addresses beyond the installed memory read as zero and ignore
  stores. Read-after-write and framing lemmas.
- `src/opcodes.rs`: the instruction set and its 64-bit encoding (opcode number
  in the top 16 bits, register operands in the following bytes, an immediate
  or address in the low 32 bits), with `decode(encode(op)) == Some(op)`.
- `src/alu.rs`: arithmetic, logic and shift results with their carry, stated
  over mathematical integers.
- `src/processor.rs`: 256 registers (flags in `0xFD`, instruction pointer in
  `0xFE`, stack pointer in `0xFF`), the specification of one tick, and the
  executable tick proved against it.
- `src/terminal.rs`: the 80x25 text terminal mapped at `0x00F0_0000`.
- `src/machine.rs`: `Machine`, a processor together with its memory.
- `src/laws.rs`: properties that span several operations (halting is final,
  what a tick changes and keeps, push then pop, flags).
- `app/main.rs`: a raylib window that runs a program image and draws the
  terminal.
