# rust_task

The task runner of HariboteBox: it loads a Haribote OS executable (`.hrb`,
optionally TEK-compressed), runs its 32-bit x86 code in an emulator, and
answers its system calls (console output, windows and drawing, timers, keys,
files, memory allocation).

The library is written in Verus: its functions carry `requires` / `ensures`
contracts that Verus proves. Some contracts cover part of what a function
does. The decoder states its result and where the fetcher stands for the
instructions with no operand, with immediates or a displacement only (LOOP,
ENTER, far RET and the port forms among them), for the ALU, group-1 to
group-5, shift, TEST, XCHG, MOV, immediate-MOV, LEA, POP and IMUL forms
with a ModR/M operand, and for the two-byte IMUL, MOVZX and MOVSX; it leaves
the segment moves, the memory-offset moves and the rest of the two-byte map
unstated. TEK methods 1 and 2 are stated exactly; method 5 only by its
start, its literal-context error and the length of what it gives. The
translation into micro-operations states what control transfers and the
register, immediate and memory forms it handles append.

## Layout

- `src/ir86`: the x86 decoder, from bytes to a normalized instruction set.
- `src/ume86`: the emulator: processor state with lazily computed flags,
  the translation of instructions into micro-operations, and their
  execution, each step stated over the micro-operation at the tracer's
  position.
- `src/tek.rs`: TEK decompression (methods 1, 2 and 5).
- `src/hrb.rs`: the `.hrb` executable header.
- `src/haribote`: the task itself: windows and drawing, files, timers, the
  memory allocator, Shift_JIS text, and the system calls.
- `tests/`: the tests of the library.
- `app/`: the WebAssembly entry points that connect the library to the host
  page (I/O, the clock, the event loop).
