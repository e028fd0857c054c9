# kompusim

An instruction-set level simulator of a small RISC-V system (RV64I with the compressed
instructions, a few A and Zicsr instructions, RAM and a UART), written in Verus.

- `src/` is the verified library: bit-field helpers and immediates (`bits`, `alu`), the
  32-bit and compressed decoders (`rv64i_dec`, `rvc_dec`, `rv64i_16b_dec`), RAM, plain
  physical memory, the UART and the bus (`ram`, `pmem`, `uart`, `bus`), the hart
  (`rv64i_cpu`, with its state-transition model `exec32` / `exec16` / `run`), the
  disassemblers (`rv64i_disasm`, `rvc_disasm`), the text of memory dumps (`hexdump`), the
  command parsing and screen texts of the terminal menu (`tui`, `scan`, `text`), and what the
  windows of the graphical front end decide (`gui`).
- `tests/` runs the library on concrete values.
- `app/` is the terminal program: command-line arguments, reading the binary, the menu loop
  and printing.
