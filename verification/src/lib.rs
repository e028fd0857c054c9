//! Kompusim: an instruction-set level simulator of a small RISC-V (RV64I + RVC) system.
pub mod alu;
pub mod bits;
pub mod bus;
pub mod csr;
pub mod gui;
pub mod hexdump;
pub mod pmem;
pub mod ram;
pub mod rv64fd;
pub mod rv64i_16b_dec;
pub mod rv64i_cpu;
pub mod rv64i_dec;
pub mod rv64i_disasm;
pub mod rvc_dec;
pub mod scan;
pub mod rvc_disasm;
pub mod text;
pub mod tui;
pub mod uart;

