pub mod bus;
pub mod computer;
pub mod dram;
pub mod emulator;
pub mod processor;
pub mod riscv;
