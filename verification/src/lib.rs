pub mod cartridge;
pub mod display;
pub mod cpu;
pub mod cpuflags;
pub mod gpu;
pub mod mmu;
pub mod wasmdisplay;
