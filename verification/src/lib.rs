//! The logic of an emulator of the PinePhone board that runs NuttX: what it does
//! before each instruction of the core, its interrupts and timer, its devices, the
//! start of a program image, and the loop that runs it.

pub mod boot;
pub mod boot_laws;
pub mod core_laws;
pub mod cpu;
pub mod decode;
pub mod device_laws;
pub mod front;
pub mod gic;
pub mod interrupt;
pub mod laws;
pub mod layout;
pub mod mmio;
pub mod register;
pub mod run;
pub mod state;
pub mod sysreg;
pub mod text;
pub mod text_laws;
pub mod uart;
