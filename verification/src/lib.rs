//! An instruction-level emulator core for the MOS 6510 processor and the
//! bank-switched memory bus of the Commodore 64.

pub mod bus;
pub mod c64;
pub mod cpu;
pub mod instructions;
pub mod media;
pub mod shared;
pub mod video;
