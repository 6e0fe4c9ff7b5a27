//! The G1 bus: the boot ROM and flash, and the disc images the GD-ROM
//! drive reads.
pub mod boot_rom;
pub mod cdi;
pub mod gdi;
