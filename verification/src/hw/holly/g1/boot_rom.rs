//! The boot ROM and the flash memory next to it.
use crate::hw::sh4::bus::PhysicalAddress;
use vstd::prelude::*;

verus! {

/// The boot ROM (the BIOS, 2 MiB from address 0) and the flash (128 KiB
/// from 0x00200000), with the images they hold.
pub struct BootROM {
    pub bios: Vec<u8>,
    pub flash: Vec<u8>,
}

/// The end of the BIOS area.
pub const BIOS_END: u32 = 0x001fffff;

/// The start of the flash area.
pub const FLASH_START: u32 = 0x00200000;

/// The end of the flash area.
pub const FLASH_END: u32 = 0x0021ffff;

/// Flash bytes that read as fixed settings (region and language '1', the
/// next byte '0') whatever the flash image holds.
pub open spec fn flash_override(offset: u32) -> Option<u8> {
    if offset == 0x1a002 || offset == 0x1a0a2 || offset == 0x1a003 || offset == 0x1a0a3 {
        Some(0x31u8)
    } else if offset == 0x1a004 || offset == 0x1a0a4 {
        Some(0x30u8)
    } else {
        None
    }
}

/// The byte the boot ROM answers at `raw`.
pub open spec fn boot_rom_byte(bios: Seq<u8>, flash: Seq<u8>, raw: u32) -> u8 {
    if raw <= BIOS_END {
        bios[raw as int]
    } else {
        match flash_override(raw & 0x1FFFF) {
            Some(b) => b,
            None => flash[raw - FLASH_START],
        }
    }
}

/// The addresses a read is defined at: inside one of the two areas and
/// inside the image that backs it.
pub open spec fn boot_rom_readable(bios: Seq<u8>, flash: Seq<u8>, raw: u32) -> bool {
    if raw <= BIOS_END {
        raw < bios.len()
    } else {
        FLASH_START <= raw <= FLASH_END && (flash_override(raw & 0x1FFFF) is None ==> raw - FLASH_START < flash.len())
    }
}

impl BootROM {
    /// A boot ROM holding the given BIOS and flash images.
    pub fn new(bios: Vec<u8>, flash: Vec<u8>) -> (r: Self)
        ensures
            r.bios@ == bios@,
            r.flash@ == flash@,
    {
        BootROM { bios, flash }
    }

    /// A byte read.
    pub fn read_8(&self, addr: PhysicalAddress) -> (r: u8)
        requires
            boot_rom_readable(self.bios@, self.flash@, addr.0),
        ensures
            r == boot_rom_byte(self.bios@, self.flash@, addr.0),
    {
        let raw = addr.0;
        if raw <= 0x001fffff {
            self.bios[raw as usize]
        } else {
            let offset = raw & 0x1FFFF;
            proof {
                assert(raw - 0x00200000 == raw & 0x1FFFF) by (bit_vector)
                    requires 0x00200000 <= raw <= 0x0021ffff;
            }
            if offset == 0x1a002 || offset == 0x1a0a2 {
                0x31
            } else if offset == 0x1a003 || offset == 0x1a0a3 {
                0x31
            } else if offset == 0x1a004 || offset == 0x1a0a4 {
                0x30
            } else {
                self.flash[(raw - 0x00200000) as usize]
            }
        }
    }
}

} // verus!
