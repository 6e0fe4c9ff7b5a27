//! Fields of a 16-bit SH-4 instruction.
use vstd::prelude::*;

verus! {

#[derive(Copy, Clone, Debug, PartialEq, Eq, Structural)]
pub struct InstructionOpcode(pub u16);

pub proof fn lemma_opcode_fields(x: u16)
    by (bit_vector)
    ensures
        (x >> 4u16) & 0xF < 16,
        (x >> 8u16) & 0xF < 16,
        x & 0xF < 16,
        x & 0xFF < 256,
        x & 0xFFF < 4096,
{
}

impl InstructionOpcode {
    /// Source register field, bits 4..8.
    pub fn m(&self) -> (r: usize)
        ensures
            r == ((self.0 >> 4u16) & 0xF),
            r < 16,
    {
        proof {
            lemma_opcode_fields(self.0);
        }
        ((self.0 >> 4u16) & 0xF) as usize
    }

    /// 4-bit displacement, bits 0..4.
    pub fn d4(&self) -> (r: usize)
        ensures
            r == (self.0 & 0xF),
            r < 16,
    {
        proof {
            lemma_opcode_fields(self.0);
        }
        (self.0 & 0xF) as usize
    }

    /// 8-bit displacement or immediate, bits 0..8.
    pub fn d8(&self) -> (r: u32)
        ensures
            r == (self.0 & 0xFF),
            r < 256,
    {
        proof {
            lemma_opcode_fields(self.0);
        }
        (self.0 & 0xFF) as u32
    }

    /// 12-bit displacement, bits 0..12.
    pub fn d12(&self) -> (r: u32)
        ensures
            r == (self.0 & 0xFFF),
            r < 4096,
    {
        proof {
            lemma_opcode_fields(self.0);
        }
        (self.0 & 0xFFF) as u32
    }

    /// Destination register field, bits 8..12.
    pub fn n(&self) -> (r: usize)
        ensures
            r == ((self.0 >> 8u16) & 0xF),
            r < 16,
    {
        proof {
            lemma_opcode_fields(self.0);
        }
        ((self.0 >> 8u16) & 0xF) as usize
    }
}

} // verus!
