//! The emulator's top-level state, and the loading of an ELF program: its
//! loadable segments and its symbol table.
use crate::hw::sh4::cpu::{env_unchanged, Cpu, CpuModel};
use std::collections::HashMap;
use vstd::prelude::*;

verus! {

broadcast use vstd::std_specs::hash::group_hash_axioms;

/// Whether the emulator runs.
#[derive(Copy, Clone, Debug, Eq, PartialEq, Structural)]
pub enum EmulatorState {
    Paused,
    Running,
}

/// The emulator: the SH-4 core and whether it runs.
pub struct Emulator {
    pub cpu: Cpu,
    pub state: EmulatorState,
}

/// A program header of an ELF file, as far as loading reads it.
#[derive(Copy, Clone, Debug, PartialEq, Eq, Structural)]
pub struct ElfSegment {
    pub p_type: u32,
    pub p_offset: u64,
    pub p_filesz: u64,
    pub p_vaddr: u64,
    pub p_memsz: u64,
}

/// A symbol of an ELF file: its value and, when the string table has it,
/// its name.
#[derive(Clone, Debug)]
pub struct ElfSymbol {
    pub value: u64,
    pub name: Option<String>,
}

/// What loading reads of an ELF file: its program headers and its symbols,
/// in file order.
#[derive(Clone, Debug)]
pub struct ElfImage {
    pub segments: Vec<ElfSegment>,
    pub symbols: Vec<ElfSymbol>,
}

/// An ELF image as plain values.
pub struct ElfView {
    pub segments: Seq<ElfSegment>,
    pub symbols: Seq<(u64, Option<Seq<char>>)>,
}

impl ElfImage {
    /// The image as plain values.
    pub open spec fn view_of(self) -> ElfView {
        ElfView {
            segments: self.segments@,
            symbols: Seq::new(self.symbols@.len(), |i: int| (self.symbols@[i].value, match self.symbols@[i].name {
                Some(n) => Some(n@),
                None => None,
            })),
        }
    }
}

/// What goblin's ELF parser reads from a file: `None` when it refuses the
/// bytes.
pub uninterp spec fn goblin_elf(bytes: Seq<u8>) -> Option<ElfView>;

/// Parses an ELF file with goblin (`goblin::elf::Elf::parse`), keeping the
/// program headers and the symbols with their names from the symbol string
/// table (`Strtab::get_at`). Claims only that the result is a function of
/// the bytes, named `goblin_elf`; nothing is said of what the parser
/// accepts or reads.
#[verifier::external_body]
fn parse_elf(bytes: &[u8]) -> (r: Option<ElfImage>)
    ensures
        match r {
            Some(image) => goblin_elf(bytes@) == Some(image.view_of()),
            None => goblin_elf(bytes@) is None,
        },
{
    match goblin::elf::Elf::parse(bytes) {
        Ok(elf) => Some(ElfImage {
            segments: elf.program_headers.iter().map(|ph| ElfSegment {
                p_type: ph.p_type, p_offset: ph.p_offset, p_filesz: ph.p_filesz, p_vaddr: ph.p_vaddr, p_memsz: ph.p_memsz,
            }).collect(),
            symbols: elf.syms.iter().map(|s| ElfSymbol {
                value: s.st_value,
                name: elf.strtab.get_at(s.st_name).map(|n| n.to_string()),
            }).collect(),
        }),
        Err(_) => None,
    }
}

/// The program header type of a loadable segment.
pub const PT_LOAD: u32 = 1;

/// A loadable segment, ready to be placed in memory: `zero_len` bytes are
/// cleared from `zero_start` on (the low 32 bits of each address counting),
/// then `data` goes to `load_addr` on.
#[derive(Clone, Debug)]
pub struct LoadedSegment {
    pub zero_start: u64,
    pub zero_len: u64,
    pub load_addr: u32,
    pub data: Vec<u8>,
}

/// Whether a loadable segment can be placed: its data lies in the file, its
/// cleared range does not pass the end of the 64-bit address space, and its
/// data does not pass the end of the 32-bit one.
pub open spec fn segment_placeable(s: ElfSegment, file_len: nat) -> bool {
    &&& s.p_offset + s.p_filesz <= file_len
    &&& s.p_vaddr + s.p_memsz <= u64::MAX
    &&& (s.p_vaddr as u32) + s.p_filesz <= u32::MAX
}

/// The loadable segments among `segs`, in order.
pub open spec fn loadable(segs: Seq<ElfSegment>) -> Seq<ElfSegment> {
    segs.filter(|s: ElfSegment| s.p_type == PT_LOAD)
}

/// Whether `l` places segment `s` of the file `bytes`.
pub open spec fn places(l: LoadedSegment, s: ElfSegment, bytes: Seq<u8>) -> bool {
    &&& l.zero_start == s.p_vaddr
    &&& l.zero_len == s.p_memsz
    &&& l.load_addr == s.p_vaddr as u32
    &&& l.data@ == bytes.subrange(s.p_offset as int, s.p_offset + s.p_filesz)
}

/// The symbol map after entering `syms` in order: each named symbol maps
/// the low 29 bits of its value (the physical address) to its name; a
/// later symbol at the same address replaces an earlier one.
pub open spec fn symbol_map(syms: Seq<(u64, Option<Seq<char>>)>) -> Map<u32, Seq<char>>
    decreases syms.len(),
{
    if syms.len() == 0 {
        Map::empty()
    } else {
        let m = symbol_map(syms.drop_last());
        match syms.last().1 {
            Some(name) => m.insert((syms.last().0 as u32) & 0x1FFFFFFF, name),
            None => m,
        }
    }
}

/// The registers a program loaded from an ELF file starts with: PC and R0
/// and R4 at the entry point 0x8C010000, the stack in R15, the first three
/// banked registers, FR4 to FR11 of the first floating-point bank (as bits),
/// SR, PR, VBR and FPSCR; all else is kept.
pub open spec fn elf_entry_state(m: CpuModel) -> CpuModel {
    CpuModel {
        pc: 0x8c010000,
        r: m.r.update(15, 0x8c00f400).update(0, 0x8c010000).update(4, 0x8c010000),
        r_bank: m.r_bank.update(0, 0x600000f0).update(1, 0x00000808).update(2, 0x8c00e070),
        fpu: seq![
            m.fpu[0].update(11, 0x3f800000).update(9, 0x80000000).update(8, 0x80000000).update(7, 0x3f800000)
                .update(6, 0x41840000).update(5, 0x3fe66666).update(4, 0x3f266666),
            m.fpu[1],
        ],
        sr: 0x600000f0,
        pr: 0x8c00e09c,
        vbr: 0x8c00f400,
        fpscr: 0x00040001,
        ..m
    }
}

impl Emulator {
    /// Sets the registers a program loaded from an ELF file starts with.
    pub fn set_elf_entry_state(cpu: &mut Cpu)
        requires
            old(cpu).registers@.wf(),
        ensures
            final(cpu).registers@ == elf_entry_state(old(cpu).registers@),
            final(cpu).registers@.wf(),
            env_unchanged(*final(cpu), *old(cpu)),
    {
        cpu.registers.current_pc = 0x8c010000;
        cpu.set_register_by_index(15, 0x8c00f400);
        cpu.set_register_by_index(0, 0x8c010000);
        cpu.registers.r_bank[0] = 0x600000f0;
        cpu.registers.r_bank[1] = 0x00000808;
        cpu.registers.r_bank[2] = 0x8c00e070;
        let mut fr = cpu.registers.fpu_banks[0];
        fr[11] = 0x3f800000;
        fr[9] = 0x80000000;
        fr[8] = 0x80000000;
        fr[7] = 0x3f800000;
        fr[6] = 0x41840000;
        fr[5] = 0x3fe66666;
        fr[4] = 0x3f266666;
        cpu.registers.fpu_banks[0] = fr;
        cpu.set_register_by_index(4, 0x8c010000);
        cpu.registers.sr = 0x600000f0;
        cpu.registers.pr = 0x8c00e09c;
        cpu.registers.vbr = 0x8c00f400;
        cpu.registers.fpscr = 0x00040001;
        proof {
            let a = cpu.registers@;
            let b = elf_entry_state(old(cpu).registers@);
            assert(a.r =~= b.r);
            assert(a.r_bank =~= b.r_bank);
            assert(a.fpu[0] =~= b.fpu[0]);
            assert(a.fpu =~= b.fpu);
        }
    }

    /// A running emulator with a freshly reset CPU.
    pub fn new() -> (r: Self)
        ensures
            r.state == EmulatorState::Running,
            crate::hw::sh4::cpu::is_reset_state(r.cpu.registers@),
    {
        Emulator { cpu: Cpu::new(), state: EmulatorState::Running }
    }

    /// The loadable segments of an ELF image, in order, with their data cut
    /// from the file.
    pub fn elf_load_segments(image: &ElfImage, bytes: &[u8]) -> (r: Vec<LoadedSegment>)
        requires
            forall|i: int| 0 <= i < image.segments@.len() && image.segments@[i].p_type == PT_LOAD
                ==> segment_placeable(#[trigger] image.segments@[i], bytes@.len()),
        ensures
            r@.len() == loadable(image.segments@).len(),
            forall|i: int| 0 <= i < r@.len() ==> places(#[trigger] r@[i], loadable(image.segments@)[i], bytes@),
    {
        let mut out: Vec<LoadedSegment> = Vec::new();
        let mut i: usize = 0;
        let n = image.segments.len();
        while i < n
            invariant
                n == image.segments@.len(),
                i <= n,
                forall|k: int| 0 <= k < image.segments@.len() && image.segments@[k].p_type == PT_LOAD
                    ==> segment_placeable(#[trigger] image.segments@[k], bytes@.len()),
                out@.len() == loadable(image.segments@.subrange(0, i as int)).len(),
                forall|k: int| 0 <= k < out@.len() ==> places(#[trigger] out@[k], loadable(image.segments@.subrange(0, i as int))[k], bytes@),
            decreases n - i,
        {
            let ph = image.segments[i];
            proof {
                let pre = image.segments@.subrange(0, i as int);
                assert(image.segments@.subrange(0, i + 1) =~= pre.push(ph));
                pre.lemma_filter_push(ph, |s: ElfSegment| s.p_type == PT_LOAD);
            }
            if ph.p_type == PT_LOAD {
                assert(segment_placeable(image.segments@[i as int], bytes@.len()));
                let blen = bytes.len();
                assert(ph.p_offset + ph.p_filesz <= blen);
                let start = ph.p_offset as usize;
                let end = (ph.p_offset + ph.p_filesz) as usize;
                let segment_data = vstd::slice::slice_subrange(bytes, start, end);
                let data = vstd::slice::slice_to_vec(segment_data);
                out.push(LoadedSegment { zero_start: ph.p_vaddr, zero_len: ph.p_memsz, load_addr: ph.p_vaddr as u32, data });
            }
            i = i + 1;
        }
        assert(image.segments@.subrange(0, n as int) =~= image.segments@);
        out
    }

    /// The symbol map of an ELF image: the physical address of each named
    /// symbol to its name, later symbols winning.
    pub fn elf_symbol_map(image: &ElfImage) -> (r: HashMap<u32, String>)
        ensures
            r@.dom() == symbol_map(image.view_of().symbols).dom(),
            forall|a: u32| #[trigger] r@.contains_key(a) ==> r@[a]@ == symbol_map(image.view_of().symbols)[a],
    {
        let ghost syms = image.view_of().symbols;
        let mut map: HashMap<u32, String> = HashMap::new();
        let mut i: usize = 0;
        let n = image.symbols.len();
        while i < n
            invariant
                n == image.symbols@.len(),
                syms == image.view_of().symbols,
                i <= n,
                map@.dom() == symbol_map(syms.subrange(0, i as int)).dom(),
                forall|a: u32| #[trigger] map@.contains_key(a) ==> map@[a]@ == symbol_map(syms.subrange(0, i as int))[a],
            decreases n - i,
        {
            proof {
                assert(syms.subrange(0, i + 1).drop_last() =~= syms.subrange(0, i as int));
            }
            let sym = &image.symbols[i];
            match &sym.name {
                Some(name) => {
                    let addr = sym.value as u32;
                    map.insert(addr & 0x1FFFFFFF, name.clone());
                },
                None => {},
            }
            i = i + 1;
        }
        assert(syms.subrange(0, n as int) =~= syms);
        map
    }

    /// Reads an ELF file: its loadable segments and its symbol map, or
    /// `None` when the parser refuses the bytes.
    pub fn load_elf_image(bytes: &[u8]) -> (r: Option<(Vec<LoadedSegment>, HashMap<u32, String>)>)
        ensures
            goblin_elf(bytes@) is None ==> r is None,
            goblin_elf(bytes@) matches Some(v) ==> {
                let placeable = forall|i: int| 0 <= i < v.segments.len() && v.segments[i].p_type == PT_LOAD
                    ==> segment_placeable(#[trigger] v.segments[i], bytes@.len());
                &&& placeable ==> (r matches Some((segs, syms)) && {
                    &&& segs@.len() == loadable(v.segments).len()
                    &&& forall|i: int| 0 <= i < segs@.len() ==> places(#[trigger] segs@[i], loadable(v.segments)[i], bytes@)
                    &&& syms@.dom() == symbol_map(v.symbols).dom()
                    &&& forall|a: u32| #[trigger] syms@.contains_key(a) ==> syms@[a]@ == symbol_map(v.symbols)[a]
                })
                &&& !placeable ==> r is None
            },
    {
        let parsed = parse_elf(bytes);
        let image = match parsed {
            Some(image) => image,
            None => return None,
        };
        let mut i: usize = 0;
        let n = image.segments.len();
        while i < n
            invariant
                n == image.segments@.len(),
                i <= n,
                goblin_elf(bytes@) == Some(image.view_of()),
                forall|k: int| 0 <= k < i && image.segments@[k].p_type == PT_LOAD
                    ==> segment_placeable(#[trigger] image.segments@[k], bytes@.len()),
            decreases n - i,
        {
            let ph = image.segments[i];
            if ph.p_type == PT_LOAD {
                let blen = bytes.len() as u64;
                let in_file = ph.p_offset <= blen && ph.p_filesz <= blen - ph.p_offset;
                let in_space = ph.p_memsz <= u64::MAX - ph.p_vaddr;
                let low = ph.p_vaddr as u32;
                let in_low_space = ph.p_filesz <= (u32::MAX - low) as u64;
                assert(in_file == (ph.p_offset + ph.p_filesz <= bytes@.len()));
                assert(in_space == (ph.p_vaddr + ph.p_memsz <= u64::MAX));
                assert(in_low_space == ((ph.p_vaddr as u32) + ph.p_filesz <= u32::MAX));
                let fits = in_file && in_space && in_low_space;
                if !fits {
                    assert(!segment_placeable(image.segments@[i as int], bytes@.len()));
                    assert(goblin_elf(bytes@) == Some(image.view_of()));
                    assert(goblin_elf(bytes@)->0.segments[i as int] == image.segments@[i as int]);
                    return None;
                }
            }
            i = i + 1;
        }
        let segments = Self::elf_load_segments(&image, bytes);
        let symbols = Self::elf_symbol_map(&image);
        Some((segments, symbols))
    }
}

} // verus!
