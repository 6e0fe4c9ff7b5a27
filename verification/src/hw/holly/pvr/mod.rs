//! The PowerVR2 graphics core: its registers, the tile accelerator's
//! parameter words, the framebuffer read-out and the texture cache.
use crate::hw::extensions::{bit32, le_word, BitManipulation};
use crate::hw::holly::HollyEventData;
use crate::hw::sh4::bus::PhysicalAddress;
use crate::scheduler::{schedule_result, ScheduledEvent, Scheduler};
use crate::hw::extensions::byte_of;
use ta::{pcw_list_code, pcw_para_code, ParameterControlWord, ParameterType, PvrListType};
use vstd::prelude::*;

pub mod display_list;
pub mod framebuffer;
pub mod ta;
pub mod texture_cache;
pub mod texture_slots;

verus! {

/// The PowerVR registers that the core reads.
#[derive(Copy, Default, Clone, Debug, PartialEq, Eq, Structural)]
pub struct PvrRegisters {
    pub isp_backgnd_t: u32,
    pub isp_feed_cfg: u32,
    pub region_base: u32,
    pub param_base: u32,
}

impl PvrRegisters {
    /// All registers zero.
    pub open spec fn new_spec() -> PvrRegisters {
        PvrRegisters { isp_backgnd_t: 0, isp_feed_cfg: 0, region_base: 0, param_base: 0 }
    }

    /// All registers zero.
    pub fn new() -> (r: Self)
        ensures
            r == Self::new_spec(),
    {
        PvrRegisters { isp_backgnd_t: 0, isp_feed_cfg: 0, region_base: 0, param_base: 0 }
    }
}

/// The state of the tile accelerator between parameters: the display list
/// being received, if any.
pub struct DrawingContext {
    list_type: Option<PvrListType>,
}

impl DrawingContext {
    /// The display list being received.
    pub closed spec fn current_list(&self) -> Option<PvrListType> {
        self.list_type
    }

    /// No display list open.
    pub fn new() -> (r: Self)
        ensures
            r.current_list() is None,
    {
        Self { list_type: None }
    }
}

/// The list a parameter with control word `w` opens: by its list-type
/// field (numbers above 5 give the opaque list).
pub open spec fn list_of(w: u32) -> PvrListType {
    let c = pcw_list_code(w);
    if c == 1 {
        PvrListType::OpaqueModVol
    } else if c == 2 {
        PvrListType::Translucent
    } else if c == 3 {
        PvrListType::TranslucentModVol
    } else if c == 4 {
        PvrListType::PunchThrough
    } else if c == 5 {
        PvrListType::NumLists
    } else {
        PvrListType::Opaque
    }
}

/// The number of a display list, as the index of its builder.
pub open spec fn list_index(l: PvrListType) -> usize {
    match l {
        PvrListType::Opaque => 0,
        PvrListType::OpaqueModVol => 1,
        PvrListType::Translucent => 2,
        PvrListType::TranslucentModVol => 3,
        PvrListType::PunchThrough => 4,
        PvrListType::NumLists => 5,
    }
}

/// The interrupt status bit raised at the end of each list.
pub open spec fn end_of_list_istnrm(l: PvrListType) -> u32 {
    match l {
        PvrListType::Opaque => 0x80,
        PvrListType::OpaqueModVol => 0x100,
        PvrListType::Translucent => 0x200,
        PvrListType::TranslucentModVol => 0x400,
        PvrListType::PunchThrough => 0x20_0000,
        PvrListType::NumLists => 0,
    }
}

/// The event the end of list `l` schedules.
pub open spec fn end_of_list_event(l: PvrListType) -> ScheduledEvent {
    ScheduledEvent::HollyEvent {
        deadline: 200,
        event_data: HollyEventData::RaiseInterruptNormal { istnrm: end_of_list_istnrm(l) },
    }
}

/// What the display-list builders are to do with a parameter: which
/// builder starts afresh, and what goes to which builder.
#[derive(Copy, Clone, Debug)]
pub enum TaPush {
    /// A polygon or sprite parameter.
    Poly { list: usize, words: [u32; 8] },
    /// A vertex parameter.
    Vertex { list: usize, words: [u32; 8] },
}

/// The builder work a received parameter asks for.
#[derive(Copy, Clone, Debug)]
pub struct TaAction {
    /// The builder that starts afresh before anything is pushed.
    pub reset: Option<usize>,
    /// What is pushed, and to which builder.
    pub push: Option<TaPush>,
}

/// The tile accelerator's input side of the PowerVR core: the registers,
/// the parameter words received so far and the list being received.
pub struct Pvr {
    pub registers: PvrRegisters,
    pub parameter_buffer: [u32; 16],
    pub parameter_cursor: usize,
    pub context: DrawingContext,
    pub wireframe: bool,
}

/// Whether `r` is the action for a complete parameter `words` (its first
/// eight words count) when `open` is the list being received: the list the
/// parameter names starts afresh when none was open, and polygons, sprites
/// and vertices go to the open list's builder.
pub open spec fn is_ta_action(r: TaAction, open: Option<PvrListType>, words: Seq<u32>) -> bool {
    let w = words[0];
    let list = match open {
        Some(l) => l,
        None => list_of(w),
    };
    let p = pcw_para_code(w);
    &&& r.reset == if open is None { Some(list_index(list_of(w))) } else { None }
    &&& if p == 4 || p == 5 {
        r.push matches Some(TaPush::Poly { list: i, words: ws }) && i == list_index(list) && ws@ == words.take(8)
    } else if p == 7 {
        r.push matches Some(TaPush::Vertex { list: i, words: ws }) && i == list_index(list) && ws@ == words.take(8)
    } else {
        r.push is None
    }
}

/// Whether `b`, scheduler `sb` and action `r` are what handling the
/// received words gives from `a` and `sa`: nothing before a whole parameter
/// is in, else the parameter is handled and the buffer emptied.
pub open spec fn cmd_handled(a: Pvr, b: Pvr, sa: Scheduler, sb: Scheduler, r: TaAction) -> bool {
    &&& a.parameter_cursor % 8 != 0 ==> {
        &&& r.reset is None && r.push is None
        &&& b.parameter_cursor == a.parameter_cursor
        &&& b.context.current_list() == a.context.current_list()
        &&& sb@ == sa@
    }
    &&& a.parameter_cursor % 8 == 0 ==> {
        let w = a.parameter_buffer@[0];
        let open = a.context.current_list();
        let list = match open {
            Some(l) => l,
            None => list_of(w),
        };
        &&& is_ta_action(r, open, a.parameter_buffer@)
        &&& b.parameter_cursor == 0
        &&& b.context.current_list() == if pcw_para_code(w) == 0 { None } else { Some(list) }
        &&& sb@ == if pcw_para_code(w) == 0 {
            schedule_result(sa@, sa.time(), end_of_list_event(list))
        } else {
            sa@
        }
    }
    &&& b.context.current_list() != Some(PvrListType::NumLists)
    &&& b.registers == a.registers
    &&& b.parameter_buffer == a.parameter_buffer
    &&& b.wireframe == a.wireframe
    &&& sb.time() == sa.time()
}

/// The offset in parameter memory of the first background vertex: the tag
/// address (in words) from the parameter base, past the three-word polygon
/// header, and past `tag_offset` vertices of three words plus two per
/// skipped word.
pub open spec fn bg_vertex_base(regs: PvrRegisters) -> int {
    let bg = regs.isp_backgnd_t;
    regs.param_base + 4 * ((bg & 0xFFFFF8) >> 3u32) + 12 + (bg & 0x3) * (4 * (3 + 2 * ((bg & 0x7000000) >> 24u32)))
}

impl Pvr {
    /// No parameter received, no list open, all registers zero.
    pub fn new() -> (r: Self)
        ensures
            r.registers == PvrRegisters::new_spec(),
            r.parameter_buffer@ == Seq::new(16, |i: int| 0u32),
            r.parameter_cursor == 0,
            r.context.current_list() is None,
            !r.wireframe,
    {
        let r = Self {
            registers: PvrRegisters::new(),
            context: DrawingContext::new(),
            parameter_buffer: [0; 16],
            parameter_cursor: 0,
            wireframe: false,
        };
        assert(r.parameter_buffer@ =~= Seq::new(16, |i: int| 0u32));
        r
    }

    /// Handles the parameter words received so far once they make up a
    /// whole 32-byte parameter: opens the list the first one names when none
    /// is open, passes polygons, sprites and vertices on to that list's
    /// builder, and at the end of the list schedules its interrupt and
    /// closes it.
    pub fn handle_cmd(&mut self, scheduler: &mut Scheduler) -> (r: TaAction)
        requires
            1 <= old(self).parameter_cursor <= 16,
            old(self).context.current_list() != Some(PvrListType::NumLists),
            old(self).parameter_cursor % 8 == 0 && old(self).context.current_list() is None ==> pcw_list_code(
                old(self).parameter_buffer@[0],
            ) != 5,
            old(self).parameter_cursor % 8 == 0 && pcw_para_code(old(self).parameter_buffer@[0]) == 0 ==> old(scheduler).time() + 200 <= u64::MAX,
        ensures
            cmd_handled(*old(self), *final(self), *old(scheduler), *final(scheduler), r),
    {
        if self.parameter_cursor % 8 != 0 {
            return TaAction { reset: None, push: None };
        }
        let ghost words = self.parameter_buffer@;
        let pcw = ParameterControlWord::new(self.parameter_buffer[0]);
        let mut reset: Option<usize> = None;
        if self.context.list_type.is_none() {
            let l = pcw.list_type();
            self.context.list_type = Some(l);
            reset = Some(Self::list_number(l));
        }
        let list = match self.context.list_type {
            Some(l) => l,
            None => PvrListType::Opaque,
        };
        let list_type = Self::list_number(list);
        let data = [
            self.parameter_buffer[0],
            self.parameter_buffer[1],
            self.parameter_buffer[2],
            self.parameter_buffer[3],
            self.parameter_buffer[4],
            self.parameter_buffer[5],
            self.parameter_buffer[6],
            self.parameter_buffer[7],
        ];
        proof {
            assert(data@ =~= words.take(8));
        }
        let push = match pcw.para_type() {
            ParameterType::Sprite | ParameterType::PolyOrVol => Some(TaPush::Poly { list: list_type, words: data }),
            ParameterType::Vertex => Some(TaPush::Vertex { list: list_type, words: data }),
            ParameterType::EndOfList => {
                let istnrm = match list {
                    PvrListType::Opaque => 0u32.set_bit(7),
                    PvrListType::OpaqueModVol => 0u32.set_bit(8),
                    PvrListType::Translucent => 0u32.set_bit(9),
                    PvrListType::TranslucentModVol => 0u32.set_bit(10),
                    PvrListType::PunchThrough => 0u32.set_bit(21),
                    _ => 0,
                };
                proof {
                    assert(0u32 | (1u32 << 7usize) == 0x80u32 && 0u32 | (1u32 << 8usize) == 0x100u32
                        && 0u32 | (1u32 << 9usize) == 0x200u32 && 0u32 | (1u32 << 10usize) == 0x400u32
                        && 0u32 | (1u32 << 21usize) == 0x20_0000u32) by (bit_vector);
                }
                scheduler.schedule(
                    ScheduledEvent::HollyEvent {
                        deadline: 200,
                        event_data: HollyEventData::RaiseInterruptNormal { istnrm },
                    },
                );
                self.context.list_type = None;
                None
            },
            _ => None,
        };
        self.parameter_cursor = 0;
        TaAction { reset, push }
    }

    /// Takes a word written to the tile accelerator: a parameter word
    /// (0x10000000..=0x10FFFFFF) goes to the parameter buffer, which is
    /// handled when a parameter is complete; a word in the direct texture
    /// path (0x11000000..=0x117FFFFF) is stored little-endian in video memory
    /// at its offset; anything else is ignored.
    pub fn receive_ta_data(&mut self, scheduler: &mut Scheduler, addr: PhysicalAddress, data: u32, vram: &mut [u8]) -> (r: TaAction)
        requires
            0x10000000 <= addr.0 <= 0x10FFFFFF ==> {
                let cursor = old(self).parameter_cursor;
                let first = if cursor == 0 { data } else { old(self).parameter_buffer@[0] };
                &&& cursor < 16
                &&& old(self).context.current_list() != Some(PvrListType::NumLists)
                &&& (cursor + 1) % 8 == 0 && old(self).context.current_list() is None ==> pcw_list_code(first) != 5
                &&& (cursor + 1) % 8 == 0 && pcw_para_code(first) == 0 ==> old(scheduler).time() + 200 <= u64::MAX
            },
            0x11000000 <= addr.0 <= 0x117FFFFF ==> addr.0 - 0x11000000 + 4 <= old(vram)@.len(),
        ensures
            0x10000000 <= addr.0 <= 0x10FFFFFF ==> {
                &&& final(vram)@ == old(vram)@
                &&& exists|mid: Pvr| {
                    &&& mid.parameter_buffer@ == old(self).parameter_buffer@.update(old(self).parameter_cursor as int, data)
                    &&& mid.parameter_cursor == old(self).parameter_cursor + 1
                    &&& mid.context.current_list() == old(self).context.current_list()
                    &&& mid.registers == old(self).registers
                    &&& mid.wireframe == old(self).wireframe
                    &&& cmd_handled(mid, *final(self), *old(scheduler), *final(scheduler), r)
                }
            },
            0x11000000 <= addr.0 <= 0x117FFFFF ==> {
                let base = addr.0 - 0x11000000;
                &&& final(vram)@ == old(vram)@.update(base, byte_of(data, 0)).update(base + 1, byte_of(data, 1)).update(
                    base + 2,
                    byte_of(data, 2),
                ).update(base + 3, byte_of(data, 3))
            },
            !(0x10000000 <= addr.0 <= 0x10FFFFFF) ==> {
                &&& r.reset is None && r.push is None
                &&& final(self).parameter_cursor == old(self).parameter_cursor
                &&& final(self).parameter_buffer == old(self).parameter_buffer
                &&& final(self).context.current_list() == old(self).context.current_list()
                &&& final(self).registers == old(self).registers
                &&& final(self).wireframe == old(self).wireframe
                &&& final(scheduler)@ == old(scheduler)@
                &&& final(scheduler).time() == old(scheduler).time()
            },
            !(0x11000000 <= addr.0 <= 0x117FFFFF) && !(0x10000000 <= addr.0 <= 0x10FFFFFF) ==> final(vram)@ == old(vram)@,
    {
        if 0x10000000 <= addr.0 && addr.0 <= 0x10FFFFFF {
            self.parameter_buffer[self.parameter_cursor] = data;
            self.parameter_cursor += 1;
            let ghost mid = *self;
            let r = self.handle_cmd(scheduler);
            proof {
                assert(cmd_handled(mid, *self, *old(scheduler), *scheduler, r));
            }
            r
        } else {
            if 0x11000000 <= addr.0 && addr.0 <= 0x117FFFFF {
                let base_index = (addr.0 - 0x11000000) as usize;
                vram[base_index] = (data & 0x000000FF) as u8;
                vram[base_index + 1] = ((data >> 8u32) & 0x000000FF) as u8;
                vram[base_index + 2] = ((data >> 16u32) & 0x000000FF) as u8;
                vram[base_index + 3] = ((data >> 24u32) & 0x000000FF) as u8;
                proof {
                    assert((data >> 0u32) & 0xff == data & 0xff) by (bit_vector);
                }
            }
            TaAction { reset: None, push: None }
        }
    }

    /// Where in parameter memory the first background vertex lies
    /// (`bg_vertex_base`).
    pub fn bg_vertex_offset(&self) -> (r: u64)
        ensures
            r == bg_vertex_base(self.registers),
    {
        let bg = self.registers.isp_backgnd_t;
        let tag_addr = (bg & 0xFFFFF8) >> 3u32;
        let tag_offset = bg & 0x3;
        let tag_skip = (bg & 0x7000000) >> 24u32;
        proof {
            assert((bg & 0xFFFFF8) >> 3u32 <= 0x1FFFFF && bg & 0x3 <= 3 && (bg & 0x7000000) >> 24u32 <= 7) by (bit_vector);
        }
        let skipped: u64 = 4 * (3 + 2 * tag_skip as u64);
        proof {
            assert(tag_offset as u64 * skipped <= 3 * 68) by (nonlinear_arith)
                requires tag_offset <= 3, skipped <= 68;
        }
        self.registers.param_base as u64 + 4 * tag_addr as u64 + 12 + tag_offset as u64 * skipped
    }

    /// The raw words of the three background vertices that
    /// `isp_backgnd_t` points at in parameter memory: for each, the bits of
    /// x and y and the packed colour (z is not used).
    pub fn bg_vertex_words(&self, vram: &[u8]) -> (r: [[u32; 3]; 3])
        requires
            bg_vertex_base(self.registers) + 48 <= vram@.len(),
            bg_vertex_base(self.registers) + 48 <= u32::MAX,
        ensures
            forall|i: int|
                0 <= i < 3 ==> {
                    let at = bg_vertex_base(self.registers) + 16 * i;
                    &&& (#[trigger] r[i])[0] == le_word(vram@, at)
                    &&& r[i][1] == le_word(vram@, at + 4)
                    &&& r[i][2] == le_word(vram@, at + 12)
                },
    {
        let vert_index = self.bg_vertex_offset() as u32;
        let vert_size: u32 = 4 * (3 + 1);
        let mut vertices = [[0u32; 3]; 3];
        let mut i: u32 = 0;
        while i < 3
            invariant
                i <= 3,
                vert_index == bg_vertex_base(self.registers),
                vert_index + 48 <= vram@.len(),
                vert_index + 48 <= u32::MAX,
                vert_size == 16,
                forall|k: int|
                    0 <= k < i ==> {
                        let at = vert_index + 16 * k;
                        &&& (#[trigger] vertices[k])[0] == le_word(vram@, at)
                        &&& vertices[k][1] == le_word(vram@, at + 4)
                        &&& vertices[k][2] == le_word(vram@, at + 12)
                    },
            decreases 3 - i,
        {
            let at = (vert_index + i * vert_size) as usize;
            let x = (vram[at] as u32) | ((vram[at + 1] as u32) << 8u32) | ((vram[at + 2] as u32) << 16u32)
                | ((vram[at + 3] as u32) << 24u32);
            let y = (vram[at + 4] as u32) | ((vram[at + 5] as u32) << 8u32) | ((vram[at + 6] as u32) << 16u32)
                | ((vram[at + 7] as u32) << 24u32);
            let color = (vram[at + 12] as u32) | ((vram[at + 13] as u32) << 8u32) | ((vram[at + 14] as u32)
                << 16u32) | ((vram[at + 15] as u32) << 24u32);
            vertices[i as usize] = [x, y, color];
            i += 1;
        }
        vertices
    }

    /// The builder index of a display list.
    fn list_number(l: PvrListType) -> (r: usize)
        ensures
            r == list_index(l),
    {
        match l {
            PvrListType::Opaque => 0,
            PvrListType::OpaqueModVol => 1,
            PvrListType::Translucent => 2,
            PvrListType::TranslucentModVol => 3,
            PvrListType::PunchThrough => 4,
            PvrListType::NumLists => 5,
        }
    }
}

} // verus!
