//! The Maple bus: the serial bus of the controllers. A DMA transfer walks a
//! list of commands in system memory and writes each answer back there.
use crate::hw::extensions::{bit32, byte_of, le_word, BitManipulation};
use crate::hw::holly::HollyEventData;
use crate::scheduler::{schedule_result, ScheduledEvent, Scheduler};
use vstd::prelude::*;
use vstd::string::StringSliceAdditionalSpecFns;

verus! {

/// The Maple registers (none are modelled).
#[derive(Default, Clone, Debug, Eq, PartialEq)]
pub struct MapleRegisters {}

/// The Maple bus controller.
pub struct Maple {
    registers: MapleRegisters,
}

pub const MAPLE_CAP_C: u32 = 1u32 << 24u32;
pub const MAPLE_CAP_B: u32 = 1u32 << 25u32;
pub const MAPLE_CAP_A: u32 = 1u32 << 26u32;
pub const MAPLE_CAP_START: u32 = 1u32 << 27u32;
pub const MAPLE_CAP_DPAD_UP: u32 = 1u32 << 28u32;
pub const MAPLE_CAP_DPAD_DOWN: u32 = 1u32 << 29u32;
pub const MAPLE_CAP_DPAD_LEFT: u32 = 1u32 << 30u32;
pub const MAPLE_CAP_DPAD_RIGHT: u32 = 1u32 << 31u32;
pub const MAPLE_CAP_Z: u32 = 1u32 << 16u32;
pub const MAPLE_CAP_Y: u32 = 1u32 << 17u32;
pub const MAPLE_CAP_X: u32 = 1u32 << 18u32;
pub const MAPLE_CAP_D: u32 = 1u32 << 19u32;
pub const MAPLE_CAP_DPAD2_UP: u32 = 1u32 << 20u32;
pub const MAPLE_CAP_DPAD2_DOWN: u32 = 1u32 << 21u32;
pub const MAPLE_CAP_DPAD2_LEFT: u32 = 1u32 << 22u32;
pub const MAPLE_CAP_DPAD2_RIGHT: u32 = 1u32 << 23u32;
pub const MAPLE_CAP_RTRIG: u32 = 1u32 << 8u32;
pub const MAPLE_CAP_LTRIG: u32 = 1u32 << 9u32;
pub const MAPLE_CAP_ANALOG_X: u32 = 1u32 << 10u32;
pub const MAPLE_CAP_ANALOG_Y: u32 = 1u32 << 11u32;
pub const MAPLE_CAP_ANALOG2_X: u32 = 1u32 << 12u32;
pub const MAPLE_CAP_ANALOG2_Y: u32 = 1u32 << 13u32;

pub const MAPLE_CAP_STANDARD_BUTTONS: u32 = MAPLE_CAP_A | MAPLE_CAP_B | MAPLE_CAP_X | MAPLE_CAP_Y
    | MAPLE_CAP_START;
pub const MAPLE_CAP_DPAD: u32 = MAPLE_CAP_DPAD_UP | MAPLE_CAP_DPAD_DOWN | MAPLE_CAP_DPAD_LEFT
    | MAPLE_CAP_DPAD_RIGHT;
pub const MAPLE_CAP_ANALOG: u32 = MAPLE_CAP_ANALOG_X | MAPLE_CAP_ANALOG_Y;
pub const MAPLE_CAP_TRIGGERS: u32 = MAPLE_CAP_LTRIG | MAPLE_CAP_RTRIG;

/// The capabilities of the standard controller: buttons, triggers, the
/// D-pad and one analog stick.
pub const CONT_TYPE_STANDARD_CONTROLLER: u32 = MAPLE_CAP_STANDARD_BUTTONS | MAPLE_CAP_TRIGGERS
    | MAPLE_CAP_DPAD | MAPLE_CAP_ANALOG;

/// The description a device answers a device-info request with.
#[derive(Copy, Clone, Debug, Eq, PartialEq)]
pub struct MapleDeviceInfo {
    pub func: u32,
    pub data: [u32; 3],
    pub region: u8,
    pub direction: u8,
    pub name: [u8; 30],
    pub license: [u8; 60],
    pub standby_power: u16,
    pub max_power: u16,
}

/// A frame on the Maple bus: a command, the two addresses, the length in
/// words, and the data.
#[derive(Copy, Clone, Debug, Eq, PartialEq)]
pub struct MapleFrame {
    pub cmd: u8,
    pub dest_addr: u8,
    pub source_addr: u8,
    pub length: u8,
    pub data: [u32; 255],
}

/// The four little-endian bytes of a word.
pub open spec fn le_bytes(w: u32) -> Seq<u8> {
    seq![byte_of(w, 0), byte_of(w, 1), byte_of(w, 2), byte_of(w, 3)]
}

/// The bytes of `text`, cut or padded with spaces to `n` bytes.
pub open spec fn space_padded(text: Seq<u8>, n: nat) -> Seq<u8> {
    Seq::new(n, |i: int| if i < text.len() { text[i] } else { 0x20u8 })
}

/// The name the controller reports.
pub open spec fn controller_name() -> Seq<u8> {
    "Dreamcast Controller".spec_bytes()
}

/// The licence statement the controller reports.
pub open spec fn controller_license() -> Seq<u8> {
    "Produced By or Under License F rom SEGA ENTERPRISES,LTD.".spec_bytes()
}

/// The controller's device information as laid out in memory (112 bytes):
/// the function code, three function data words, the region and connector
/// direction, the space-padded name and licence, and the standby and
/// maximum power, all little-endian.
pub open spec fn controller_info_bytes() -> Seq<u8> {
    le_bytes(0x0100_0000) + le_bytes(CONT_TYPE_STANDARD_CONTROLLER) + le_bytes(0) + le_bytes(0) + seq![
        0xffu8,
        0u8,
    ] + space_padded(controller_name(), 30) + space_padded(controller_license(), 60) + seq![
        0xaeu8,
        0x01u8,
        0xf4u8,
        0x01u8,
    ]
}

/// The words of a receive frame's data after a command: for a device-info
/// request (1) the device information fills the first 28 words.
pub open spec fn answered_data(cmd: u8, data: Seq<u32>) -> Seq<u32> {
    if cmd == 1 {
        Seq::new(data.len(), |k: int| if k < 28 { le_word(controller_info_bytes(), 4 * k) } else { data[k] })
    } else {
        data
    }
}

/// The 1024 bytes written back for a command frame with command `cmd` from
/// source address `source`: the answer's header, then the answer's data,
/// zero past the device information.
pub open spec fn maple_response(cmd: u8, source: u8) -> Seq<u8> {
    seq![0x05u8, source, 0x21u8, 28u8] + (if cmd == 1 {
        controller_info_bytes()
    } else {
        Seq::new(112, |i: int| 0u8)
    }) + Seq::new(908, |i: int| 0u8)
}

/// The bytes after a transfer length field: by the low half-word of the
/// command header.
pub open spec fn maple_transfer_len(header: u32) -> int {
    let l = header & 0xffff;
    if l == 0 {
        4
    } else if l == 1 {
        8
    } else if l == 0xfe {
        1020
    } else {
        1024
    }
}

/// `ram` with `bytes` written from `at`.
pub open spec fn written_at(ram: Seq<u8>, at: int, bytes: Seq<u8>) -> Seq<u8> {
    Seq::new(ram.len(), |j: int| if at <= j < at + bytes.len() { bytes[j - at] } else { ram[j] })
}

/// System memory after the DMA list from offset `off` is worked through,
/// or `None` where the walk would fault: each entry is a command header
/// (pattern 0: a receive address, then a frame whose answer is written at
/// the receive address less 0x0c000000; pattern 7: nothing more), and the
/// list ends at the header with bit 31 set.
pub open spec fn maple_walk(ram: Seq<u8>, off: int) -> Option<Seq<u8>>
    decreases ram.len() - off,
{
    if off < 0 || off + 4 > ram.len() {
        None
    } else {
        let header = le_word(ram, off);
        let pattern = (header & 0x700) >> 8u32;
        if pattern == 0 {
            let frame = off + 8;
            if frame + 4 > ram.len() {
                None
            } else {
                let recv = le_word(ram, off + 4) - 0x0c00_0000;
                let cmd = ram[frame];
                if recv < 0 || recv + 1024 > ram.len() || !(cmd == 1 || cmd == 9) {
                    None
                } else {
                    let ram2 = written_at(ram, recv, maple_response(cmd, ram[frame + 2]));
                    let next = frame + maple_transfer_len(header);
                    if bit32(header, 31) {
                        Some(ram2)
                    } else if next + 4 > ram.len() {
                        None
                    } else {
                        maple_walk(ram2, next)
                    }
                }
            }
        } else if pattern == 7 {
            if bit32(header, 31) {
                Some(ram)
            } else if off + 8 > ram.len() {
                None
            } else {
                maple_walk(ram, off + 4)
            }
        } else {
            None
        }
    }
}

/// The event a finished transfer schedules: the Maple DMA-end interrupt,
/// 200 cycles on.
pub open spec fn maple_done_event() -> ScheduledEvent {
    ScheduledEvent::HollyEvent {
        deadline: 200,
        event_data: HollyEventData::RaiseInterruptNormal { istnrm: 0x1000 },
    }
}

proof fn lemma_le_bytes(w: u32)
    by (bit_vector)
    ensures
        ((w >> 0u32) & 0xff) as u8 == (w & 0xff) as u8,
        (((w & 0xff) as u8 as u32) | ((((w >> 8u32) & 0xff) as u8 as u32) << 8u32) | ((((w >> 16u32)
            & 0xff) as u8 as u32) << 16u32) | ((((w >> 24u32) & 0xff) as u8 as u32) << 24u32)) == w,
{
}

proof fn lemma_word_of_bytes(b0: u8, b1: u8, b2: u8, b3: u8)
    by (bit_vector)
    ensures
        ({
            let w = (b0 as u32) | ((b1 as u32) << 8u32) | ((b2 as u32) << 16u32) | ((b3 as u32)
                << 24u32);
            &&& ((w >> 0u32) & 0xff) as u8 == b0
            &&& ((w >> 8u32) & 0xff) as u8 == b1
            &&& ((w >> 16u32) & 0xff) as u8 == b2
            &&& ((w >> 24u32) & 0xff) as u8 == b3
        }),
{
}

/// Appends the four little-endian bytes of `w`.
fn push_le(v: &mut Vec<u8>, w: u32)
    ensures
        final(v)@ == old(v)@ + le_bytes(w),
{
    v.push((w & 0xff) as u8);
    v.push(((w >> 8u32) & 0xff) as u8);
    v.push(((w >> 16u32) & 0xff) as u8);
    v.push(((w >> 24u32) & 0xff) as u8);
    proof { lemma_le_bytes(w); }
    assert(final(v)@ =~= old(v)@ + le_bytes(w));
}

/// Appends `text` cut or padded with spaces to `n` bytes.
fn push_padded(v: &mut Vec<u8>, text: &[u8], n: usize)
    ensures
        final(v)@ == old(v)@ + space_padded(text@, n as nat),
{
    let ghost v0 = v@;
    let mut i: usize = 0;
    while i < n
        invariant
            i <= n,
            v@ == v0 + space_padded(text@, n as nat).take(i as int),
        decreases n - i,
    {
        if i < text.len() {
            v.push(text[i]);
        } else {
            v.push(0x20);
        }
        i += 1;
        assert(v@ =~= v0 + space_padded(text@, n as nat).take(i as int));
    }
    assert(space_padded(text@, n as nat).take(n as int) =~= space_padded(text@, n as nat));
}

/// The little-endian bytes of a run of words.
pub open spec fn frame_data_bytes(data: Seq<u32>) -> Seq<u8> {
    Seq::new(4 * data.len(), |j: int| byte_of(data[j / 4], j % 4))
}

/// The bytes of the device information are those of its words.
proof fn lemma_answer_bytes(cmd: u8, source: u8)
    requires
        cmd == 1 || cmd == 9,
    ensures
        seq![0x05u8, source, 0x21u8, 28u8] + frame_data_bytes(answered_data(cmd, Seq::new(255, |k: int| 0u32)))
            == maple_response(cmd, source),
{
    let info = controller_info_bytes();
    let data = answered_data(cmd, Seq::new(255, |k: int| 0u32));
    let fb = frame_data_bytes(data);
    assert(info.len() == 112);
    assert forall|j: int| 0 <= j < 1020 implies #[trigger] fb[j] == maple_response(cmd, source)[j + 4] by {
        let k = j / 4;
        let b = j % 4;
        assert(forall|sh: u32| (0u32 >> sh) & 0xff == 0u32) by (bit_vector);
        if cmd == 1 && k < 28 {
            lemma_word_of_bytes(info[4 * k], info[4 * k + 1], info[4 * k + 2], info[4 * k + 3]);
            assert(4 * k + b == j);
        }
    }
    assert(seq![0x05u8, source, 0x21u8, 28u8] + fb =~= maple_response(cmd, source));
}

impl Maple {
    pub fn new() -> (r: Self) {
        Self { registers: MapleRegisters {} }
    }

    /// The controller's device information, byte by byte.
    fn controller_info() -> (r: Vec<u8>)
        ensures
            r@ == controller_info_bytes(),
    {
        let mut v: Vec<u8> = Vec::new();
        push_le(&mut v, 0x0100_0000);
        push_le(&mut v, CONT_TYPE_STANDARD_CONTROLLER);
        push_le(&mut v, 0);
        push_le(&mut v, 0);
        v.push(0xff);
        v.push(0);
        push_padded(&mut v, "Dreamcast Controller".as_bytes(), 30);
        push_padded(&mut v, "Produced By or Under License F rom SEGA ENTERPRISES,LTD.".as_bytes(), 60);
        v.push(0xae);
        v.push(0x01);
        v.push(0xf4);
        v.push(0x01);
        assert(v@ =~= controller_info_bytes());
        v
    }

    /// Answers a command frame: a device-info request (1) gets the
    /// controller's description in the receive frame's data; a condition
    /// request (9) changes nothing.
    pub fn process_maple_frame(&mut self, tx_frame: &MapleFrame, rx_frame: &mut MapleFrame)
        requires
            tx_frame.cmd == 1 || tx_frame.cmd == 9,
        ensures
            final(rx_frame).data@ == answered_data(tx_frame.cmd, old(rx_frame).data@),
            final(rx_frame).cmd == old(rx_frame).cmd,
            final(rx_frame).dest_addr == old(rx_frame).dest_addr,
            final(rx_frame).source_addr == old(rx_frame).source_addr,
            final(rx_frame).length == old(rx_frame).length,
    {
        let cmd_id = tx_frame.cmd;
        if cmd_id == 0x01 {
            let info = Self::controller_info();
            let ghost d0 = rx_frame.data@;
            let mut k: usize = 0;
            while k < 28
                invariant
                    k <= 28,
                    info@ == controller_info_bytes(),
                    info@.len() == 112,
                    rx_frame.data@.len() == 255,
                    forall|j: int| 0 <= j < 255 ==> #[trigger] rx_frame.data@[j] == if j < k {
                        le_word(controller_info_bytes(), 4 * j)
                    } else {
                        d0[j]
                    },
                    rx_frame.cmd == old(rx_frame).cmd,
                    rx_frame.dest_addr == old(rx_frame).dest_addr,
                    rx_frame.source_addr == old(rx_frame).source_addr,
                    rx_frame.length == old(rx_frame).length,
                    d0 == old(rx_frame).data@,
                decreases 28 - k,
            {
                let b = 4 * k;
                let w = (info[b] as u32) | ((info[b + 1] as u32) << 8u32) | ((info[b + 2] as u32) << 16u32)
                    | ((info[b + 3] as u32) << 24u32);
                rx_frame.data[k] = w;
                k += 1;
            }
            assert(rx_frame.data@ =~= answered_data(tx_frame.cmd, old(rx_frame).data@));
        }
    }

    /// Writes an answer frame at `recv`: its header bytes, then its 255
    /// data words little-endian.
    fn write_response(system_ram: &mut [u8], recv: usize, rx_frame: &MapleFrame)
        requires
            recv + 1024 <= old(system_ram)@.len(),
        ensures
            final(system_ram)@ == written_at(
                old(system_ram)@,
                recv as int,
                seq![0x05u8, rx_frame.dest_addr, rx_frame.source_addr, 28u8] + frame_data_bytes(rx_frame.data@),
            ),
    {
        let n = system_ram.len();
        let ghost ram0 = system_ram@;
        let ghost bytes = seq![0x05u8, rx_frame.dest_addr, rx_frame.source_addr, 28u8] + frame_data_bytes(rx_frame.data@);
        system_ram[recv] = 0x05;
        system_ram[recv + 1] = rx_frame.dest_addr;
        system_ram[recv + 2] = rx_frame.source_addr;
        system_ram[recv + 3] = 28;
        let mut k: usize = 0;
        while k < 255
            invariant
                k <= 255,
                recv + 1024 <= ram0.len(),
                n == ram0.len(),
                bytes == seq![0x05u8, rx_frame.dest_addr, rx_frame.source_addr, 28u8] + frame_data_bytes(rx_frame.data@),
                system_ram@ == written_at(ram0, recv as int, bytes.take(4 + 4 * k)),
            decreases 255 - k,
        {
            let w = rx_frame.data[k];
            let at = recv + 4 + 4 * k;
            system_ram[at] = (w & 0xff) as u8;
            system_ram[at + 1] = ((w >> 8u32) & 0xff) as u8;
            system_ram[at + 2] = ((w >> 16u32) & 0xff) as u8;
            system_ram[at + 3] = ((w >> 24u32) & 0xff) as u8;
            proof {
                lemma_le_bytes(w);
                assert(bytes[4 + 4 * k] == byte_of(w, 0));
                assert(bytes[4 + 4 * k + 1] == byte_of(w, 1));
                assert(bytes[4 + 4 * k + 2] == byte_of(w, 2));
                assert(bytes[4 + 4 * k + 3] == byte_of(w, 3));
            }
            k += 1;
            assert(system_ram@ =~= written_at(ram0, recv as int, bytes.take(4 + 4 * k)));
        }
        assert(bytes.take(1024) =~= bytes);
    }

    /// Works through the DMA list at `start_offset` in system memory,
    /// answering each command frame at its receive address, then schedules
    /// the DMA-end interrupt 200 cycles on.
    pub fn perform_maple_transfer(&mut self, start_offset: usize, scheduler: &mut Scheduler, system_ram: &mut [u8])
        requires
            maple_walk(old(system_ram)@, start_offset as int) is Some,
            old(system_ram)@.len() + 1024 <= usize::MAX,
            old(scheduler).time() + 200 <= u64::MAX,
        ensures
            final(system_ram)@ == maple_walk(old(system_ram)@, start_offset as int)->0,
            final(scheduler)@ == schedule_result(old(scheduler)@, old(scheduler).time(), maple_done_event()),
            final(scheduler).time() == old(scheduler).time(),
    {
        let ghost result = maple_walk(system_ram@, start_offset as int)->0;
        let n = system_ram.len();
        let mut send_offset = start_offset;
        loop
            invariant_except_break
                maple_walk(system_ram@, send_offset as int) == Some(result),
                n == system_ram@.len(),
                n + 1024 <= usize::MAX,
            ensures
                system_ram@ == result,
            decreases system_ram@.len() - send_offset,
        {
            let ghost ram0 = system_ram@;
            let ghost off0 = send_offset as int;
            let command_header = (system_ram[send_offset] as u32) | ((system_ram[send_offset + 1] as u32) << 8u32)
                | ((system_ram[send_offset + 2] as u32) << 16u32) | ((system_ram[send_offset + 3] as u32) << 24u32);
            send_offset += 4;
            let pattern = (command_header & 0x700) >> 8u32;
            let transfer_len_in_bytes: usize = match command_header & 0xffff {
                0 => 4,
                1 => 8,
                0xfe => 1020,
                _ => 1024,
            };
            if pattern == 0 {
                let receive_address = (system_ram[send_offset] as u32) | ((system_ram[send_offset + 1] as u32) << 8u32)
                    | ((system_ram[send_offset + 2] as u32) << 16u32) | ((system_ram[send_offset + 3] as u32) << 24u32);
                let recv_offset = (receive_address - 0x0c000000) as usize;
                send_offset += 4;
                let tx_frame = MapleFrame {
                    cmd: system_ram[send_offset],
                    dest_addr: system_ram[send_offset + 1],
                    source_addr: system_ram[send_offset + 2],
                    length: system_ram[send_offset + 3],
                    data: [0; 255],
                };
                let mut rx_frame = MapleFrame {
                    cmd: if tx_frame.cmd == 0x01 { 0x05 } else { 0x08 },
                    dest_addr: tx_frame.source_addr,
                    source_addr: 0u8.set_bit(5).set_bit(0),
                    length: 28,
                    data: [0; 255],
                };
                proof {
                    assert((0u8 | (1u8 << 5usize)) | (1u8 << 0usize) == 0x21u8) by (bit_vector);
                    assert(rx_frame.data@ =~= Seq::new(255, |k: int| 0u32));
                }
                self.process_maple_frame(&tx_frame, &mut rx_frame);
                Self::write_response(system_ram, recv_offset, &rx_frame);
                proof {
                    lemma_answer_bytes(tx_frame.cmd, tx_frame.source_addr);
                }
                send_offset += transfer_len_in_bytes;
            }
            if command_header.check_bit(31) {
                break;
            }
        }
        proof {
            assert(0u32 | (1u32 << 12usize) == 0x1000u32) by (bit_vector);
        }
        scheduler.schedule(
            ScheduledEvent::HollyEvent {
                deadline: 200,
                event_data: HollyEventData::RaiseInterruptNormal { istnrm: 0u32.set_bit(12) },
            },
        );
    }}

} // verus!
