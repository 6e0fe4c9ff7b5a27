//! The decisions of the emulator's main loop: how the CPU time slice is
//! counted, what a request from the frontend does, what a due scheduler
//! event leads to, and whether a finished frame is blitted from the
//! framebuffer or handed to the renderer. The loop itself, the threads and
//! the channels to the frontend stay with the caller.
use crate::hw::holly::pvr::framebuffer::{fb_read_bytes, Framebuffer, FramebufferRegisters, VRAM_MASK};
use crate::hw::holly::spg::schedule_all;
use crate::hw::holly::HollyEventData;
use crate::hw::sh4::intc::{Intc, IntcRegisters, NUM_INTERRUPTS};
use crate::hw::sh4::SH4EventData;
use crate::scheduler::{schedule_result, ScheduledEvent, Scheduler, SchedulerEntry};
use crate::{ControllerButton, EmulatorFrontendRequest};
use vstd::prelude::*;

verus! {

/// The SH-4 cycles of one time slice.
pub const TIMESLICE: u64 = 448;

/// The SH-4 cycles counted for each step of the CPUs.
pub const CPU_RATIO: u64 = 8;

/// The controller buttons the loop passes on to the Maple bus.
#[derive(Copy, Clone, Debug, PartialEq, Eq, Structural)]
pub struct ButtonState {
    pub a: bool,
    pub x: bool,
    pub start: bool,
    pub right: bool,
    pub up: bool,
    pub down: bool,
}

/// The loop's own state: the cycles left in the slice and counted so far,
/// and whether a frame is waiting to be rendered (with its display list) or
/// the framebuffer to be blitted.
#[derive(Copy, Clone, Debug)]
pub struct LoopState {
    pub time_slice: u64,
    pub total_cycles: u64,
    pub send_frame: bool,
    pub saw_sr: bool,
    pub dl_id: u32,
    pub blit_frame: bool,
    pub buttons: ButtonState,
}

/// What a due event asks of the caller.
#[derive(Copy, Clone, Debug, PartialEq, Eq, Structural)]
pub enum EventAction {
    /// An SH-4 interrupt line was raised; nothing more to do.
    Raised,
    /// Holly handles the event, `target` cycles after it was scheduled and
    /// `overrun` cycles late.
    Holly { target: u64, overrun: u64, event: HollyEventData },
}

/// What to do with the picture after a slice.
#[derive(Copy, Clone, Debug, PartialEq, Eq, Structural)]
pub enum FrameAction {
    Nothing,
    /// Convert the framebuffer and blit it.
    Blit,
    /// Render display list `display_list` with the hardware rasterizer.
    Render { display_list: u32 },
}

/// The buttons after a request: a press or release of A, X, Start, Right,
/// Up or Down sets or clears that button; nothing else changes them.
pub open spec fn buttons_after(b: ButtonState, request: EmulatorFrontendRequest) -> ButtonState {
    let (button, down) = match request {
        EmulatorFrontendRequest::ButtonPressed(c) => (Some(c), true),
        EmulatorFrontendRequest::ButtonReleased(c) => (Some(c), false),
        _ => (None, false),
    };
    match button {
        Some(ControllerButton::A) => ButtonState { a: down, ..b },
        Some(ControllerButton::X) => ButtonState { x: down, ..b },
        Some(ControllerButton::Start) => ButtonState { start: down, ..b },
        Some(ControllerButton::Right) => ButtonState { right: down, ..b },
        Some(ControllerButton::Up) => ButtonState { up: down, ..b },
        Some(ControllerButton::Down) => ButtonState { down: down, ..b },
        _ => b,
    }
}

/// The event that raises a normal Holly interrupt with status `istnrm`
/// at once.
pub open spec fn raise_normal(istnrm: u32) -> ScheduledEvent {
    ScheduledEvent::HollyEvent { deadline: 0, event_data: HollyEventData::RaiseInterruptNormal { istnrm } }
}

/// The events a finished rendering schedules: the render-done interrupts
/// (status bits 2, 1 and 0), in that order.
pub open spec fn rendering_done_events() -> Seq<ScheduledEvent> {
    seq![raise_normal(4), raise_normal(2), raise_normal(1)]
}

/// Whether the framebuffer's watched ranges can be set from its registers.
pub open spec fn watches_fit(regs: FramebufferRegisters) -> bool {
    &&& fb_read_bytes(regs) <= u32::MAX
    &&& (regs.base_address & VRAM_MASK) + fb_read_bytes(regs) <= u32::MAX
    &&& (regs.base_address2 & VRAM_MASK) + fb_read_bytes(regs) <= u32::MAX
}

/// Whether the watches of `fb` can be set (`watches_fit`).
pub fn can_set_watches(fb: &Framebuffer) -> (r: bool)
    ensures
        r == watches_fit(fb.registers),
{
    let xs = fb.registers.read_size.x_size as u128 + fb.registers.read_size.modulus as u128;
    let ys = fb.registers.read_size.y_size as u128 + 1;
    proof {
        assert(xs * ys <= 0x2_0000_0000 * 0x1_0000_0000) by (nonlinear_arith)
            requires xs <= 0x2_0000_0000, ys <= 0x1_0000_0000;
    }
    let bytes = xs * ys * 4;
    proof {
        assert(bytes == fb_read_bytes(fb.registers));
    }
    bytes <= u32::MAX as u128 && (fb.registers.base_address & VRAM_MASK) as u128 + bytes <= u32::MAX as u128
        && (fb.registers.base_address2 & VRAM_MASK) as u128 + bytes <= u32::MAX as u128
}

impl ButtonState {
    pub fn new() -> (r: Self)
        ensures
            r == (ButtonState { a: false, x: false, start: false, right: false, up: false, down: false }),
    {
        ButtonState { a: false, x: false, start: false, right: false, up: false, down: false }
    }
}

impl LoopState {
    /// A full slice ahead, nothing counted, no frame waiting.
    pub fn new() -> (r: Self)
        ensures
            r.time_slice == TIMESLICE,
            r.total_cycles == 0,
            !r.send_frame && !r.saw_sr && !r.blit_frame,
            r.dl_id == 0,
            r.buttons == ButtonState::new_spec(),
    {
        LoopState {
            time_slice: TIMESLICE,
            total_cycles: 0,
            send_frame: false,
            saw_sr: false,
            dl_id: 0,
            blit_frame: false,
            buttons: ButtonState::new(),
        }
    }

    /// Whether the CPUs step again in this slice: while cycles are left
    /// and the emulator runs.
    pub fn slice_continues(&self, running: bool) -> (r: bool)
        ensures
            r == (self.time_slice > 0 && running),
    {
        self.time_slice > 0 && running
    }

    /// Counts one step of the CPUs: the slice shrinks and the total grows
    /// by `CPU_RATIO` cycles.
    pub fn count_step(&mut self)
        requires
            old(self).time_slice >= CPU_RATIO,
            old(self).total_cycles + CPU_RATIO <= u64::MAX,
        ensures
            *final(self) == (LoopState {
                time_slice: (old(self).time_slice - CPU_RATIO) as u64,
                total_cycles: (old(self).total_cycles + CPU_RATIO) as u64,
                ..*old(self)
            }),
    {
        self.time_slice = self.time_slice - CPU_RATIO;
        self.total_cycles = self.total_cycles + CPU_RATIO;
    }

    /// Ends a slice: the next one gets `TIMESLICE` more cycles.
    pub fn end_slice(&mut self)
        requires
            old(self).time_slice + TIMESLICE <= u64::MAX,
        ensures
            *final(self) == (LoopState { time_slice: (old(self).time_slice + TIMESLICE) as u64, ..*old(self) }),
    {
        self.time_slice = self.time_slice + TIMESLICE;
    }

    /// A request from the frontend: button presses and releases update the
    /// buttons, a wireframe toggle flips `wireframe`, and a finished
    /// rendering raises the render-done interrupts; pausing, resuming and
    /// sampling do nothing.
    pub fn handle_request(&mut self, request: EmulatorFrontendRequest, wireframe: &mut bool, scheduler: &mut Scheduler)
        ensures
            *final(self) == (LoopState { buttons: buttons_after(old(self).buttons, request), ..*old(self) }),
            *final(wireframe) == if request is ToggleWireframe { !*old(wireframe) } else { *old(wireframe) },
            final(scheduler)@ == if request is RenderingDone {
                schedule_all(old(scheduler)@, old(scheduler).time(), rendering_done_events())
            } else {
                old(scheduler)@
            },
            final(scheduler).time() == old(scheduler).time(),
    {
        match request {
            EmulatorFrontendRequest::ButtonPressed(button) => {
                self.set_button(button, true);
            },
            EmulatorFrontendRequest::ButtonReleased(button) => {
                self.set_button(button, false);
            },
            EmulatorFrontendRequest::ToggleWireframe => {
                *wireframe = !*wireframe;
            },
            EmulatorFrontendRequest::RenderingDone => {
                let ghost s0 = scheduler@;
                let ghost now = scheduler.time();
                scheduler.schedule(
                    ScheduledEvent::HollyEvent { deadline: 0, event_data: HollyEventData::RaiseInterruptNormal { istnrm: 4 } },
                );
                scheduler.schedule(
                    ScheduledEvent::HollyEvent { deadline: 0, event_data: HollyEventData::RaiseInterruptNormal { istnrm: 2 } },
                );
                scheduler.schedule(
                    ScheduledEvent::HollyEvent { deadline: 0, event_data: HollyEventData::RaiseInterruptNormal { istnrm: 1 } },
                );
                proof {
                    let e1 = seq![raise_normal(4)];
                    let e2 = seq![raise_normal(4), raise_normal(2)];
                    let e3 = rendering_done_events();
                    assert(e1.drop_last() =~= Seq::<ScheduledEvent>::empty());
                    assert(e2.drop_last() =~= e1);
                    assert(e3.drop_last() =~= e2);
                    assert(schedule_all(s0, now, Seq::<ScheduledEvent>::empty()) == s0);
                    assert(schedule_all(s0, now, e1) == schedule_result(s0, now, raise_normal(4)));
                    assert(schedule_all(s0, now, e2) == schedule_result(schedule_all(s0, now, e1), now, raise_normal(2)));
                    assert(schedule_all(s0, now, e3) == schedule_result(schedule_all(s0, now, e2), now, raise_normal(1)));
                }
            },
            _ => {},
        }
    }

    fn set_button(&mut self, button: ControllerButton, down: bool)
        ensures
            *final(self) == (LoopState {
                buttons: buttons_after(
                    old(self).buttons,
                    if down { EmulatorFrontendRequest::ButtonPressed(button) } else { EmulatorFrontendRequest::ButtonReleased(button) },
                ),
                ..*old(self)
            }),
    {
        match button {
            ControllerButton::A => { self.buttons.a = down; },
            ControllerButton::X => { self.buttons.x = down; },
            ControllerButton::Start => { self.buttons.start = down; },
            ControllerButton::Right => { self.buttons.right = down; },
            ControllerButton::Up => { self.buttons.up = down; },
            ControllerButton::Down => { self.buttons.down = down; },
            _ => {},
        }
    }

    /// A due scheduler event, handed out at cycle `now`: an SH-4 interrupt
    /// request raises its line on the interrupt controller; a Holly event
    /// goes to Holly with the cycles from its scheduling to its deadline and
    /// how late it is. A frame-ready event marks its display list for
    /// rendering; a vertical blank allows a blit and resets the
    /// framebuffer's watches.
    pub fn handle_event(&mut self, entry: SchedulerEntry, now: u64, intc: &mut Intc, fb: &mut Framebuffer) -> (r: EventAction)
        requires
            entry.event matches ScheduledEvent::SH4Event { event_data: SH4EventData::RaiseIRL { irl_number }, .. }
                ==> irl_number < NUM_INTERRUPTS,
            entry.event is HollyEvent ==> entry.start <= entry.event.due() <= now,
            entry.event matches ScheduledEvent::HollyEvent { event_data: HollyEventData::VBlank, .. }
                ==> watches_fit(old(fb).registers),
        ensures
            match entry.event {
                ScheduledEvent::SH4Event { event_data: SH4EventData::RaiseIRL { irl_number }, .. } => {
                    &&& r == EventAction::Raised
                    &&& final(intc).regs() == (IntcRegisters {
                        interrupt_requests: old(intc).regs().interrupt_requests | (1u64 << (old(intc).positions()[irl_number as int] as u64)),
                        ..old(intc).regs()
                    })
                    &&& final(intc).levels() == old(intc).levels()
                    &&& final(intc).priorities() == old(intc).priorities()
                    &&& final(intc).positions() == old(intc).positions()
                    &&& *final(self) == *old(self)
                    &&& *final(fb) == *old(fb)
                },
                ScheduledEvent::HollyEvent { deadline, event_data } => {
                    &&& r == (EventAction::Holly {
                        target: (deadline - entry.start) as u64,
                        overrun: (now - deadline) as u64,
                        event: event_data,
                    })
                    &&& *final(intc) == *old(intc)
                    &&& *final(self) == match event_data {
                        HollyEventData::FrameReady(id) => LoopState { send_frame: true, saw_sr: true, dl_id: id, ..*old(self) },
                        HollyEventData::VBlank => LoopState { blit_frame: true, ..*old(self) },
                        _ => *old(self),
                    }
                    &&& event_data is VBlank ==> {
                        &&& final(fb).watch_start == old(fb).registers.base_address & VRAM_MASK
                        &&& final(fb).watch_end == final(fb).watch_start + fb_read_bytes(old(fb).registers)
                        &&& final(fb).watch_start1 == old(fb).registers.base_address2 & VRAM_MASK
                        &&& final(fb).watch_end1 == final(fb).watch_start1 + fb_read_bytes(old(fb).registers)
                        &&& !final(fb).dirty
                        &&& final(fb).registers == old(fb).registers
                        &&& final(fb).interlaced == old(fb).interlaced
                    }
                    &&& !(event_data is VBlank) ==> *final(fb) == *old(fb)
                },
            },
    {
        match entry.event {
            ScheduledEvent::SH4Event { event_data, .. } => {
                match event_data {
                    SH4EventData::RaiseIRL { irl_number } => {
                        intc.raise_irl(irl_number);
                    },
                }
                EventAction::Raised
            },
            ScheduledEvent::HollyEvent { deadline, event_data } => {
                match event_data {
                    HollyEventData::FrameReady(id) => {
                        self.send_frame = true;
                        self.saw_sr = true;
                        self.dl_id = id;
                    },
                    HollyEventData::VBlank => {
                        self.blit_frame = true;
                        fb.invalidate_watches();
                    },
                    _ => {},
                }
                let target = deadline - entry.start;
                let overrun = (now - entry.start) - target;
                EventAction::Holly { target, overrun, event: event_data }
            },
        }
    }

    /// What to do with the picture after a slice: blit the framebuffer when
    /// no rendered frame waits, the framebuffer changed, its read-out is on
    /// and a vertical blank came (clearing the dirty and blit flags); else
    /// render a waiting frame's display list (clearing its flags); else
    /// nothing.
    pub fn frame_action(&mut self, fb: &mut Framebuffer) -> (r: FrameAction)
        ensures
            if !old(self).send_frame && old(fb).dirty && old(fb).registers.read_ctrl.fb_enable && old(self).blit_frame {
                &&& r == FrameAction::Blit
                &&& *final(fb) == (Framebuffer { dirty: false, ..*old(fb) })
                &&& *final(self) == (LoopState { blit_frame: false, ..*old(self) })
            } else if old(self).send_frame {
                &&& r == (FrameAction::Render { display_list: old(self).dl_id })
                &&& *final(fb) == *old(fb)
                &&& *final(self) == (LoopState { send_frame: false, saw_sr: false, ..*old(self) })
            } else {
                &&& r == FrameAction::Nothing
                &&& *final(fb) == *old(fb)
                &&& *final(self) == *old(self)
            },
    {
        if !self.send_frame && fb.dirty && fb.registers.read_ctrl.fb_enable && self.blit_frame {
            fb.dirty = false;
            self.blit_frame = false;
            FrameAction::Blit
        } else if self.send_frame {
            self.send_frame = false;
            self.saw_sr = false;
            FrameAction::Render { display_list: self.dl_id }
        } else {
            FrameAction::Nothing
        }
    }
}

impl ButtonState {
    /// No button held.
    pub open spec fn new_spec() -> ButtonState {
        ButtonState { a: false, x: false, start: false, right: false, up: false, down: false }
    }
}

} // verus!
