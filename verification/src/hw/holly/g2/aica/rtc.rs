//! The AICA real-time clock: seconds since the Dreamcast epoch
//! (1950-01-01), counted on by one every second of emulated time.
use crate::hw::holly::HollyEventData;
use crate::scheduler::{schedule_result, ScheduledEvent, Scheduler};
use vstd::prelude::*;

verus! {

/// The clock's registers (none are modelled).
pub struct RtcRegisters {}

/// The real-time clock.
#[derive(PartialEq, Eq, Structural)]
pub struct Rtc {
    pub timestamp: u32,
}

/// Seconds from the Dreamcast epoch to the Unix epoch: twenty years of 365
/// days and five leap days.
pub const DREAMCAST_EPOCH_OFFSET: u64 = 20 * 365 * 24 * 60 * 60 + 5 * 24 * 60 * 60;

/// SH-4 cycles in one second.
pub const CYCLES_PER_SECOND: u64 = 200 * 1000 * 1000;

/// The clock value for a time given in seconds since the Unix epoch: the
/// seconds since the Dreamcast epoch, kept to 32 bits.
pub open spec fn dreamcast_seconds(unix_seconds: u64) -> u32 {
    ((unix_seconds as int + DREAMCAST_EPOCH_OFFSET) % 0x1_0000_0000) as u32
}

/// The event that ticks the clock one second from now.
pub open spec fn rtc_event() -> ScheduledEvent {
    ScheduledEvent::HollyEvent { deadline: CYCLES_PER_SECOND, event_data: HollyEventData::Rtc }
}

impl Rtc {
    /// A clock set to `unix_seconds` (seconds since 1970).
    pub fn new(unix_seconds: u64) -> (r: Self)
        ensures
            r.timestamp == dreamcast_seconds(unix_seconds),
    {
        Self { timestamp: Self::get_rtc_now(unix_seconds) }
    }

    fn get_rtc_now(unix_seconds: u64) -> (r: u32)
        ensures
            r == dreamcast_seconds(unix_seconds),
    {
        let secs = (unix_seconds as u128) + (DREAMCAST_EPOCH_OFFSET as u128);
        (secs % 0x1_0000_0000) as u32
    }

    /// Schedules the first tick, one second from now.
    pub fn init(&mut self, scheduler: &mut Scheduler)
        requires
            old(scheduler).time() + CYCLES_PER_SECOND <= u64::MAX,
        ensures
            *final(self) == *old(self),
            final(scheduler)@ == schedule_result(old(scheduler)@, old(scheduler).time(), rtc_event()),
            final(scheduler).time() == old(scheduler).time(),
    {
        scheduler.schedule(ScheduledEvent::HollyEvent {
            deadline: 200 * 1000 * 1000,
            event_data: HollyEventData::Rtc,
        });
    }

    /// A tick: one more second, and the next tick a second from now.
    pub fn on_scheduled_event(&mut self, scheduler: &mut Scheduler)
        requires
            old(scheduler).time() + CYCLES_PER_SECOND <= u64::MAX,
        ensures
            final(self).timestamp == old(self).timestamp.wrapping_add(1),
            final(scheduler)@ == schedule_result(old(scheduler)@, old(scheduler).time(), rtc_event()),
            final(scheduler).time() == old(scheduler).time(),
    {
        self.timestamp = self.timestamp.wrapping_add(1);
        scheduler.schedule(ScheduledEvent::HollyEvent {
            deadline: 200 * 1000 * 1000,
            event_data: HollyEventData::Rtc,
        });
    }
}

} // verus!
