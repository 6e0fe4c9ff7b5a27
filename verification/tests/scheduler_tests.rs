use emerald_core::hw::holly::HollyEventData;
use emerald_core::scheduler::{ScheduledEvent, Scheduler};

#[test]
fn schedule_orders_by_deadline() {
    let mut s = Scheduler::new();
    s.schedule(ScheduledEvent::HollyEvent { deadline: 50, event_data: HollyEventData::VBlank });
    s.schedule(ScheduledEvent::HollyEvent { deadline: 10, event_data: HollyEventData::Rtc });
    let evs = s.events();
    assert_eq!(evs.len(), 2);
    assert_eq!(evs[0].event.deadline(), 10);
    assert_eq!(evs[1].event.deadline(), 50);
}

#[test]
fn data_str_shows_the_payload() {
    let e = ScheduledEvent::HollyEvent { deadline: 3, event_data: HollyEventData::FrameReady(7) };
    let t = e.data_str();
    assert!(t.contains("FrameReady"));
    assert!(t.contains('7'));
    let same = ScheduledEvent::HollyEvent { deadline: 9, event_data: HollyEventData::FrameReady(7) };
    assert_eq!(same.data_str(), t);
}
