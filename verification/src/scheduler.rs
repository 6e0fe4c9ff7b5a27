//! The event scheduler: events fire once the cycle counter reaches their
//! deadline, earliest deadline first.
use crate::hw::{holly::HollyEventData, sh4::SH4EventData};
use vstd::prelude::*;

verus! {

#[derive(Copy, Clone, Debug, PartialEq, Eq, Structural)]
#[allow(inconsistent_fields)]
pub enum ScheduledEvent {
    /// `deadline` is the cycle at which the event is consumed.
    HollyEvent { deadline: u64, event_data: HollyEventData },
    /// `deadline` is the cycle at which the event is consumed.
    SH4Event { deadline: u64, event_data: SH4EventData },
}

impl ScheduledEvent {
    pub open spec fn due(self) -> u64 {
        match self {
            ScheduledEvent::HollyEvent { deadline, .. } => deadline,
            ScheduledEvent::SH4Event { deadline, .. } => deadline,
        }
    }

    /// The same event with another deadline.
    pub open spec fn with_due(self, new_deadline: u64) -> ScheduledEvent {
        match self {
            ScheduledEvent::HollyEvent { event_data, .. } => ScheduledEvent::HollyEvent {
                deadline: new_deadline,
                event_data,
            },
            ScheduledEvent::SH4Event { event_data, .. } => ScheduledEvent::SH4Event {
                deadline: new_deadline,
                event_data,
            },
        }
    }

    pub fn deadline(&self) -> (r: u64)
        ensures
            r == self.due(),
    {
        match *self {
            ScheduledEvent::HollyEvent { deadline, .. } => deadline,
            ScheduledEvent::SH4Event { deadline, .. } => deadline,
        }
    }

    /// The event's payload in its debug form.
    pub fn data_str(&self) -> (r: String)
        ensures
            r@ == match *self {
                ScheduledEvent::HollyEvent { event_data, .. } => holly_debug_text(event_data),
                ScheduledEvent::SH4Event { event_data, .. } => sh4_debug_text(event_data),
            },
    {
        match *self {
            ScheduledEvent::HollyEvent { ref event_data, .. } => debug_text_holly(event_data),
            ScheduledEvent::SH4Event { ref event_data, .. } => debug_text_sh4(event_data),
        }
    }

    fn with_updated_deadline(&self, new_deadline: u64) -> (r: ScheduledEvent)
        ensures
            r == self.with_due(new_deadline),
    {
        match *self {
            ScheduledEvent::SH4Event { event_data, .. } => ScheduledEvent::SH4Event {
                deadline: new_deadline,
                event_data,
            },
            ScheduledEvent::HollyEvent { event_data, .. } => ScheduledEvent::HollyEvent {
                deadline: new_deadline,
                event_data,
            },
        }
    }
}

/// The text that the derived `Debug` form gives for a Holly event.
pub uninterp spec fn holly_debug_text(data: HollyEventData) -> Seq<char>;

/// The text that the derived `Debug` form gives for an SH-4 event.
pub uninterp spec fn sh4_debug_text(data: SH4EventData) -> Seq<char>;

/// Formats a Holly event with its derived `Debug` form (std's `format!`).
/// Claimed: the text depends on the event alone (`holly_debug_text`); its
/// exact form, which std does not fix, is left unsaid.
#[verifier::external_body]
fn debug_text_holly(data: &HollyEventData) -> (r: String)
    ensures
        r@ == holly_debug_text(*data),
{
    format!("{:?}", data)
}

/// Formats an SH-4 event with its derived `Debug` form (std's `format!`).
/// Claimed: the text depends on the event alone (`sh4_debug_text`); its
/// exact form, which std does not fix, is left unsaid.
#[verifier::external_body]
fn debug_text_sh4(data: &SH4EventData) -> (r: String)
    ensures
        r@ == sh4_debug_text(*data),
{
    format!("{:?}", data)
}

#[derive(Copy, Clone, Debug, PartialEq, Eq, Structural)]
pub struct SchedulerEntry {
    /// The cycle at which the event was scheduled.
    pub start: u64,
    pub event: ScheduledEvent,
}

/// Entries are ordered by deadline, earliest first.
pub open spec fn sorted_by_deadline(s: Seq<SchedulerEntry>) -> bool {
    forall|i: int, j: int| 0 <= i < j < s.len() ==> s[i].event.due() <= s[j].event.due()
}

/// No event is pending twice.
pub open spec fn no_duplicates(s: Seq<SchedulerEntry>) -> bool {
    forall|i: int, j: int| 0 <= i < j < s.len() ==> s[i].event != s[j].event
}

pub open spec fn pending_contains(s: Seq<SchedulerEntry>, e: ScheduledEvent) -> bool {
    exists|i: int| 0 <= i < s.len() && s[i].event == e
}

/// Where an entry with deadline `d` goes: after every entry due no later,
/// before every entry due later.
pub open spec fn is_insert_index(s: Seq<SchedulerEntry>, d: u64, k: int) -> bool {
    &&& 0 <= k <= s.len()
    &&& forall|i: int| 0 <= i < k ==> s[i].event.due() <= d
    &&& forall|i: int| k <= i < s.len() ==> s[i].event.due() > d
}

pub open spec fn insert_index(s: Seq<SchedulerEntry>, d: u64) -> int {
    choose|k: int| is_insert_index(s, d, k)
}

/// The pending events after scheduling `event` at cycle `now`: its deadline
/// becomes `now` plus its relative deadline; it joins the queue after every
/// entry due no later, unless the same event is already pending.
pub open spec fn schedule_result(s: Seq<SchedulerEntry>, now: u64, event: ScheduledEvent) -> Seq<
    SchedulerEntry,
> {
    let e = event.with_due((now + event.due()) as u64);
    if pending_contains(s, e) {
        s
    } else {
        s.insert(insert_index(s, e.due()), SchedulerEntry { start: now, event: e })
    }
}

pub struct Scheduler {
    events: Vec<SchedulerEntry>,
    timestamp: u64,
}

impl Scheduler {
    /// The pending entries, earliest deadline first.
    pub closed spec fn view(&self) -> Seq<SchedulerEntry> {
        self.events@
    }

    pub closed spec fn time(&self) -> u64 {
        self.timestamp
    }

    #[verifier::type_invariant]
    spec fn wf(&self) -> bool {
        sorted_by_deadline(self.events@) && no_duplicates(self.events@)
    }

    pub fn new() -> (r: Self)
        ensures
            r@ == Seq::<SchedulerEntry>::empty(),
            r.time() == 0,
    {
        Self { events: Vec::new(), timestamp: 0 }
    }

    /// The pending entries, earliest deadline first.
    pub fn events(&self) -> (r: &Vec<SchedulerEntry>)
        ensures
            r@ == self@,
            sorted_by_deadline(r@),
            no_duplicates(r@),
    {
        proof {
            use_type_invariant(self);
        }
        &self.events
    }

    pub fn now(&self) -> (r: u64)
        ensures
            r == self.time(),
    {
        self.timestamp
    }

    pub fn add_cycles(&mut self, cycles: u64)
        requires
            old(self).time() + cycles <= u64::MAX,
        ensures
            final(self).time() == old(self).time() + cycles,
            final(self)@ == old(self)@,
    {
        proof {
            use_type_invariant(&*self);
        }
        self.timestamp = self.timestamp + cycles;
    }

    /// Schedules `event`, whose deadline counts from now.
    pub fn schedule(&mut self, event: ScheduledEvent)
        requires
            old(self).time() + event.due() <= u64::MAX,
        ensures
            final(self)@ == schedule_result(old(self)@, old(self).time(), event),
            final(self).time() == old(self).time(),
            sorted_by_deadline(final(self)@),
            no_duplicates(final(self)@),
    {
        proof {
            use_type_invariant(&*self);
        }
        let new_deadline = self.timestamp + event.deadline();
        let new_event = event.with_updated_deadline(new_deadline);
        let n = self.events.len();
        let mut found = false;
        let mut i: usize = 0;
        while i < n
            invariant
                n == self.events@.len(),
                i <= n,
                found == exists|j: int| 0 <= j < i && self.events@[j].event == new_event,
            decreases n - i,
        {
            if self.events[i].event == new_event {
                found = true;
            }
            i = i + 1;
        }
        if found {
            return;
        }
        let entry = SchedulerEntry { start: self.timestamp, event: new_event };
        let mut k: usize = 0;
        while k < n && self.events[k].event.deadline() <= new_deadline
            invariant
                n == self.events@.len(),
                k <= n,
                forall|j: int| 0 <= j < k ==> self.events@[j].event.due() <= new_deadline,
            decreases n - k,
        {
            k = k + 1;
        }
        let ghost old_events = self.events@;
        proof {
            assert(is_insert_index(old_events, new_deadline, k as int));
            lemma_insert_index_unique(old_events, new_deadline, k as int);
        }
        let mut out: Vec<SchedulerEntry> = Vec::new();
        let mut j: usize = 0;
        while j < k
            invariant
                n == self.events@.len(),
                k <= n,
                j <= k,
                out@ == self.events@.subrange(0, j as int),
            decreases k - j,
        {
            out.push(self.events[j]);
            j = j + 1;
        }
        out.push(entry);
        while j < n
            invariant
                n == self.events@.len(),
                k <= j <= n,
                out@ == self.events@.subrange(0, k as int).push(entry) + self.events@.subrange(
                    k as int,
                    j as int,
                ),
            decreases n - j,
        {
            out.push(self.events[j]);
            proof {
                assert(self.events@.subrange(k as int, j + 1) == self.events@.subrange(
                    k as int,
                    j as int,
                ).push(self.events@[j as int]));
            }
            j = j + 1;
        }
        proof {
            assert(out@ =~= old_events.insert(k as int, entry));
            assert(!pending_contains(old_events, new_event));
            assert forall|a: int, b: int| 0 <= a < b < out@.len() implies out@[a].event.due()
                <= out@[b].event.due() by {
                if a < k && b > k {
                    assert(out@[b] == old_events[b - 1]);
                }
            }
            assert forall|a: int, b: int| 0 <= a < b < out@.len() implies out@[a].event
                != out@[b].event by {
                if a == k {
                    assert(out@[b] == old_events[b - 1]);
                } else if b == k {
                    assert(out@[a] == old_events[a]);
                } else if a < k && b > k {
                    assert(out@[a] == old_events[a]);
                    assert(out@[b] == old_events[b - 1]);
                } else if b < k {
                    assert(out@[a] == old_events[a]);
                    assert(out@[b] == old_events[b]);
                } else {
                    assert(out@[a] == old_events[a - 1]);
                    assert(out@[b] == old_events[b - 1]);
                }
            }
        }
        self.events = out;
    }

    /// Removes and returns the earliest entry if it is due.
    pub fn tick(&mut self) -> (r: Option<SchedulerEntry>)
        ensures
            final(self).time() == old(self).time(),
            old(self)@.len() > 0 && old(self)@[0].event.due() <= old(self).time() ==> r == Some(
                old(self)@[0],
            ) && final(self)@ == old(self)@.drop_first(),
            !(old(self)@.len() > 0 && old(self)@[0].event.due() <= old(self).time()) ==> r
                is None && final(self)@ == old(self)@,
            r matches Some(e) ==> forall|i: int|
                0 <= i < final(self)@.len() ==> e.event.due() <= #[trigger] final(self)@[i].event.due(),
            sorted_by_deadline(final(self)@),
            no_duplicates(final(self)@),
    {
        proof {
            use_type_invariant(&*self);
        }
        let n = self.events.len();
        if n > 0 && self.events[0].event.deadline() <= self.timestamp {
            let first = self.events[0];
            let mut out: Vec<SchedulerEntry> = Vec::new();
            let mut j: usize = 1;
            while j < n
                invariant
                    n == self.events@.len(),
                    1 <= j <= n,
                    out@ == self.events@.subrange(1, j as int),
                decreases n - j,
            {
                out.push(self.events[j]);
                j = j + 1;
            }
            proof {
                assert(out@ =~= self.events@.drop_first());
                assert forall|i: int| 0 <= i < out@.len() implies first.event.due()
                    <= #[trigger] out@[i].event.due() by {
                    assert(out@[i] == self.events@[i + 1]);
                }
            }
            self.events = out;
            Some(first)
        } else {
            None
        }
    }
}

proof fn lemma_insert_index_unique(s: Seq<SchedulerEntry>, d: u64, k: int)
    requires
        is_insert_index(s, d, k),
    ensures
        insert_index(s, d) == k,
{
    let c = insert_index(s, d);
    assert(is_insert_index(s, d, c));
    if c < k {
        assert(s[c].event.due() > d);
    } else if c > k {
        assert(s[k].event.due() > d);
    }
}

/// Every deadline has its place in a queue ordered by deadline.
pub proof fn lemma_insert_index_exists(s: Seq<SchedulerEntry>, d: u64)
    requires
        sorted_by_deadline(s),
    ensures
        is_insert_index(s, d, insert_index(s, d)),
    decreases s.len(),
{
    if s.len() == 0 {
        assert(is_insert_index(s, d, 0));
    } else {
        let t = s.drop_last();
        assert(sorted_by_deadline(t));
        lemma_insert_index_exists(t, d);
        let k = insert_index(t, d);
        if s.last().event.due() <= d {
            assert(is_insert_index(s, d, s.len() as int));
        } else {
            assert(is_insert_index(t, d, k));
            assert forall|i: int| 0 <= i < k implies s[i].event.due() <= d by {
                assert(s[i] == t[i]);
            }
            assert forall|i: int| k <= i < s.len() implies s[i].event.due() > d by {
                if i < t.len() {
                    assert(s[i] == t[i]);
                }
            }
            assert(is_insert_index(s, d, k));
        }
    }
}

/// Scheduling makes the event pending, due at the current cycle plus its
/// deadline.
pub proof fn law_scheduled_is_pending(s: Seq<SchedulerEntry>, now: u64, event: ScheduledEvent)
    requires
        sorted_by_deadline(s),
        now + event.due() <= u64::MAX,
    ensures
        pending_contains(schedule_result(s, now, event), event.with_due((now + event.due()) as u64)),
{
    let e = event.with_due((now + event.due()) as u64);
    if !pending_contains(s, e) {
        lemma_insert_index_exists(s, e.due());
        let k = insert_index(s, e.due());
        assert(schedule_result(s, now, event)[k].event == e);
    }
}

/// Scheduling the same event twice at the same cycle is scheduling it once.
pub proof fn law_schedule_idempotent(s: Seq<SchedulerEntry>, now: u64, event: ScheduledEvent)
    requires
        sorted_by_deadline(s),
        now + event.due() <= u64::MAX,
    ensures
        schedule_result(schedule_result(s, now, event), now, event) == schedule_result(s, now, event),
{
    law_scheduled_is_pending(s, now, event);
}

} // verus!
