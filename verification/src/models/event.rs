//! The event table: one row per accepted webhook delivery, append-only.
//! A row is inserted only after the delivery's signature has verified.

use vstd::prelude::*;

verus! {

/// Which provider sent a delivery.
#[derive(PartialEq, Eq, Structural, Clone, Copy, Debug)]
pub enum Provider {
    GitHub,
    Travis,
    AppVeyor,
}

/// The mathematical value of one event row. The processing state is numeric
/// and starts at zero ("unprocessed").
#[verifier::ext_equal]
pub ghost struct EventView {
    pub id: int,
    pub provider_id: Provider,
    pub provider_event_id: Seq<char>,
    pub provider_event: Seq<char>,
    pub event: Seq<char>,
    pub state: int,
}

/// One accepted delivery: the provider, its own delivery id and event type
/// (either may be empty for providers that send none), and the raw payload.
pub struct Event {
    pub id: i32,
    pub provider_id: Provider,
    pub provider_event_id: String,
    pub provider_event: String,
    pub event: String,
    pub state: i32,
}

impl View for Event {
    type V = EventView;

    open spec fn view(&self) -> EventView {
        EventView {
            id: self.id as int,
            provider_id: self.provider_id,
            provider_event_id: self.provider_event_id@,
            provider_event: self.provider_event@,
            event: self.event@,
            state: self.state as int,
        }
    }
}

impl Clone for Event {
    fn clone(&self) -> (r: Self)
        ensures
            r@ == self@,
    {
        let r = Event {
            id: self.id,
            provider_id: self.provider_id,
            provider_event_id: self.provider_event_id.clone(),
            provider_event: self.provider_event.clone(),
            event: self.event.clone(),
            state: self.state,
        };
        proof {
            assert(r@ =~= self@);
        }
        r
    }
}

/// The table invariant: ids are the row positions.
pub open spec fn log_wf(s: Seq<EventView>) -> bool {
    forall|i: int| 0 <= i < s.len() ==> (#[trigger] s[i]).id == i + 1
}

/// The event table. Rows are only ever appended: no method mutates or
/// removes an existing row.
pub struct EventLog {
    events: Vec<Event>,
}

impl View for EventLog {
    type V = Seq<EventView>;

    closed spec fn view(&self) -> Seq<EventView> {
        Seq::new(self.events@.len(), |i: int| self.events@[i]@)
    }
}

impl EventLog {
    /// The table invariant; established by `new` and kept by `insert`.
    pub open spec fn wf(&self) -> bool {
        log_wf(self@)
    }

    /// An empty table.
    pub fn new() -> (r: EventLog)
        ensures
            r@ =~= Seq::<EventView>::empty(),
            r.wf(),
    {
        EventLog { events: Vec::new() }
    }

    /// How many deliveries have been recorded.
    pub fn len(&self) -> (r: usize)
        ensures
            r == self@.len(),
    {
        self.events.len()
    }

    /// The row an insert appends.
    pub open spec fn inserted_row(
        s: Seq<EventView>,
        provider: Provider,
        provider_event_id: Seq<char>,
        provider_event: Seq<char>,
        event: Seq<char>,
    ) -> EventView {
        EventView {
            id: s.len() as int + 1,
            provider_id: provider,
            provider_event_id: provider_event_id,
            provider_event: provider_event,
            event: event,
            state: 0,
        }
    }

    /// Record an accepted delivery. Append-only: the new table is the old
    /// one with exactly one row added at the end.
    pub fn insert(
        &mut self,
        provider: Provider,
        provider_event_id: &str,
        provider_event: &str,
        event: &str,
    ) -> (r: Event)
        requires
            old(self).wf(),
            old(self)@.len() < i32::MAX,
        ensures
            final(self).wf(),
            final(self)@ =~= old(self)@.push(
                Self::inserted_row(
                    old(self)@,
                    provider,
                    provider_event_id@,
                    provider_event@,
                    event@,
                ),
            ),
            r@ == Self::inserted_row(
                old(self)@,
                provider,
                provider_event_id@,
                provider_event@,
                event@,
            ),
    {
        let id: i32 = (self.events.len() as i32) + 1;
        let e = Event {
            id: id,
            provider_id: provider,
            provider_event_id: String::from_str(provider_event_id),
            provider_event: String::from_str(provider_event),
            event: String::from_str(event),
            state: 0,
        };
        let row = e.clone();
        self.events.push(e);
        proof {
            assert(self@ =~= old(self)@.push(row@));
        }
        row
    }

    /// Every row, in insertion order.
    pub fn all(&self) -> (r: Vec<Event>)
        ensures
            r@.len() == self@.len(),
            forall|i: int| 0 <= i < r@.len() ==> (#[trigger] r@[i])@ == self@[i],
    {
        let mut out: Vec<Event> = Vec::new();
        let mut i: usize = 0;
        while i < self.events.len()
            invariant
                i <= self@.len(),
                out@.len() == i,
                forall|j: int| 0 <= j < i ==> (#[trigger] out@[j])@ == self@[j],
            decreases self@.len() - i,
        {
            out.push(self.events[i].clone());
            i = i + 1;
        }
        out
    }
}

} // verus!
