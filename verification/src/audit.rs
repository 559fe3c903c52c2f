//! A bounded in-memory audit trail of mediated operations: one structured
//! event per host call, oldest evicted on overflow.

use vstd::prelude::*;

verus! {

/// One audited host call.
pub struct AuditEvent {
    pub plugin_id: String,
    pub operation: String,
    pub resource: String,
    pub timestamp_ms: u64,
    pub success: bool,
    pub error: Option<String>,
}

/// Whether two events carry the same content.
pub open spec fn event_eq(a: &AuditEvent, b: &AuditEvent) -> bool {
    &&& a.plugin_id@ == b.plugin_id@
    &&& a.operation@ == b.operation@
    &&& a.resource@ == b.resource@
    &&& a.timestamp_ms == b.timestamp_ms
    &&& a.success == b.success
    &&& (match (a.error, b.error) {
        (Option::Some(x), Option::Some(y)) => x@ == y@,
        (Option::None, Option::None) => true,
        _ => false,
    })
}

/// A content-equal copy of an event.
pub fn clone_event(e: &AuditEvent) -> (r: AuditEvent)
    ensures
        event_eq(&r, e),
{
    AuditEvent {
        plugin_id: e.plugin_id.clone(),
        operation: e.operation.clone(),
        resource: e.resource.clone(),
        timestamp_ms: e.timestamp_ms,
        success: e.success,
        error: match &e.error {
            Option::Some(s) => Option::Some(s.clone()),
            Option::None => Option::None,
        },
    }
}

/// The events of one plugin, in order.
pub open spec fn events_of(s: Seq<AuditEvent>, id: Seq<char>) -> Seq<AuditEvent> {
    s.filter(|e: AuditEvent| e.plugin_id@ == id)
}

/// The bounded audit trail.
pub struct AuditLogger {
    events: Vec<AuditEvent>,
    max_events: usize,
}

impl AuditLogger {
    /// The retained events, oldest first.
    pub closed spec fn log_view(&self) -> Seq<AuditEvent> {
        self.events@
    }

    /// The retention bound.
    pub closed spec fn bound(&self) -> usize {
        self.max_events
    }

    /// An empty trail retaining at most `max_events` events.
    pub fn new(max_events: usize) -> (r: AuditLogger)
        ensures
            r.log_view() == Seq::<AuditEvent>::empty(),
            r.bound() == max_events,
    {
        AuditLogger { events: Vec::new(), max_events }
    }

    /// Appends an event; at the bound, the oldest event leaves first.
    pub fn log(&mut self, event: AuditEvent)
        ensures
            final(self).bound() == old(self).bound(),
            final(self).log_view() == (if old(self).log_view().len() >= old(self).bound()
                && old(self).log_view().len() > 0 {
                old(self).log_view().skip(1).push(event)
            } else {
                old(self).log_view().push(event)
            }),
    {
        if self.events.len() >= self.max_events && self.events.len() > 0 {
            self.events.remove(0);
            self.events.push(event);
            assert(self.events@ =~= old(self).log_view().skip(1).push(event));
        } else {
            self.events.push(event);
        }
    }

    /// Content-equal copies of all retained events, oldest first.
    pub fn get_events(&self) -> (r: Vec<AuditEvent>)
        ensures
            r@.len() == self.log_view().len(),
            forall|i: int|
                0 <= i < r@.len() ==> event_eq(&r@[i], &self.log_view()[i]),
    {
        let n = self.events.len();
        let mut r: Vec<AuditEvent> = Vec::new();
        let mut i: usize = 0;
        while i < n
            invariant
                i <= n,
                n == self.events@.len(),
                r@.len() == i,
                forall|j: int| 0 <= j < i ==> event_eq(&r@[j], &self.events@[j]),
            decreases n - i,
        {
            r.push(clone_event(&self.events[i]));
            i += 1;
        }
        r
    }

    /// Content-equal copies of one plugin's events, oldest first.
    pub fn get_events_for_plugin(&self, plugin_id: &str) -> (r: Vec<AuditEvent>)
        ensures
            r@.len() == events_of(self.log_view(), plugin_id@).len(),
            forall|i: int|
                0 <= i < r@.len() ==> event_eq(
                    &r@[i],
                    &events_of(self.log_view(), plugin_id@)[i],
                ),
    {
        let n = self.events.len();
        let mut r: Vec<AuditEvent> = Vec::new();
        proof {
            assert(self.events@.take(0) =~= Seq::<AuditEvent>::empty());
            assert(events_of(self.events@.take(0), plugin_id@) =~= Seq::<
                AuditEvent,
            >::empty()) by {
                reveal_with_fuel(Seq::filter, 2);
            }
        }
        let mut i: usize = 0;
        while i < n
            invariant
                i <= n,
                n == self.events@.len(),
                r@.len() == events_of(self.events@.take(i as int), plugin_id@).len(),
                forall|j: int|
                    0 <= j < r@.len() ==> event_eq(
                        &r@[j],
                        &events_of(self.events@.take(i as int), plugin_id@)[j],
                    ),
            decreases n - i,
        {
            proof {
                assert(self.events@.take(i + 1).drop_last() =~= self.events@.take(i as int));
                assert(self.events@.take(i + 1).last() == self.events@[i as int]);
                reveal_with_fuel(Seq::filter, 2);
            }
            let e = &self.events[i];
            if crate::text::str_eq(e.plugin_id.as_str(), plugin_id) {
                r.push(clone_event(e));
            }
            i += 1;
        }
        proof {
            assert(self.events@.take(n as int) =~= self.events@);
        }
        r
    }

    /// Empties the trail.
    pub fn clear(&mut self)
        ensures
            final(self).log_view() == Seq::<AuditEvent>::empty(),
            final(self).bound() == old(self).bound(),
    {
        self.events.clear();
    }
}

} // verus!
