use vstd::prelude::*;
use crate::event::Event;

verus! {

/// How many events the monitoring log keeps.
pub const MONITOR_CAPACITY: usize = 40;

/// The last `MONITOR_CAPACITY` elements of `s`, in order (all of `s` when it is shorter).
pub open spec fn most_recent(s: Seq<Event>) -> Seq<Event> {
    if s.len() > MONITOR_CAPACITY {
        s.subrange(s.len() - MONITOR_CAPACITY, s.len() as int)
    } else {
        s
    }
}

/// The contents of a log that started as `start` after `events` were pushed, in order.
pub open spec fn log_after(start: Seq<Event>, events: Seq<Event>) -> Seq<Event>
    decreases events.len(),
{
    if events.len() == 0 {
        start
    } else {
        most_recent(log_after(start, events.drop_last()).push(events.last()))
    }
}

/// A bounded log of recent events, oldest first, for outside inspection.
pub struct MonitoringLog {
    entries: std::collections::VecDeque<Event>,
}

impl View for MonitoringLog {
    type V = Seq<Event>;

    closed spec fn view(&self) -> Seq<Event> {
        self.entries@
    }
}

impl MonitoringLog {
    /// An empty log.
    pub fn new() -> (r: MonitoringLog)
        ensures
            r@ == Seq::<Event>::empty(),
    {
        MonitoringLog { entries: std::collections::VecDeque::new() }
    }

    /// Appends an event, dropping the oldest ones beyond the capacity.
    pub fn push(&mut self, event: Event)
        ensures
            final(self)@ == most_recent(old(self)@.push(event)),
    {
        let ghost all = self@.push(event);
        self.entries.push_back(event);
        while self.entries.len() > MONITOR_CAPACITY
            invariant
                all.len() >= self.entries@.len(),
                self.entries@ == all.subrange(all.len() - self.entries@.len(), all.len() as int),
                self.entries@.len() >= MONITOR_CAPACITY || self.entries@ == all,
            decreases self.entries@.len(),
        {
            self.entries.pop_front();
        }
        proof {
            if all.len() <= MONITOR_CAPACITY {
                assert(self.entries@ =~= all);
            }
        }
    }

    /// The number of events held.
    pub fn len(&self) -> (r: usize)
        ensures
            r == self@.len(),
    {
        self.entries.len()
    }

    /// The `i`-th event held, oldest first.
    pub fn get(&self, i: usize) -> (r: &Event)
        requires
            i < self@.len(),
        ensures
            *r == self@[i as int],
    {
        &self.entries[i]
    }
}

proof fn lemma_most_recent_of_recent(s: Seq<Event>, e: Event)
    ensures
        most_recent(most_recent(s).push(e)) == most_recent(s.push(e)),
{
    assert(most_recent(most_recent(s).push(e)) =~= most_recent(s.push(e)));
}

/// However many events arrive, an initially empty log holds at most `MONITOR_CAPACITY` of
/// them, and exactly the most recent ones in order of arrival.
pub proof fn lemma_log_holds_most_recent(events: Seq<Event>)
    ensures
        log_after(Seq::empty(), events) == most_recent(events),
        log_after(Seq::empty(), events).len() <= MONITOR_CAPACITY,
    decreases events.len(),
{
    if events.len() > 0 {
        let prev = events.drop_last();
        lemma_log_holds_most_recent(prev);
        lemma_most_recent_of_recent(prev, events.last());
        assert(prev.push(events.last()) =~= events);
    }
}

/// Over any run of steps that each append one event the way `MonitoringLog::push` does
/// (as each `JS::send_event` does with the event it normalises), a log that started empty
/// ends holding at most `MONITOR_CAPACITY` events: exactly the most recent ones, in order of
/// arrival.
pub proof fn lemma_run_holds_most_recent(logs: Seq<Seq<Event>>, events: Seq<Event>)
    requires
        logs.len() == events.len() + 1,
        logs[0] == Seq::<Event>::empty(),
        forall|i: int|
            0 <= i < events.len() ==> #[trigger] logs[i + 1] == most_recent(logs[i].push(events[i])),
    ensures
        logs.last() == most_recent(events),
        logs.last().len() <= MONITOR_CAPACITY,
    decreases events.len(),
{
    if events.len() == 0 {
        assert(most_recent(events) =~= Seq::<Event>::empty());
    } else {
        let n = events.len() - 1;
        let prev_logs = logs.subrange(0, n + 1);
        let prev_events = events.subrange(0, n);
        assert forall|i: int| 0 <= i < prev_events.len() implies #[trigger] prev_logs[i + 1]
            == most_recent(prev_logs[i].push(prev_events[i])) by {
            assert(logs[i + 1] == most_recent(logs[i].push(events[i])));
        }
        lemma_run_holds_most_recent(prev_logs, prev_events);
        assert(logs[n + 1] == most_recent(logs[n].push(events[n])));
        lemma_most_recent_of_recent(prev_events, events[n]);
        assert(prev_events.push(events[n]) =~= events);
        lemma_log_holds_most_recent(events);
    }
}

} // verus!
