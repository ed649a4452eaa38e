//! Counting how often things happen and how long they take.
//!
//! Times are nanoseconds of a clock of the caller's choice.  The sums
//! saturate instead of wrapping.

use vstd::hash_map::StringHashMap;
use vstd::prelude::*;

verus! {

/// What is known of one event since the last report.
#[derive(Clone, Copy, Debug, PartialEq, Eq, Structural)]
pub struct Stat {
    /// When the event was recorded last.
    pub last: Option<u64>,
    /// Sum of the times between one recording and the next.
    pub interval_sum: u64,
    /// Number of such times.
    pub interval_deltas: u64,
    /// Sum of the durations that were recorded.
    pub duration_sum: u64,
    /// Number of such durations.
    pub duration_count: u64,
    /// How often the event was recorded at all.
    pub triggers: u64,
}

impl Stat {
    /// Nothing is known.
    pub open spec fn zero() -> Stat {
        Stat {
            last: None,
            interval_sum: 0,
            interval_deltas: 0,
            duration_sum: 0,
            duration_count: 0,
            triggers: 0,
        }
    }

    /// The stat after the event happened at `now`.
    pub open spec fn recorded(self, now: u64) -> Stat {
        Stat {
            triggers: self.triggers.saturating_add(1),
            interval_sum: match self.last {
                Some(last) => self.interval_sum.saturating_add(now.saturating_sub(last)),
                None => self.interval_sum,
            },
            interval_deltas: match self.last {
                Some(_) => self.interval_deltas.saturating_add(1),
                None => self.interval_deltas,
            },
            last: Some(now),
            ..self
        }
    }

    /// The stat after the event took `duration`.
    pub open spec fn timed(self, duration: u64) -> Stat {
        Stat {
            triggers: self.triggers.saturating_add(1),
            duration_sum: self.duration_sum.saturating_add(duration),
            duration_count: self.duration_count.saturating_add(1),
            ..self
        }
    }

    /// The stat after a report: the counts start over, the time of the
    /// last recording stays.
    pub open spec fn reported(self) -> Stat {
        Stat { last: self.last, ..Stat::zero() }
    }
}

/// One line of a report.
#[derive(Clone, Debug, PartialEq, Eq)]
pub struct Report {
    pub event: String,
    /// What was counted since the report before.
    pub stat: Stat,
    /// The time since the report before.
    pub elapsed: u64,
}

/// The time between two reports.
pub const REPORT_INTERVAL: u64 = 1_000_000_000;

/// The counts of all events.
pub struct Profiler {
    stats: StringHashMap<Stat>,
    /// The events in the order in which they were recorded first.
    events: Vec<String>,
    last_report: u64,
}

/// A span of time that is being measured.
#[derive(Debug, Clone, PartialEq, Eq)]
pub struct SpanGuard {
    pub event: String,
    pub start: u64,
}

/// Whether an event was recorded since the last report.
pub open spec fn counted(stats: Map<Seq<char>, Stat>) -> spec_fn(Seq<char>) -> bool {
    |event: Seq<char>| stats.contains_key(event) && stats[event].triggers > 0
}

/// The counts after a report: those of the events that were recorded start
/// over.
pub open spec fn started_over(stats: Map<Seq<char>, Stat>) -> Map<Seq<char>, Stat> {
    Map::new(
        |event: Seq<char>| stats.contains_key(event),
        |event: Seq<char>|
            if stats[event].triggers > 0 {
                stats[event].reported()
            } else {
                stats[event]
            },
    )
}

impl Profiler {
    /// The counts by event.
    pub closed spec fn stats(&self) -> Map<Seq<char>, Stat> {
        self.stats@
    }

    /// The events in the order in which they were recorded first.
    pub closed spec fn events(&self) -> Seq<Seq<char>> {
        Seq::new(self.events@.len(), |i: int| self.events@[i]@)
    }

    /// When the last report was made.
    pub closed spec fn last_report(&self) -> u64 {
        self.last_report
    }

    /// Every event that has a count stands once in the order of the events,
    /// and no other does.
    pub open spec fn well_formed(&self) -> bool {
        &&& self.events().no_duplicates()
        &&& forall|event: Seq<char>|
            #![trigger self.events().contains(event)]
            self.stats().contains_key(event) <==> self.events().contains(event)
    }

    /// The count of an event; nothing where the event was never recorded.
    pub open spec fn stat_of(&self, event: Seq<char>) -> Stat {
        if self.stats().contains_key(event) {
            self.stats()[event]
        } else {
            Stat::zero()
        }
    }

    /// The order of the events after `event` was recorded.
    pub open spec fn events_with(&self, event: Seq<char>) -> Seq<Seq<char>> {
        if self.stats().contains_key(event) {
            self.events()
        } else {
            self.events().push(event)
        }
    }

    /// A profiler that has counted nothing, made at `now`.
    pub fn new(now: u64) -> (r: Profiler)
        ensures
            r.stats() == Map::<Seq<char>, Stat>::empty(),
            r.events() == Seq::<Seq<char>>::empty(),
            r.last_report() == now,
            r.well_formed(),
    {
        let r = Profiler { stats: StringHashMap::new(), events: Vec::new(), last_report: now };
        proof {
            assert(r.events() =~= Seq::<Seq<char>>::empty());
        }
        r
    }

    /// The count of an event.
    pub fn stat(&self, event: &str) -> (r: Stat)
        ensures
            r == self.stat_of(event@),
    {
        match self.stats.get(event) {
            Some(s) => *s,
            None => Stat {
                last: None,
                interval_sum: 0,
                interval_deltas: 0,
                duration_sum: 0,
                duration_count: 0,
                triggers: 0,
            },
        }
    }

    /// Writes the count of an event.
    fn store(&mut self, event: &str, stat: Stat)
        ensures
            final(self).stats() == old(self).stats().insert(event@, stat),
            final(self).events() == old(self).events_with(event@),
            final(self).last_report() == old(self).last_report(),
            old(self).well_formed() ==> final(self).well_formed(),
    {
        if !self.stats.contains_key(event) {
            self.events.push(event.to_owned());
            proof {
                assert(self.events() =~= old(self).events().push(event@));
            }
        } else {
            proof {
                assert(self.events() =~= old(self).events());
            }
        }
        self.stats.insert(event.to_owned(), stat);
        proof {
            assert(self.events() =~= old(self).events_with(event@));
            if old(self).well_formed() {
                assert forall|k: Seq<char>| #![trigger self.events().contains(k)]
                    self.stats().contains_key(k) <==> self.events().contains(k) by {
                    crate::seqs::lemma_push_member(old(self).events(), event@, k);
                    assert(old(self).stats().contains_key(k) <==> old(self).events().contains(k));
                }
                if !old(self).stats().contains_key(event@) {
                    assert(!old(self).events().contains(event@));
                    assert forall|i: int, j: int|
                        0 <= i < self.events().len() && 0 <= j < self.events().len() && i
                            != j implies self.events()[i] != self.events()[j] by {
                        if i < old(self).events().len() {
                            assert(old(self).events().contains(old(self).events()[i]));
                        }
                        if j < old(self).events().len() {
                            assert(old(self).events().contains(old(self).events()[j]));
                        }
                    }
                }
            }
        }
    }
}

/// Records that an event happened at `now`.
pub fn record(profiler: &mut Profiler, event: &str, now: u64)
    ensures
        final(profiler).stats() == old(profiler).stats().insert(
            event@,
            old(profiler).stat_of(event@).recorded(now),
        ),
        final(profiler).events() == old(profiler).events_with(event@),
        final(profiler).last_report() == old(profiler).last_report(),
        old(profiler).well_formed() ==> final(profiler).well_formed(),
{
    let before = profiler.stat(event);
    let mut entry = before;
    entry.triggers = entry.triggers.saturating_add(1);
    match entry.last {
        Some(last) => {
            entry.interval_sum = entry.interval_sum.saturating_add(now.saturating_sub(last));
            entry.interval_deltas = entry.interval_deltas.saturating_add(1);
        },
        None => {},
    }
    entry.last = Some(now);
    profiler.store(event, entry);
}

/// Records that an event took `duration`.
pub fn record_duration(profiler: &mut Profiler, event: &str, duration: u64)
    ensures
        final(profiler).stats() == old(profiler).stats().insert(
            event@,
            old(profiler).stat_of(event@).timed(duration),
        ),
        final(profiler).events() == old(profiler).events_with(event@),
        final(profiler).last_report() == old(profiler).last_report(),
        old(profiler).well_formed() ==> final(profiler).well_formed(),
{
    let before = profiler.stat(event);
    let mut entry = before;
    entry.triggers = entry.triggers.saturating_add(1);
    entry.duration_sum = entry.duration_sum.saturating_add(duration);
    entry.duration_count = entry.duration_count.saturating_add(1);
    profiler.store(event, entry);
}

/// Starts to measure a span of time at `now`.
pub fn span(event: &str, now: u64) -> (r: SpanGuard)
    ensures
        r.event@ == event@,
        r.start == now,
{
    SpanGuard { event: event.to_owned(), start: now }
}

impl SpanGuard {
    /// Ends the span at `now` and records how long it took.
    pub fn finish(self, profiler: &mut Profiler, now: u64)
        ensures
            final(profiler).stats() == old(profiler).stats().insert(
                self.event@,
                old(profiler).stat_of(self.event@).timed(now.saturating_sub(self.start)),
            ),
            final(profiler).events() == old(profiler).events_with(self.event@),
            final(profiler).last_report() == old(profiler).last_report(),
            old(profiler).well_formed() ==> final(profiler).well_formed(),
    {
        record_duration(profiler, self.event.as_str(), now.saturating_sub(self.start));
    }
}

/// Makes a report where the last one is a second old or older: a line for
/// each event that was recorded since, in the order in which the events
/// were recorded first; the counts of these events start over.  Nothing,
/// and nothing changes, where the last report is younger.
pub fn report_if_due(profiler: &mut Profiler, now: u64) -> (r: Option<Vec<Report>>)
    requires
        old(profiler).well_formed(),
    ensures
        final(profiler).well_formed(),
        final(profiler).events() == old(profiler).events(),
        r is Some <==> now.saturating_sub(old(profiler).last_report()) >= REPORT_INTERVAL,
        r is None ==> final(profiler).stats() == old(profiler).stats() && final(profiler).last_report() == old(profiler).last_report(),
        r matches Some(lines) ==> {
            let due = old(profiler).events().filter(counted(old(profiler).stats()));
            &&& final(profiler).last_report() == now
            &&& final(profiler).stats() == started_over(old(profiler).stats())
            &&& lines@.len() == due.len()
            &&& forall|i: int|
                0 <= i < lines@.len() ==> (#[trigger] lines@[i]).event@ == due[i] && lines@[i].stat
                    == old(profiler).stats()[due[i]] && lines@[i].elapsed == now.saturating_sub(
                    old(profiler).last_report(),
                )
        },
{
    let elapsed = now.saturating_sub(profiler.last_report);
    if elapsed < REPORT_INTERVAL {
        return None;
    }
    let mut lines: Vec<Report> = Vec::new();
    let mut i: usize = 0;
    let ghost before = profiler.stats@;
    let ghost events = profiler.events();
    let ghost keep = counted(before);
    proof {
        crate::seqs::lemma_filter_ends(events, keep);
    }
    while i < profiler.events.len()
        invariant
            i <= profiler.events.len(),
            profiler.last_report == old(profiler).last_report,
            before == old(profiler).stats(),
            events == old(profiler).events(),
            profiler.events() == events,
            events.len() == profiler.events.len(),
            events.no_duplicates(),
            keep == counted(before),
            elapsed == now.saturating_sub(old(profiler).last_report()),
            forall|k: Seq<char>|
                #![trigger events.contains(k)]
                before.contains_key(k) <==> events.contains(k),
            forall|k: Seq<char>|
                #![trigger profiler.stats@.contains_key(k)]
                profiler.stats@.contains_key(k) <==> before.contains_key(k),
            forall|j: int|
                0 <= j < i ==> profiler.stats@[#[trigger] events[j]] == started_over(
                    before,
                )[events[j]],
            forall|j: int| i <= j < events.len() ==> profiler.stats@[#[trigger] events[j]] == before[events[j]],
            lines@.len() == events.take(i as int).filter(keep).len(),
            forall|j: int|
                0 <= j < lines@.len() ==> (#[trigger] lines@[j]).event@ == events.take(
                    i as int,
                ).filter(keep)[j] && lines@[j].stat == before[lines@[j].event@] && lines@[j].elapsed
                    == elapsed,
        decreases profiler.events.len() - i,
    {
        let event = profiler.events[i].clone();
        let stat = profiler.stat(event.as_str());
        proof {
            assert(event@ == events[i as int]);
            assert(events.contains(event@));
            assert(stat == before[event@]);
            crate::seqs::lemma_filter_next(events, keep, i as int);
        }
        if stat.triggers > 0 {
            let cleared = Stat {
                last: stat.last,
                interval_sum: 0,
                interval_deltas: 0,
                duration_sum: 0,
                duration_count: 0,
                triggers: 0,
            };
            profiler.stats.insert(event.clone(), cleared);
            lines.push(Report { event, stat, elapsed });
        }
        proof {
            assert forall|j: int| 0 <= j < i + 1 implies profiler.stats@[#[trigger] events[j]]
                == started_over(before)[events[j]] by {
                assert(events.contains(events[j]));
            }
            assert forall|j: int| i + 1 <= j < events.len() implies profiler.stats@[
                #[trigger] events[j]] == before[events[j]] by {
                assert(events[j] != events[i as int]);
            }
        }
        i += 1;
    }
    profiler.last_report = now;
    proof {
        crate::seqs::lemma_filter_ends(events, keep);
        assert forall|k: Seq<char>| #[trigger] before.contains_key(k) implies profiler.stats@[k]
            == started_over(before)[k] by {
            assert(events.contains(k));
            let j = choose|j: int| 0 <= j < events.len() && events[j] == k;
            assert(profiler.stats@[events[j]] == started_over(before)[events[j]]);
        }
        assert(profiler.stats@ =~= started_over(before));
    }
    Some(lines)
}

} // verus!
