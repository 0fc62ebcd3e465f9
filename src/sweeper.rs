//! The expiry sweeper: on each tick it deletes the entries older than the
//! time-to-live. The decisions are here; the timer and the store are driven
//! by the caller, which hands each outcome back as an event.
use vstd::prelude::*;
use crate::clock::{in_text_range, text_ordered_at, timestamp_at, timestamp_text};
use crate::store::{Statement, StatementView};

verus! {

/// The sweeper's state.
pub struct Sweeper {
    /// Seconds between two ticks.
    pub interval_seconds: u64,
    /// Age, in seconds, past which an entry is removed.
    pub ttl_seconds: u64,
    /// Whether shutdown was asked for.
    pub stopped: bool,
}

/// What happened since the sweeper last decided.
pub enum SweepEvent {
    /// The timer fired at `now`, in seconds since the Unix epoch.
    Tick { now: i64 },
    /// The store ran the delete and removed `deleted` entries.
    Swept { deleted: u64 },
    /// The store failed to run the delete.
    SweepFailed,
    /// The host asks the sweeper to stop.
    Shutdown,
}

/// What the caller does next.
pub enum SweepAction {
    /// Run this delete on the store.
    Delete(Statement),
    /// Nothing to run on this tick: the cutoff has no timestamp text.
    Skip,
    /// Report that `deleted` entries were removed, then wait for the next tick.
    Report { deleted: u64 },
    /// Report the store's failure, then wait for the next tick.
    ReportFailure,
    /// Leave the loop.
    Stop,
}

/// The instant, in seconds, before which a tick at `now` removes entries.
pub open spec fn sweep_cutoff(now: int, ttl: int) -> int {
    now - ttl
}

/// The delete that a tick at `now` runs.
pub open spec fn sweep_delete(now: int, ttl: int) -> StatementView {
    StatementView::DeleteOlderThan { cutoff: timestamp_text(sweep_cutoff(now, ttl)) }
}

/// What a tick at `now` may decide: the delete, where the cutoff has a text.
/// In the years 0 to 9999 it always has one, and that text sorts in time
/// order against the text of every other instant there.
pub open spec fn tick_decision(action: SweepAction, now: int, ttl: int) -> bool {
    let cutoff = sweep_cutoff(now, ttl);
    &&& cutoff < i64::MIN ==> action is Skip
    &&& in_text_range(cutoff) ==> action is Delete
    &&& in_text_range(cutoff) ==> text_ordered_at(cutoff)
    &&& action is Delete || action is Skip
    &&& action matches SweepAction::Delete(s) ==> s@ == sweep_delete(now, ttl)
}

impl Sweeper {
    /// A running sweeper.
    pub fn new(interval_seconds: u64, ttl_seconds: u64) -> (r: Sweeper)
        ensures
            r.interval_seconds == interval_seconds,
            r.ttl_seconds == ttl_seconds,
            !r.stopped,
    {
        Sweeper { interval_seconds, ttl_seconds, stopped: false }
    }

    /// The decision on a tick at `now`.
    pub fn on_tick(&self, now: i64) -> (r: SweepAction)
        ensures
            tick_decision(r, now as int, self.ttl_seconds as int),
    {
        let cutoff: i128 = now as i128 - self.ttl_seconds as i128;
        if cutoff < i64::MIN as i128 {
            return SweepAction::Skip;
        }
        match timestamp_at(cutoff as i64) {
            Some(text) => SweepAction::Delete(Statement::DeleteOlderThan { cutoff: text }),
            None => SweepAction::Skip,
        }
    }

    /// Takes one event and decides what comes next. After `Shutdown` every
    /// event stops the loop; a store failure stops nothing.
    pub fn step(&mut self, event: SweepEvent) -> (r: SweepAction)
        ensures
            final(self).interval_seconds == old(self).interval_seconds,
            final(self).ttl_seconds == old(self).ttl_seconds,
            old(self).stopped ==> final(self).stopped && r is Stop,
            !old(self).stopped ==> match event {
                SweepEvent::Shutdown => final(self).stopped && r is Stop,
                SweepEvent::Tick { now } => !final(self).stopped && tick_decision(
                    r,
                    now as int,
                    old(self).ttl_seconds as int,
                ),
                SweepEvent::Swept { deleted } => !final(self).stopped && r == (SweepAction::Report {
                    deleted,
                }),
                SweepEvent::SweepFailed => !final(self).stopped && r is ReportFailure,
            },
    {
        if self.stopped {
            return SweepAction::Stop;
        }
        match event {
            SweepEvent::Shutdown => {
                self.stopped = true;
                SweepAction::Stop
            },
            SweepEvent::Tick { now } => self.on_tick(now),
            SweepEvent::Swept { deleted } => SweepAction::Report { deleted },
            SweepEvent::SweepFailed => SweepAction::ReportFailure,
        }
    }
}

} // verus!
