//! The session context: a log of activity records that brackets each command.
use vstd::prelude::*;

verus! {

/// What kind of work an activity record covers.
#[derive(Clone, Copy, Debug, PartialEq, Eq, Structural)]
pub enum ActivityKind {
    Use,
    Help,
}

/// One activity: when it began and, once closed, when it ended and how.
#[derive(Clone, Copy, Debug, PartialEq, Eq, Structural)]
pub struct ActivityRecord {
    pub kind: ActivityKind,
    pub start: u64,
    pub end: Option<u64>,
    pub exit_code: Option<i32>,
}

/// A freshly opened record.
pub open spec fn opened(kind: ActivityKind, start: u64) -> ActivityRecord {
    ActivityRecord { kind, start, end: None, exit_code: None }
}

/// The record `r` once closed at `now` with `code`.
pub open spec fn closed(r: ActivityRecord, code: i32, now: u64) -> ActivityRecord {
    ActivityRecord { end: Some(now), exit_code: Some(code), ..r }
}

/// The per-invocation context that records activity begin and end events.
pub struct Session {
    records: Vec<ActivityRecord>,
}

impl Session {
    /// The records in the order they were opened.
    pub closed spec fn log(&self) -> Seq<ActivityRecord> {
        self.records@
    }

    /// A session with an empty log.
    pub fn new() -> (r: Session)
        ensures
            r.log() == Seq::<ActivityRecord>::empty(),
    {
        Session { records: Vec::new() }
    }

    /// Opens a record of `kind` that starts at `now`.
    pub fn add_event_start(&mut self, kind: ActivityKind, now: u64)
        ensures
            final(self).log() == old(self).log().push(opened(kind, now)),
    {
        self.records.push(ActivityRecord { kind, start: now, end: None, exit_code: None });
    }

    /// Closes the latest record when it is still open and of `kind`; returns
    /// whether it did. Otherwise the log is left as it was.
    pub fn add_event_end(&mut self, kind: ActivityKind, code: i32, now: u64) -> (r: bool)
        ensures
            r == (old(self).log().len() > 0 && old(self).log().last().kind == kind
                && old(self).log().last().end is None),
            r ==> final(self).log() == old(self).log().update(
                old(self).log().len() - 1,
                closed(old(self).log().last(), code, now),
            ),
            !r ==> final(self).log() == old(self).log(),
    {
        let n = self.records.len();
        if n == 0 {
            return false;
        }
        let last = self.records[n - 1];
        if last.kind == kind && last.end.is_none() {
            self.records.set(n - 1, ActivityRecord { end: Some(now), exit_code: Some(code), ..last });
            true
        } else {
            false
        }
    }

    /// The number of records.
    pub fn len(&self) -> (r: usize)
        ensures
            r == self.log().len(),
    {
        self.records.len()
    }

    /// The record at position `i`.
    pub fn record(&self, i: usize) -> (r: ActivityRecord)
        requires
            i < self.log().len(),
        ensures
            r == self.log()[i as int],
    {
        self.records[i]
    }
}

} // verus!
