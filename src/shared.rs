//! A logger that many threads can use through a shared reference: its
//! in-memory sink sits behind a lock, and every line is appended whole
//! while the lock is held.

use vstd::prelude::*;
use vstd::rwlock::{RwLock, RwLockPredicate};

use crate::clock::{Timestamp, local_time_now};
use crate::level::{LevelFilter, passes};
use crate::line::{Record, all_lines, push_all, render_line};

verus! {

/// The bytes of the sink, with the records whose lines they are and the
/// times those lines were stamped with, in the order the lines went in.
pub struct SinkState {
    pub bytes: Vec<u8>,
    pub records: Ghost<Seq<Record>>,
    pub stamps: Ghost<Seq<Timestamp>>,
}

/// What the lock guarantees of its sink whenever it is free: the sink is
/// the complete lines, one after the other, of records that passed the
/// threshold `f`.
pub struct CompleteLines {
    pub f: LevelFilter,
}

/// `bytes` is the lines of `recs`, stamped with `ts`, laid end to end, and
/// every one of those records passes `f`.
pub open spec fn lines_of_enabled(
    bytes: Seq<u8>,
    f: LevelFilter,
    recs: Seq<Record>,
    ts: Seq<Timestamp>,
) -> bool {
    &&& recs.len() == ts.len()
    &&& forall|i: int| 0 <= i < recs.len() ==> passes(#[trigger] recs[i].level, f)
    &&& bytes == all_lines(recs, ts)
}

impl RwLockPredicate<SinkState> for CompleteLines {
    open spec fn inv(self, v: SinkState) -> bool {
        lines_of_enabled(v.bytes@, self.f, v.records@, v.stamps@)
    }
}

/// A write logger with an in-memory sink that is safe to share between threads.
pub struct SharedLogger {
    level: LevelFilter,
    sink: RwLock<SinkState, CompleteLines>,
}

impl SharedLogger {
    /// The threshold this logger was built with.
    pub closed spec fn threshold(&self) -> LevelFilter {
        self.level
    }

    /// The lock guards the invariant of this logger's own threshold.
    #[verifier::type_invariant]
    closed spec fn wf(self) -> bool {
        self.sink.pred() == CompleteLines { f: self.level }
    }

    /// Builds a logger with an empty sink that lets through records at or
    /// above `log_level`.
    pub fn new(log_level: LevelFilter) -> (r: SharedLogger)
        ensures
            r.threshold() == log_level,
    {
        let state = SinkState {
            bytes: Vec::new(),
            records: Ghost(Seq::empty()),
            stamps: Ghost(Seq::empty()),
        };
        let ghost pred = CompleteLines { f: log_level };
        assert(state.bytes@ =~= all_lines(Seq::empty(), Seq::empty()));
        SharedLogger { level: log_level, sink: RwLock::new(state, Ghost(pred)) }
    }

    /// The threshold this logger was built with.
    pub fn level(&self) -> (r: LevelFilter)
        ensures
            r == self.threshold(),
    {
        self.level
    }

    /// Offers `rec` stamped at `t`. When it passes the threshold, its line is
    /// rendered and then appended whole while the sink's lock is held, so
    /// lines from concurrent callers never mix.
    pub fn log_at(&self, rec: &Record, t: Timestamp) {
        proof {
            use_type_invariant(self);
        }
        if self.level.allows(rec.level) {
            let line = render_line(rec, t);
            let (mut state, handle) = self.sink.acquire_write();
            let ghost recs = state.records@;
            let ghost ts = state.stamps@;
            push_all(&mut state.bytes, line.as_slice());
            state.records = Ghost(recs.push(*rec));
            state.stamps = Ghost(ts.push(t));
            proof {
                assert(recs.push(*rec).drop_last() =~= recs);
                assert(ts.push(t).drop_last() =~= ts);
                assert forall|i: int| 0 <= i < recs.len() + 1 implies passes(
                    #[trigger] recs.push(*rec)[i].level,
                    self.level,
                ) by {
                    if i < recs.len() {
                        assert(recs.push(*rec)[i] == recs[i]);
                    }
                }
            }
            handle.release_write(state);
        }
    }

    /// Offers `rec` stamped with the current local time; the clock is read
    /// only when `rec` passes the threshold.
    pub fn log(&self, rec: &Record) {
        if self.level.allows(rec.level) {
            let t = local_time_now();
            self.log_at(rec, t);
        }
    }

    /// Ends the logger and gives back its sink, which holds the complete
    /// lines of the enabled records, in the order their calls took the lock.
    pub fn into_bytes(self) -> (r: Vec<u8>)
        ensures
            exists|recs: Seq<Record>, ts: Seq<Timestamp>|
                lines_of_enabled(r@, self.threshold(), recs, ts),
    {
        proof {
            use_type_invariant(&self);
        }
        let state = self.sink.into_inner();
        assert(lines_of_enabled(state.bytes@, self.level, state.records@, state.stamps@));
        state.bytes
    }
}

} // verus!
