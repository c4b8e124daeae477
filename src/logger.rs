//! The write logger: a fixed threshold and the sink that enabled lines go to.

use vstd::prelude::*;

use crate::clock::{Timestamp, local_time_now};
use crate::level::{Level, LevelFilter, passes};
use crate::line::{Record, line_bytes, render_line};

verus! {

/// A logger that renders every record at or above its threshold as one line
/// and hands the line to its sink. Neither the threshold nor the sink can be
/// replaced once the logger is built.
pub struct WriteLogger<W> {
    level: LevelFilter,
    writer: W,
}

/// What the sink holds after a record is offered to a logger with threshold
/// `f` at time `t`: the line appended when the record passes, nothing otherwise.
pub open spec fn after_log(sink: Seq<u8>, f: LevelFilter, rec: Record, t: Timestamp) -> Seq<u8> {
    if passes(rec.level, f) {
        sink + line_bytes(rec, t)
    } else {
        sink
    }
}

impl<W> WriteLogger<W> {
    /// The threshold this logger was built with.
    pub closed spec fn threshold(&self) -> LevelFilter {
        self.level
    }

    /// The sink this logger writes to.
    pub closed spec fn sink(&self) -> W {
        self.writer
    }

    /// Builds a logger that owns `writer` and lets through records at or
    /// above `log_level`. Nothing is written.
    pub fn new(log_level: LevelFilter, writer: W) -> (r: Box<WriteLogger<W>>)
        ensures
            r.threshold() == log_level,
            r.sink() == writer,
    {
        Box::new(WriteLogger { level: log_level, writer })
    }

    /// The threshold this logger was built with.
    pub fn level(&self) -> (r: LevelFilter)
        ensures
            r == self.threshold(),
    {
        self.level
    }

    /// Whether a record of level `level` passes this logger's threshold.
    pub fn enabled(&self, level: Level) -> (r: bool)
        ensures
            r == passes(level, self.threshold()),
    {
        self.level.allows(level)
    }

    /// The sink, for reading what was written.
    pub fn writer(&self) -> (r: &W)
        ensures
            *r == self.sink(),
    {
        &self.writer
    }

    /// Gives the sink back, ending the logger.
    pub fn into_writer(self) -> (r: W)
        ensures
            r == self.sink(),
    {
        self.writer
    }

    /// The line for `rec` stamped at `t`, or `None` when `rec` is below the threshold.
    pub fn render(&self, rec: &Record, t: Timestamp) -> (r: Option<Vec<u8>>)
        ensures
            r is None <==> !passes(rec.level, self.threshold()),
            r matches Some(v) ==> v@ == line_bytes(*rec, t),
    {
        if self.enabled(rec.level) {
            Some(render_line(rec, t))
        } else {
            None
        }
    }

    /// The line for `rec` stamped with the current local time, or `None`
    /// when `rec` is below the threshold; the clock is read only in the first case.
    pub fn render_now(&self, rec: &Record) -> (r: Option<Vec<u8>>)
        ensures
            r is None <==> !passes(rec.level, self.threshold()),
            r matches Some(v) ==> exists|t: Timestamp| t.wf() && v@ == line_bytes(*rec, t),
    {
        if self.enabled(rec.level) {
            let t = local_time_now();
            let v = render_line(rec, t);
            assert(t.wf() && v@ == line_bytes(*rec, t));
            Some(v)
        } else {
            None
        }
    }
}

/// Returned when a logger is installed into a slot that already holds one.
#[derive(Clone, Copy, Debug, PartialEq, Eq, Structural)]
pub struct SetLoggerError;

/// The place where the one installed logger of a process lives, together
/// with the ceiling above which records are not even offered to it.
/// A slot can be filled once; it is never emptied or refilled.
pub struct LoggerSlot<W> {
    installed: Option<WriteLogger<W>>,
    max_level: LevelFilter,
}

impl<W> LoggerSlot<W> {
    /// The installed logger, if any.
    pub closed spec fn current(&self) -> Option<WriteLogger<W>> {
        self.installed
    }

    /// The ceiling set at installation (`Off` before it).
    pub closed spec fn ceiling(&self) -> LevelFilter {
        self.max_level
    }

    /// An empty slot: nothing installed, and nothing let through.
    pub fn new() -> (r: LoggerSlot<W>)
        ensures
            r.current() is None,
            r.ceiling() == LevelFilter::Off,
    {
        LoggerSlot { installed: None, max_level: LevelFilter::Off }
    }

    /// Whether a logger was installed.
    pub fn is_set(&self) -> (r: bool)
        ensures
            r == self.current() is Some,
    {
        self.installed.is_some()
    }

    /// The ceiling set at installation.
    pub fn max_level(&self) -> (r: LevelFilter)
        ensures
            r == self.ceiling(),
    {
        self.max_level
    }

    /// The installed logger, if any.
    pub fn logger(&self) -> (r: Option<&WriteLogger<W>>)
        ensures
            r is None <==> self.current() is None,
            r matches Some(l) ==> self.current() == Some(*l),
    {
        match &self.installed {
            Some(l) => Some(l),
            None => None,
        }
    }
}

/// How one installation attempt relates the slot before it, the arguments,
/// whether it succeeded, and the slot after it.
pub open spec fn install_step<W>(
    before: LoggerSlot<W>,
    log_level: LevelFilter,
    writer: W,
    ok: bool,
    after: LoggerSlot<W>,
) -> bool {
    if before.current() is None {
        &&& ok
        &&& after.current() matches Some(l) && l.threshold() == log_level && l.sink() == writer
        &&& after.ceiling() == log_level
    } else {
        !ok && after == before
    }
}

impl<W> WriteLogger<W> {
    /// Builds a logger from `log_level` and `writer` and installs it in
    /// `slot`, setting the slot's ceiling to `log_level`. Fails, leaving the
    /// slot as it was, when a logger was installed before.
    pub fn init(log_level: LevelFilter, writer: W, slot: &mut LoggerSlot<W>) -> (r: Result<
        (),
        SetLoggerError,
    >)
        ensures
            install_step(*old(slot), log_level, writer, r is Ok, *final(slot)),
    {
        if slot.installed.is_some() {
            return Err(SetLoggerError);
        }
        let logger = WriteLogger::new(log_level, writer);
        slot.max_level = log_level;
        slot.installed = Some(*logger);
        Ok(())
    }
}

impl WriteLogger<Vec<u8>> {
    /// Offers `rec` stamped at `t`: appends its line to the in-memory sink
    /// when it passes the threshold, and leaves the sink as it was otherwise.
    pub fn log_at(&mut self, rec: &Record, t: Timestamp)
        ensures
            final(self).threshold() == old(self).threshold(),
            final(self).sink()@ == after_log(old(self).sink()@, old(self).threshold(), *rec, t),
    {
        if let Some(mut line) = self.render(rec, t) {
            self.writer.append(&mut line);
        }
    }

    /// Offers `rec` stamped with the current local time.
    pub fn log(&mut self, rec: &Record)
        ensures
            final(self).threshold() == old(self).threshold(),
            exists|t: Timestamp|
                t.wf() && final(self).sink()@ == after_log(
                    old(self).sink()@,
                    old(self).threshold(),
                    *rec,
                    t,
                ),
    {
        if self.enabled(rec.level) {
            let t = local_time_now();
            self.log_at(rec, t);
            assert(t.wf() && self.sink()@ == after_log(
                old(self).sink()@,
                old(self).threshold(),
                *rec,
                t,
            ));
        } else {
            let ghost t = Timestamp { hour: 0, minute: 0, second: 0 };
            assert(t.wf() && self.sink()@ == after_log(
                old(self).sink()@,
                old(self).threshold(),
                *rec,
                t,
            ));
        }
    }
}

} // verus!
