//! The text of one log line, built as the bytes that go to the sink.

use vstd::prelude::*;
use vstd::utf8::encode_utf8;

use crate::clock::Timestamp;
use crate::level::{Level, level_name_bytes};

verus! {

/// One record handed to the logger: its severity, where it comes from, and
/// its already rendered message.
#[derive(Clone, Debug)]
pub struct Record {
    pub level: Level,
    pub target: String,
    pub message: String,
    pub file: String,
    pub line: u32,
}

/// The ASCII byte of a decimal digit.
pub open spec fn digit(d: nat) -> u8 {
    (48 + d % 10) as u8
}

/// The decimal digits of `n`, most significant first, with no leading zero.
pub open spec fn decimal(n: nat) -> Seq<u8>
    decreases n,
{
    if n < 10 {
        seq![digit(n)]
    } else {
        decimal(n / 10).push(digit(n % 10))
    }
}

/// `n` in decimal, padded with a leading zero to at least two digits.
pub open spec fn padded(n: nat) -> Seq<u8> {
    if n < 10 {
        seq![48u8, digit(n)]
    } else {
        decimal(n)
    }
}

/// `HH:MM:SS`, each field padded to two digits.
pub open spec fn clock_text(t: Timestamp) -> Seq<u8> {
    padded(t.hour as nat) + seq![58u8] + padded(t.minute as nat) + seq![58u8] + padded(
        t.second as nat,
    )
}

/// The `[file:line] ` part that only `Trace` records carry.
pub open spec fn location_text(rec: Record) -> Seq<u8> {
    if rec.level == Level::Trace {
        seq![91u8] + encode_utf8(rec.file@) + seq![58u8] + decimal(rec.line as nat) + seq![
            93u8,
            32u8,
        ]
    } else {
        Seq::empty()
    }
}

/// The whole line for a record stamped at `t`:
/// `HH:MM:SS [LEVEL] target: message` followed by a newline, with
/// `[file:line] ` before the message for `Trace` records.
pub open spec fn line_bytes(rec: Record, t: Timestamp) -> Seq<u8> {
    clock_text(t) + seq![32u8, 91u8] + level_name_bytes(rec.level) + seq![93u8, 32u8]
        + encode_utf8(rec.target@) + seq![58u8, 32u8] + location_text(rec) + encode_utf8(
        rec.message@,
    ) + seq![10u8]
}

/// The lines of `recs`, in order, laid end to end.
pub open spec fn all_lines(recs: Seq<Record>, ts: Seq<Timestamp>) -> Seq<u8>
    decreases recs.len(),
{
    if recs.len() == 0 || ts.len() == 0 {
        Seq::empty()
    } else {
        all_lines(recs.drop_last(), ts.drop_last()) + line_bytes(recs.last(), ts.last())
    }
}

/// Appends the bytes of `src` to `out`.
pub(crate) fn push_all(out: &mut Vec<u8>, src: &[u8])
    ensures
        final(out)@ == old(out)@ + src@,
{
    let mut i: usize = 0;
    while i < src.len()
        invariant
            i <= src@.len(),
            out@ == old(out)@ + src@.subrange(0, i as int),
        decreases src@.len() - i,
    {
        out.push(src[i]);
        i = i + 1;
        assert(src@.subrange(0, i as int) =~= src@.subrange(0, i - 1 as int).push(src@[i - 1]));
    }
    assert(src@.subrange(0, i as int) =~= src@);
}

/// Appends `n` in decimal to `out`.
pub fn push_decimal(out: &mut Vec<u8>, n: u32)
    ensures
        final(out)@ == old(out)@ + decimal(n as nat),
    decreases n,
{
    if n >= 10 {
        push_decimal(out, n / 10);
    }
    out.push(48u8 + (n % 10) as u8);
    assert(final(out)@ =~= old(out)@ + decimal(n as nat));
}

/// Appends `n` in decimal, padded with a leading zero to at least two digits.
pub fn push_padded(out: &mut Vec<u8>, n: u8)
    ensures
        final(out)@ == old(out)@ + padded(n as nat),
{
    if n < 10 {
        out.push(48u8);
    }
    push_decimal(out, n as u32);
    assert(final(out)@ =~= old(out)@ + padded(n as nat));
}

/// Renders the line for `rec` stamped at `t`.
pub fn render_line(rec: &Record, t: Timestamp) -> (r: Vec<u8>)
    ensures
        r@ == line_bytes(*rec, t),
{
    let mut out: Vec<u8> = Vec::new();
    push_padded(&mut out, t.hour);
    out.push(58u8);
    push_padded(&mut out, t.minute);
    out.push(58u8);
    push_padded(&mut out, t.second);
    out.push(32u8);
    out.push(91u8);
    let name = rec.level.name_bytes();
    push_all(&mut out, name.as_slice());
    out.push(93u8);
    out.push(32u8);
    push_all(&mut out, rec.target.as_str().as_bytes());
    out.push(58u8);
    out.push(32u8);
    if rec.level == Level::Trace {
        out.push(91u8);
        push_all(&mut out, rec.file.as_str().as_bytes());
        out.push(58u8);
        push_decimal(&mut out, rec.line);
        out.push(93u8);
        out.push(32u8);
    }
    push_all(&mut out, rec.message.as_str().as_bytes());
    out.push(10u8);
    assert(out@ =~= line_bytes(*rec, t));
    out
}

} // verus!
