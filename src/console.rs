//! The console line discipline and the receive path of the serial device.
//!
//! Bytes bound for the device are appended to an output sequence that the
//! caller hands to the hardware; received bytes travel through an
//! [`AxRxRingBuffer`] filled by the receive interrupt.
use vstd::prelude::*;
use crate::ring::{AxRxRingBuffer, after_pop, after_push, front};

verus! {

/// Device bytes that stand for one written byte: a line feed becomes
/// carriage return and line feed, delete becomes backspace, space,
/// backspace, and every other byte passes unchanged.
pub open spec fn translate_byte(c: u8) -> Seq<u8> {
    if c == 10 {
        seq![13u8, 10u8]
    } else if c == 127 {
        seq![8u8, 32u8, 8u8]
    } else {
        seq![c]
    }
}

/// Device bytes that stand for a written sequence.
pub open spec fn translate(s: Seq<u8>) -> Seq<u8>
    decreases s.len(),
{
    if s.len() == 0 {
        Seq::empty()
    } else {
        translate(s.drop_last()) + translate_byte(s.last())
    }
}

/// Writing a sequence in two parts sends the same device bytes as writing
/// it at once.
pub proof fn lemma_translate_append(a: Seq<u8>, b: Seq<u8>)
    ensures
        translate(a + b) == translate(a) + translate(b),
    decreases b.len(),
{
    if b.len() == 0 {
        assert(a + b =~= a);
        assert(translate(a) + translate(b) =~= translate(a));
    } else {
        lemma_translate_append(a, b.drop_last());
        assert((a + b).drop_last() =~= a + b.drop_last());
        assert((a + b).last() == b.last());
        assert(translate(a + b) =~= translate(a) + translate(b));
    }
}

/// A received carriage return is handed on as a line feed.
pub open spec fn canonical(c: u8) -> u8 {
    if c == 13 {
        10
    } else {
        c
    }
}

/// Bytes handed to readers for raw received bytes.
pub open spec fn canonical_all(s: Seq<u8>) -> Seq<u8> {
    s.map_values(|b: u8| canonical(b))
}

/// Byte handed to readers for a raw received byte, if any.
pub open spec fn canonical_opt(c: Option<u8>) -> Option<u8> {
    match c {
        Some(b) => Some(canonical(b)),
        None => None,
    }
}

/// Writes a byte to the console: appends its device translation to `out`.
pub fn putchar(c: u8, out: &mut Vec<u8>)
    ensures
        final(out)@ == old(out)@ + translate_byte(c),
{
    let ghost before = out@;
    if c == 10 {
        out.push(13);
        out.push(10);
    } else if c == 127 {
        out.push(8);
        out.push(32);
        out.push(8);
    } else {
        out.push(c);
    }
    assert(out@ =~= before + translate_byte(c));
}

/// Writes every byte of `buf` to the console, in order; returns how many
/// bytes were written, which is always all of them.
pub fn write_bytes(buf: &[u8], out: &mut Vec<u8>) -> (n: usize)
    ensures
        final(out)@ == old(out)@ + translate(buf@),
        n == buf@.len(),
{
    let ghost start = out@;
    let mut i: usize = 0;
    while i < buf.len()
        invariant
            0 <= i <= buf@.len(),
            out@ == start + translate(buf@.subrange(0, i as int)),
        decreases buf@.len() - i,
    {
        let ghost prefix = buf@.subrange(0, i as int);
        putchar(buf[i], out);
        i = i + 1;
        assert(buf@.subrange(0, i as int).drop_last() =~= prefix);
        assert(out@ =~= start + translate(buf@.subrange(0, i as int)));
    }
    assert(buf@.subrange(0, i as int) =~= buf@);
    buf.len()
}

/// Maps a received carriage return to a line feed.
pub fn canonical_byte(c: u8) -> (r: u8)
    ensures
        r == canonical(c),
{
    if c == 13 {
        10
    } else {
        c
    }
}

/// Reads a raw byte from the console, or `None` if no input is available.
pub fn getchar(rx: &mut AxRxRingBuffer) -> (r: Option<u8>)
    requires
        old(rx).wf(),
    ensures
        final(rx).wf(),
        r == front(old(rx).view()),
        final(rx).view() == after_pop(old(rx).view()),
{
    rx.pop()
}

/// Reads a byte from the console with carriage returns turned into line
/// feeds, or `None` if no input is available.
pub fn console_read_bytes(rx: &mut AxRxRingBuffer) -> (r: Option<u8>)
    requires
        old(rx).wf(),
    ensures
        final(rx).wf(),
        r == canonical_opt(front(old(rx).view())),
        final(rx).view() == after_pop(old(rx).view()),
{
    match getchar(rx) {
        Some(c) => Some(canonical_byte(c)),
        None => None,
    }
}

/// One step of the receive interrupt's drain: `received` is what the device
/// handed over, if anything. A byte is stored in `buffer` (or dropped when
/// it is full); the result says whether the device should be asked again.
pub fn handle(buffer: &mut AxRxRingBuffer, received: Option<u8>) -> (more: bool)
    requires
        old(buffer).wf(),
    ensures
        final(buffer).wf(),
        more == received.is_some(),
        final(buffer).view() == match received {
            Some(c) => after_push(old(buffer).view(), c),
            None => old(buffer).view(),
        },
{
    match received {
        Some(c) => {
            buffer.push(c);
            true
        },
        None => false,
    }
}

} // verus!
