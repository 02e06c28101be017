//! The process's standard input, output and error endpoints over the console.
use vstd::prelude::*;
use crate::console::{canonical_all, canonical_opt, console_read_bytes, putchar, translate, translate_byte, write_bytes};
use crate::flags::{FileIOType, OpenFlags, SeekFrom, StdioError, status_after};
use crate::fd::{StdinRaw, take_count};
use crate::ring::{AxRxRingBuffer, StdioRingBuffer, after_pop, after_push, front, ready_after_pop, ready_after_push};

verus! {

/// Contents of the line ring after a byte may have arrived.
pub open spec fn line_after_input(q: Seq<u8>, c: Option<u8>) -> Seq<u8> {
    match c {
        Some(b) => after_push(q, b),
        None => q,
    }
}

/// Line marker of the line ring after a byte may have arrived.
pub open spec fn ready_after_input(q: Seq<u8>, ready: bool, c: Option<u8>) -> bool {
    match c {
        Some(b) => ready_after_push(q, ready, b),
        None => ready,
    }
}

/// Echo sent back to the device for a byte that may have arrived.
pub open spec fn echo_of(c: Option<u8>) -> Seq<u8> {
    match c {
        Some(b) => translate_byte(b),
        None => Seq::empty(),
    }
}

/// Writes `buf` to the console; returns its length.
pub fn console_write_bytes(buf: &[u8], out: &mut Vec<u8>) -> (r: Result<usize, StdioError>)
    ensures
        final(out)@ == old(out)@ + translate(buf@),
        r == Ok::<usize, StdioError>(buf@.len() as usize),
{
    let n = write_bytes(buf, out);
    Ok(n)
}

/// Copies waiting bytes, made canonical, to the front of `buf` until it is
/// full or none is left; returns how many were copied, zero only when
/// nothing is waiting or `buf` is empty.
pub fn stdin_read(rx: &mut AxRxRingBuffer, buf: &mut [u8]) -> (r: Result<usize, StdioError>)
    requires
        old(rx).wf(),
    ensures
        final(rx).wf(),
        ({
            let n = take_count(old(buf)@.len(), old(rx).view().len());
            &&& r == Ok::<usize, StdioError>(n as usize)
            &&& final(rx).view() == old(rx).view().skip(n as int)
            &&& final(buf)@ == canonical_all(old(rx).view().take(n as int)) + old(buf)@.skip(n as int)
        }),
{
    let mut raw = StdinRaw;
    raw.read(rx, buf)
}

/// Handle to the process's standard input.
pub struct Stdin {
    pub flags: OpenFlags,
}

/// Handle to the process's standard output.
pub struct Stdout {
    pub flags: OpenFlags,
}

/// Handle to the process's standard error.
pub struct Stderr {
    pub flags: OpenFlags,
}

impl Stdin {
    /// A handle with no open flag set.
    pub fn new() -> (r: Self)
        ensures
            r.flags.bits == 0,
    {
        Stdin { flags: OpenFlags::empty() }
    }

    /// Tries to hand out one byte at once. Bytes held in the line ring
    /// `line` come first: its oldest byte goes to `buf[0]` and `rx` is left
    /// alone. With the line ring empty, the first byte waiting in `rx`, made
    /// canonical, goes to `buf[0]`. Either way the count 1 is returned; with
    /// nothing held or waiting nothing changes and `None` says the caller
    /// must wait with [`Stdin::read_step`].
    pub fn read(&self, rx: &mut AxRxRingBuffer, line: &mut StdioRingBuffer, buf: &mut [u8]) -> (r: Option<usize>)
        requires
            old(rx).wf(),
            old(line).wf(),
            old(buf)@.len() >= 1,
        ensures
            final(rx).wf(),
            final(line).wf(),
            old(line).view().len() > 0 ==> {
                &&& r == Some(1usize)
                &&& final(buf)@ == old(buf)@.update(0, old(line).view()[0])
                &&& final(line).view() == after_pop(old(line).view())
                &&& final(line).line_ready() == ready_after_pop(old(line).view(), old(line).line_ready())
                &&& *final(rx) == *old(rx)
            },
            old(line).view().len() == 0 ==> {
                &&& *final(line) == *old(line)
                &&& final(rx).view() == after_pop(old(rx).view())
                &&& match canonical_opt(front(old(rx).view())) {
                    Some(c) => r == Some(1usize) && final(buf)@ == old(buf)@.update(0, c),
                    None => r.is_none() && final(buf)@ == old(buf)@,
                }
            },
    {
        if !line.is_empty() {
            match line.pop() {
                Some(c) => {
                    buf[0] = c;
                    return Some(1);
                },
                None => {
                    return None;
                },
            }
        }
        match console_read_bytes(rx) {
            Some(c) => {
                buf[0] = c;
                Some(1)
            },
            None => None,
        }
    }

    /// One round of the waiting read with local echo. A byte waiting in
    /// `rx` is made canonical, kept in the line ring `line`, and echoed to
    /// `out`. Once a line is ready its oldest byte goes to `buf[0]` and the
    /// count 1 is returned; otherwise `None` says the caller should yield
    /// and call again.
    pub fn read_step(
        &self,
        rx: &mut AxRxRingBuffer,
        line: &mut StdioRingBuffer,
        out: &mut Vec<u8>,
        buf: &mut [u8],
    ) -> (r: Option<usize>)
        requires
            old(rx).wf(),
            old(line).wf(),
            old(buf)@.len() >= 1,
        ensures
            final(rx).wf(),
            final(line).wf(),
            final(rx).view() == after_pop(old(rx).view()),
            final(out)@ == old(out)@ + echo_of(canonical_opt(front(old(rx).view()))),
            ({
                let c = canonical_opt(front(old(rx).view()));
                let q = line_after_input(old(line).view(), c);
                let ready = ready_after_input(old(line).view(), old(line).line_ready(), c);
                if ready {
                    &&& r == Some(1usize)
                    &&& final(buf)@ == old(buf)@.update(0, q[0])
                    &&& final(line).view() == after_pop(q)
                    &&& final(line).line_ready() == ready_after_pop(q, ready)
                } else {
                    &&& r.is_none()
                    &&& final(buf)@ == old(buf)@
                    &&& final(line).view() == q
                    &&& final(line).line_ready() == ready
                }
            }),
    {
        let ghost out0 = out@;
        match console_read_bytes(rx) {
            Some(c) => {
                line.push(c);
                putchar(c, out);
            },
            None => {
                assert(out@ =~= out0 + Seq::<u8>::empty());
            },
        }
        if line.is_release() {
            match line.pop() {
                Some(c) => {
                    buf[0] = c;
                    Some(1)
                },
                None => None,
            }
        } else {
            None
        }
    }

    /// Console streams cannot seek.
    pub fn seek(&self, pos: SeekFrom) -> (r: Result<u64, StdioError>)
        ensures
            r == Err::<u64, StdioError>(StdioError::Unsupported),
    {
        Err(StdioError::Unsupported)
    }

    pub fn readable(&self) -> (r: bool)
        ensures
            r,
    {
        true
    }

    pub fn writable(&self) -> (r: bool)
        ensures
            !r,
    {
        false
    }

    pub fn executable(&self) -> (r: bool)
        ensures
            !r,
    {
        false
    }

    pub fn get_type(&self) -> (r: FileIOType)
        ensures
            r == FileIOType::Stdin,
    {
        FileIOType::Stdin
    }

    pub fn ready_to_read(&self) -> (r: bool)
        ensures
            r,
    {
        true
    }

    pub fn ready_to_write(&self) -> (r: bool)
        ensures
            !r,
    {
        false
    }

    /// Accepts exactly the close-on-exec bit alone and stores it; any other
    /// request fails and leaves the flags unchanged.
    pub fn set_status(&mut self, flags: OpenFlags) -> (r: bool)
        ensures
            r == (flags.bits == crate::flags::O_CLOEXEC),
            final(self).flags == status_after(old(self).flags, flags),
    {
        set_status_of(&mut self.flags, flags)
    }

    pub fn get_status(&self) -> (r: OpenFlags)
        ensures
            r == self.flags,
    {
        self.flags
    }

    /// Sets or clears the close-on-exec bit, keeping the other flags.
    pub fn set_close_on_exec(&mut self, is_set: bool) -> (r: bool)
        ensures
            r,
            final(self).flags.has_cloexec() == is_set,
            final(self).flags.bits == if is_set {
                old(self).flags.bits | crate::flags::O_CLOEXEC
            } else {
                old(self).flags.bits & !crate::flags::O_CLOEXEC
            },
    {
        self.flags = self.flags.with_close_on_exec(is_set);
        true
    }
}

/// Stores `requested` in `stored` when it is exactly the close-on-exec bit.
fn set_status_of(stored: &mut OpenFlags, requested: OpenFlags) -> (r: bool)
    ensures
        r == (requested.bits == crate::flags::O_CLOEXEC),
        *final(stored) == status_after(*old(stored), requested),
{
    if requested.bits == crate::flags::O_CLOEXEC {
        *stored = requested;
        true
    } else {
        false
    }
}

/// Writes `buf` to the console; returns its length.
pub fn stdout_write(buf: &[u8], out: &mut Vec<u8>) -> (r: Result<usize, StdioError>)
    ensures
        final(out)@ == old(out)@ + translate(buf@),
        r == Ok::<usize, StdioError>(buf@.len() as usize),
{
    let n = write_bytes(buf, out);
    Ok(n)
}

impl Stdout {
    /// A handle with no open flag set.
    pub fn new() -> (r: Self)
        ensures
            r.flags.bits == 0,
    {
        Stdout { flags: OpenFlags::empty() }
    }

    /// Writes `buf` to the console at once; every byte is taken.
    pub fn write(&self, buf: &[u8], out: &mut Vec<u8>) -> (r: Result<usize, StdioError>)
        ensures
            final(out)@ == old(out)@ + translate(buf@),
            r == Ok::<usize, StdioError>(buf@.len() as usize),
    {
        stdout_write(buf, out)
    }

    /// Nothing is held back, so flushing always succeeds.
    pub fn flush(&self) -> (r: Result<(), StdioError>)
        ensures
            r == Ok::<(), StdioError>(()),
    {
        Ok(())
    }

    /// Console streams cannot seek.
    pub fn seek(&self, pos: SeekFrom) -> (r: Result<u64, StdioError>)
        ensures
            r == Err::<u64, StdioError>(StdioError::Unsupported),
    {
        Err(StdioError::Unsupported)
    }

    pub fn readable(&self) -> (r: bool)
        ensures
            !r,
    {
        false
    }

    pub fn writable(&self) -> (r: bool)
        ensures
            r,
    {
        true
    }

    pub fn executable(&self) -> (r: bool)
        ensures
            !r,
    {
        false
    }

    pub fn get_type(&self) -> (r: FileIOType)
        ensures
            r == FileIOType::Stdout,
    {
        FileIOType::Stdout
    }

    pub fn ready_to_read(&self) -> (r: bool)
        ensures
            !r,
    {
        false
    }

    pub fn ready_to_write(&self) -> (r: bool)
        ensures
            r,
    {
        true
    }

    /// Accepts exactly the close-on-exec bit alone and stores it; any other
    /// request fails and leaves the flags unchanged.
    pub fn set_status(&mut self, flags: OpenFlags) -> (r: bool)
        ensures
            r == (flags.bits == crate::flags::O_CLOEXEC),
            final(self).flags == status_after(old(self).flags, flags),
    {
        set_status_of(&mut self.flags, flags)
    }

    pub fn get_status(&self) -> (r: OpenFlags)
        ensures
            r == self.flags,
    {
        self.flags
    }

    /// Sets or clears the close-on-exec bit, keeping the other flags.
    pub fn set_close_on_exec(&mut self, is_set: bool) -> (r: bool)
        ensures
            r,
            final(self).flags.has_cloexec() == is_set,
            final(self).flags.bits == if is_set {
                old(self).flags.bits | crate::flags::O_CLOEXEC
            } else {
                old(self).flags.bits & !crate::flags::O_CLOEXEC
            },
    {
        self.flags = self.flags.with_close_on_exec(is_set);
        true
    }
}

impl Stderr {
    /// A handle with no open flag set.
    pub fn new() -> (r: Self)
        ensures
            r.flags.bits == 0,
    {
        Stderr { flags: OpenFlags::empty() }
    }

    /// Writes `buf` to the console at once; every byte is taken.
    pub fn write(&self, buf: &[u8], out: &mut Vec<u8>) -> (r: Result<usize, StdioError>)
        ensures
            final(out)@ == old(out)@ + translate(buf@),
            r == Ok::<usize, StdioError>(buf@.len() as usize),
    {
        stdout_write(buf, out)
    }

    /// Nothing is held back, so flushing always succeeds.
    pub fn flush(&self) -> (r: Result<(), StdioError>)
        ensures
            r == Ok::<(), StdioError>(()),
    {
        Ok(())
    }

    /// Console streams cannot seek.
    pub fn seek(&self, pos: SeekFrom) -> (r: Result<u64, StdioError>)
        ensures
            r == Err::<u64, StdioError>(StdioError::Unsupported),
    {
        Err(StdioError::Unsupported)
    }

    pub fn readable(&self) -> (r: bool)
        ensures
            !r,
    {
        false
    }

    pub fn writable(&self) -> (r: bool)
        ensures
            r,
    {
        true
    }

    pub fn executable(&self) -> (r: bool)
        ensures
            !r,
    {
        false
    }

    pub fn get_type(&self) -> (r: FileIOType)
        ensures
            r == FileIOType::Stderr,
    {
        FileIOType::Stderr
    }

    pub fn ready_to_read(&self) -> (r: bool)
        ensures
            !r,
    {
        false
    }

    pub fn ready_to_write(&self) -> (r: bool)
        ensures
            r,
    {
        true
    }

    /// Accepts exactly the close-on-exec bit alone and stores it; any other
    /// request fails and leaves the flags unchanged.
    pub fn set_status(&mut self, flags: OpenFlags) -> (r: bool)
        ensures
            r == (flags.bits == crate::flags::O_CLOEXEC),
            final(self).flags == status_after(old(self).flags, flags),
    {
        set_status_of(&mut self.flags, flags)
    }

    pub fn get_status(&self) -> (r: OpenFlags)
        ensures
            r == self.flags,
    {
        self.flags
    }

    /// Sets or clears the close-on-exec bit, keeping the other flags.
    pub fn set_close_on_exec(&mut self, is_set: bool) -> (r: bool)
        ensures
            r,
            final(self).flags.has_cloexec() == is_set,
            final(self).flags.bits == if is_set {
                old(self).flags.bits | crate::flags::O_CLOEXEC
            } else {
                old(self).flags.bits & !crate::flags::O_CLOEXEC
            },
    {
        self.flags = self.flags.with_close_on_exec(is_set);
        true
    }
}

} // verus!
