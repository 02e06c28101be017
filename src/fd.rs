//! Standard input and output as file descriptors: reads that wait for at
//! least one byte, direction errors reported as values, and descriptor
//! metadata.
use vstd::prelude::*;
use crate::console::{canonical_all, console_read_bytes, translate, write_bytes};
use crate::flags::{PollState, S_IFCHR, Stat, StdioError};
use crate::ring::AxRxRingBuffer;

verus! {

/// Number of bytes a non-blocking read takes: as many as wanted, as far as
/// they are waiting.
pub open spec fn take_count(wanted: nat, waiting: nat) -> nat {
    if wanted < waiting {
        wanted
    } else {
        waiting
    }
}

/// Permission bits `r--r-----`.
pub const STDIN_PERMISSIONS: u32 = 0o440;

/// Permission bits `-w--w----`.
pub const STDOUT_PERMISSIONS: u32 = 0o220;

/// Raw console input: never waits.
pub struct StdinRaw;

/// Raw console output.
pub struct StdoutRaw;

impl StdinRaw {
    /// Copies waiting bytes, made canonical, to the front of `buf` until it
    /// is full or none is left; returns how many were copied.
    pub fn read(&mut self, rx: &mut AxRxRingBuffer, buf: &mut [u8]) -> (r: Result<usize, StdioError>)
        requires
            old(rx).wf(),
        ensures
            final(rx).wf(),
            ({
                let n = take_count(old(buf)@.len(), old(rx).view().len());
                &&& r == Ok::<usize, StdioError>(n as usize)
                &&& final(rx).view() == old(rx).view().skip(n as int)
                &&& final(buf)@ == canonical_all(old(rx).view().take(n as int)) + old(buf)@.skip(n as int)
            }),
    {
        let ghost rx0 = rx.view();
        let ghost buf0 = buf@;
        let mut read_len: usize = 0;
        loop
            invariant
                rx.wf(),
                rx0 == old(rx).view(),
                buf0 == old(buf)@,
                buf@.len() == buf0.len(),
                read_len <= buf0.len(),
                read_len <= rx0.len(),
                rx.view() == rx0.skip(read_len as int),
                buf@ == canonical_all(rx0.take(read_len as int)) + buf0.skip(read_len as int),
            ensures
                rx.wf(),
                read_len == take_count(buf0.len(), rx0.len()),
                rx.view() == rx0.skip(read_len as int),
                buf@ == canonical_all(rx0.take(read_len as int)) + buf0.skip(read_len as int),
            decreases buf0.len() - read_len,
        {
            if read_len >= buf.len() {
                break;
            }
            let ghost cur = rx.view();
            match console_read_bytes(rx) {
                Some(c) => {
                    assert(cur[0] == rx0[read_len as int]);
                    buf[read_len] = c;
                    read_len = read_len + 1;
                    assert(rx.view() =~= rx0.skip(read_len as int));
                    assert(buf@ =~= canonical_all(rx0.take(read_len as int)) + buf0.skip(read_len as int));
                },
                None => {
                    break;
                },
            }
        }
        Ok(read_len)
    }
}

impl StdoutRaw {
    /// Writes all of `buf` to the console.
    pub fn write(&mut self, buf: &[u8], out: &mut Vec<u8>) -> (r: Result<usize, StdioError>)
        ensures
            final(out)@ == old(out)@ + translate(buf@),
            r == Ok::<usize, StdioError>(buf@.len() as usize),
    {
        let n = write_bytes(buf, out);
        Ok(n)
    }

    /// Nothing is held back, so flushing always succeeds.
    pub fn flush(&mut self) -> (r: Result<(), StdioError>)
        ensures
            r == Ok::<(), StdioError>(()),
    {
        Ok(())
    }
}

/// Standard input of the current process.
pub struct Stdin;

/// Standard output of the current process.
pub struct Stdout;

/// Handle to the standard input of the current process.
pub fn stdin() -> (r: Stdin) {
    Stdin
}

/// Handle to the standard output of the current process.
pub fn stdout() -> (r: Stdout) {
    Stdout
}

impl Stdin {
    /// One attempt of a read that returns only with at least one byte: the
    /// waiting bytes are read as [`StdinRaw::read`] does, and the count is
    /// returned when it is positive or `buf` is empty; `None` says the
    /// caller should yield and try again.
    pub fn read_blocked(&self, rx: &mut AxRxRingBuffer, buf: &mut [u8]) -> (r: Option<usize>)
        requires
            old(rx).wf(),
        ensures
            final(rx).wf(),
            ({
                let n = take_count(old(buf)@.len(), old(rx).view().len());
                &&& final(rx).view() == old(rx).view().skip(n as int)
                &&& final(buf)@ == canonical_all(old(rx).view().take(n as int)) + old(buf)@.skip(n as int)
                &&& r == if old(buf)@.len() == 0 || n > 0 {
                    Some(n as usize)
                } else {
                    None
                }
            }),
    {
        let mut raw = StdinRaw;
        let n = match raw.read(rx, buf) {
            Ok(n) => n,
            Err(_) => 0,
        };
        if buf.len() == 0 || n > 0 {
            Some(n)
        } else {
            None
        }
    }

    /// Standard input cannot be written.
    pub fn write(&self, buf: &[u8]) -> (r: Result<usize, StdioError>)
        ensures
            r == Err::<usize, StdioError>(StdioError::PermissionDenied),
    {
        Err(StdioError::PermissionDenied)
    }

    /// A character device, readable by owner and group.
    pub fn stat(&self) -> (r: Result<Stat, StdioError>)
        ensures
            r == Ok::<Stat, StdioError>(Stat { st_ino: 1, st_nlink: 1, st_mode: S_IFCHR | STDIN_PERMISSIONS }),
    {
        Ok(Stat { st_ino: 1, st_nlink: 1, st_mode: S_IFCHR | STDIN_PERMISSIONS })
    }

    /// Readable once a byte is waiting; never writable.
    pub fn poll(&self, rx: &AxRxRingBuffer) -> (r: Result<PollState, StdioError>)
        requires
            rx.wf(),
        ensures
            r == Ok::<PollState, StdioError>(PollState { readable: rx.view().len() > 0, writable: false }),
    {
        let readable = !rx.is_empty();
        Ok(PollState { readable, writable: false })
    }

    /// Blocking mode is not switchable on the console; the request is accepted.
    pub fn set_nonblocking(&self, nonblocking: bool) -> (r: Result<(), StdioError>)
        ensures
            r == Ok::<(), StdioError>(()),
    {
        Ok(())
    }
}

impl Stdout {
    /// Standard output cannot be read.
    pub fn read(&self, buf: &mut [u8]) -> (r: Result<usize, StdioError>)
        ensures
            r == Err::<usize, StdioError>(StdioError::PermissionDenied),
            final(buf)@ == old(buf)@,
    {
        Err(StdioError::PermissionDenied)
    }

    /// Writes all of `buf` to the console.
    pub fn write(&self, buf: &[u8], out: &mut Vec<u8>) -> (r: Result<usize, StdioError>)
        ensures
            final(out)@ == old(out)@ + translate(buf@),
            r == Ok::<usize, StdioError>(buf@.len() as usize),
    {
        let mut raw = StdoutRaw;
        raw.write(buf, out)
    }

    /// Nothing is held back, so flushing always succeeds.
    pub fn flush(&self) -> (r: Result<(), StdioError>)
        ensures
            r == Ok::<(), StdioError>(()),
    {
        let mut raw = StdoutRaw;
        raw.flush()
    }

    /// A character device, writable by owner and group.
    pub fn stat(&self) -> (r: Result<Stat, StdioError>)
        ensures
            r == Ok::<Stat, StdioError>(Stat { st_ino: 1, st_nlink: 1, st_mode: S_IFCHR | STDOUT_PERMISSIONS }),
    {
        Ok(Stat { st_ino: 1, st_nlink: 1, st_mode: S_IFCHR | STDOUT_PERMISSIONS })
    }

    /// Console output is never held back: always ready both ways.
    pub fn poll(&self) -> (r: Result<PollState, StdioError>)
        ensures
            r == Ok::<PollState, StdioError>(PollState { readable: true, writable: true }),
    {
        Ok(PollState { readable: true, writable: true })
    }

    /// Blocking mode is not switchable on the console; the request is accepted.
    pub fn set_nonblocking(&self, nonblocking: bool) -> (r: Result<(), StdioError>)
        ensures
            r == Ok::<(), StdioError>(()),
    {
        Ok(())
    }
}

} // verus!
