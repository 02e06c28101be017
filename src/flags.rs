//! Open-flag state and the small descriptor types shared by the standard
//! stream endpoints.
use vstd::prelude::*;

verus! {

/// The close-on-exec bit of an open-flag set.
pub const O_CLOEXEC: u32 = 0x80000;

/// A set of open flags, as a bit set.
#[derive(Clone, Copy, PartialEq, Eq, Structural)]
pub struct OpenFlags {
    pub bits: u32,
}

impl OpenFlags {
    /// Whether the close-on-exec bit is set.
    pub open spec fn has_cloexec(self) -> bool {
        self.bits & O_CLOEXEC != 0
    }

    /// The empty set.
    pub fn empty() -> (r: Self)
        ensures
            r.bits == 0,
    {
        OpenFlags { bits: 0 }
    }

    /// The set holding only the close-on-exec bit.
    pub fn cloexec() -> (r: Self)
        ensures
            r.bits == O_CLOEXEC,
    {
        OpenFlags { bits: O_CLOEXEC }
    }

    /// The set with exactly the bits of `bits`.
    pub fn from_bits(bits: u32) -> (r: Self)
        ensures
            r.bits == bits,
    {
        OpenFlags { bits }
    }

    /// The raw bits.
    pub fn bits(&self) -> (r: u32)
        ensures
            r == self.bits,
    {
        self.bits
    }

    /// Whether every bit of `other` is set here.
    pub fn contains(&self, other: OpenFlags) -> (r: bool)
        ensures
            r == (self.bits & other.bits == other.bits),
    {
        self.bits & other.bits == other.bits
    }

    /// This set with the close-on-exec bit set or cleared as `is_set` says,
    /// and every other bit kept.
    pub fn with_close_on_exec(&self, is_set: bool) -> (r: Self)
        ensures
            r.bits == if is_set {
                self.bits | O_CLOEXEC
            } else {
                self.bits & !O_CLOEXEC
            },
            r.has_cloexec() == is_set,
    {
        let b = self.bits;
        if is_set {
            assert((b | 0x80000u32) & 0x80000u32 != 0) by (bit_vector);
            OpenFlags { bits: b | O_CLOEXEC }
        } else {
            assert((b & !0x80000u32) & 0x80000u32 == 0) by (bit_vector);
            OpenFlags { bits: b & !O_CLOEXEC }
        }
    }
}

/// Flags stored after a status request: only the close-on-exec bit alone is
/// accepted, anything else leaves the stored flags as they were.
pub open spec fn status_after(stored: OpenFlags, requested: OpenFlags) -> OpenFlags {
    if requested.bits == O_CLOEXEC {
        requested
    } else {
        stored
    }
}

/// Sets the close-on-exec bit and then clears it: the set reports the bit
/// after the first step, not after the second, and its other bits survive
/// both.
pub proof fn lemma_close_on_exec_toggle(f: OpenFlags)
    ensures
        (f.bits | O_CLOEXEC) & O_CLOEXEC != 0,
        ((f.bits | O_CLOEXEC) & !O_CLOEXEC) & O_CLOEXEC == 0,
        (f.bits | O_CLOEXEC) & !O_CLOEXEC == f.bits & !O_CLOEXEC,
{
    let b = f.bits;
    assert((b | 0x80000u32) & 0x80000u32 != 0) by (bit_vector);
    assert(((b | 0x80000u32) & !0x80000u32) & 0x80000u32 == 0) by (bit_vector);
    assert((b | 0x80000u32) & !0x80000u32 == b & !0x80000u32) by (bit_vector);
}

/// Which standard stream an endpoint is.
#[derive(Clone, Copy, PartialEq, Eq, Structural, Debug)]
pub enum FileIOType {
    Stdin,
    Stdout,
    Stderr,
}

/// Recoverable failures of the standard stream endpoints.
#[derive(Clone, Copy, PartialEq, Eq, Structural, Debug)]
pub enum StdioError {
    /// The operation has no meaning on a console stream (seeking).
    Unsupported,
    /// The stream does not go in the requested direction.
    PermissionDenied,
}

/// A seek request.
#[derive(Clone, Copy, PartialEq, Eq, Structural, Debug)]
pub enum SeekFrom {
    Start(u64),
    End(i64),
    Current(i64),
}

/// File type bits of a character device.
pub const S_IFCHR: u32 = 0o20000;

/// Descriptor metadata of a console stream; every field not listed is zero.
#[derive(Clone, Copy, PartialEq, Eq, Structural, Debug)]
pub struct Stat {
    pub st_ino: u64,
    pub st_nlink: u32,
    pub st_mode: u32,
}

/// Readiness of a descriptor in each direction.
#[derive(Clone, Copy, PartialEq, Eq, Structural, Debug)]
pub struct PollState {
    pub readable: bool,
    pub writable: bool,
}

} // verus!
