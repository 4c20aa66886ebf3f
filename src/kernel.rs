//! The kernel's vocabulary: filter types, flag bits, and the records that
//! cross the boundary to the kernel event queue.

use vstd::prelude::*;
use std::time::Duration;

verus! {

/// Action flag of a change record: add the registration (or update it).
pub const EV_ADD: u16 = 0x0001;

/// Action flag of a change record: delete the registration.
pub const EV_DELETE: u16 = 0x0002;

/// Action flag of a change record: reset the event state after it is reported.
pub const EV_CLEAR: u16 = 0x0020;

/// Filesystem-node sub-flag: the node was removed.
pub const NOTE_DELETE: u32 = 0x0000_0001;

/// Filesystem-node sub-flag: the data contents changed.
pub const NOTE_WRITE: u32 = 0x0000_0002;

/// Filesystem-node sub-flag: the size increased.
pub const NOTE_EXTEND: u32 = 0x0000_0004;

/// Filesystem-node sub-flag: the attributes changed.
pub const NOTE_ATTRIB: u32 = 0x0000_0008;

/// Filesystem-node sub-flag: the link count changed.
pub const NOTE_LINK: u32 = 0x0000_0010;

/// Filesystem-node sub-flag: the node was renamed.
pub const NOTE_RENAME: u32 = 0x0000_0020;

/// Filesystem-node sub-flag: access to the node was revoked.
pub const NOTE_REVOKE: u32 = 0x0000_0040;

/// Process sub-flag: the process exited.
pub const NOTE_EXIT: u32 = 0x8000_0000;

/// Process sub-flag: the process forked.
pub const NOTE_FORK: u32 = 0x4000_0000;

/// Process sub-flag: the process called exec.
pub const NOTE_EXEC: u32 = 0x2000_0000;

/// Process sub-flag: follow the process across forks.
pub const NOTE_TRACK: u32 = 0x0000_0001;

/// Process sub-flag: tracking a child failed.
pub const NOTE_TRACKERR: u32 = 0x0000_0002;

/// Process sub-flag: this is a child of a tracked process.
pub const NOTE_CHILD: u32 = 0x0000_0004;

/// The filter types this library registers and decodes.
#[allow(non_camel_case_types)]
#[derive(Clone, Copy, Debug, PartialEq, Eq, Structural)]
pub enum EventFilter {
    EVFILT_READ,
    EVFILT_WRITE,
    EVFILT_VNODE,
    EVFILT_PROC,
    EVFILT_SIGNAL,
    EVFILT_TIMER,
}

/// The kernel's numeric code of a filter type.
pub open spec fn filter_code(f: EventFilter) -> i16 {
    match f {
        EventFilter::EVFILT_READ => -1i16,
        EventFilter::EVFILT_WRITE => -2i16,
        EventFilter::EVFILT_VNODE => -4i16,
        EventFilter::EVFILT_PROC => -5i16,
        EventFilter::EVFILT_SIGNAL => -6i16,
        EventFilter::EVFILT_TIMER => -7i16,
    }
}

/// The filter type whose kernel code is `code`, if it is one this library knows.
pub open spec fn filter_of_code(code: i16) -> Option<EventFilter> {
    if code == -1 {
        Some(EventFilter::EVFILT_READ)
    } else if code == -2 {
        Some(EventFilter::EVFILT_WRITE)
    } else if code == -4 {
        Some(EventFilter::EVFILT_VNODE)
    } else if code == -5 {
        Some(EventFilter::EVFILT_PROC)
    } else if code == -6 {
        Some(EventFilter::EVFILT_SIGNAL)
    } else if code == -7 {
        Some(EventFilter::EVFILT_TIMER)
    } else {
        None
    }
}

impl EventFilter {
    /// The kernel's numeric code of this filter type.
    pub fn code(&self) -> (r: i16)
        ensures
            r == filter_code(*self),
    {
        match self {
            EventFilter::EVFILT_READ => -1,
            EventFilter::EVFILT_WRITE => -2,
            EventFilter::EVFILT_VNODE => -4,
            EventFilter::EVFILT_PROC => -5,
            EventFilter::EVFILT_SIGNAL => -6,
            EventFilter::EVFILT_TIMER => -7,
        }
    }

    /// The filter type with kernel code `code`; `None` for a code outside the
    /// supported set.
    pub fn from_code(code: i16) -> (r: Option<EventFilter>)
        ensures
            r == filter_of_code(code),
    {
        match code {
            -1 => Some(EventFilter::EVFILT_READ),
            -2 => Some(EventFilter::EVFILT_WRITE),
            -4 => Some(EventFilter::EVFILT_VNODE),
            -5 => Some(EventFilter::EVFILT_PROC),
            -6 => Some(EventFilter::EVFILT_SIGNAL),
            -7 => Some(EventFilter::EVFILT_TIMER),
            _ => None,
        }
    }
}

/// Every filter type is recovered from its kernel code.
pub proof fn lemma_filter_code_round_trip(f: EventFilter)
    ensures
        filter_of_code(filter_code(f)) == Some(f),
{
}

/// One record of a change list: asks the kernel to add or delete interest in
/// `ident` under `filter`. Its data field is always zero.
#[derive(Clone, Copy, Debug, PartialEq, Eq, Structural)]
pub struct ChangeRecord {
    pub ident: usize,
    pub filter: EventFilter,
    pub flags: u16,
    pub fflags: u32,
}

/// One event record as the kernel wrote it.
#[derive(Clone, Copy, Debug, PartialEq, Eq, Structural)]
pub struct RawEvent {
    pub ident: usize,
    pub filter: i16,
    pub flags: u16,
    pub fflags: u32,
    pub data: i64,
}

/// How long a wait on the kernel queue may block.
#[derive(Clone, Copy, Debug)]
pub enum Timeout {
    /// Block until an event arrives.
    Block,
    /// Block at most this long.
    Deadline(Duration),
    /// Do not block at all.
    Immediate,
}

/// An error the operating system reported, by its error number.
#[derive(Clone, Copy, Debug, PartialEq, Eq, Structural)]
pub struct OsError {
    pub code: i32,
}

} // verus!
