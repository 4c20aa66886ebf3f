//! Events, and their decoding from the kernel's event records.

use vstd::prelude::*;
use crate::ident::{Ident, Watched};
use crate::kernel::{
    filter_code, filter_of_code, EventFilter, OsError, RawEvent, NOTE_ATTRIB, NOTE_CHILD, NOTE_DELETE,
    NOTE_EXEC, NOTE_EXIT, NOTE_EXTEND, NOTE_FORK, NOTE_LINK, NOTE_RENAME, NOTE_REVOKE, NOTE_TRACK,
    NOTE_WRITE,
};
use crate::watcher::{find_file_ident, first_file, Watcher};

verus! {

/// What happened to a filesystem node.
#[derive(Clone, Copy, Debug, PartialEq, Eq, Structural)]
pub enum Vnode {
    Delete,
    Write,
    Extend,
    Truncate,
    Attrib,
    Link,
    Rename,
    Revoke,
}

/// What happened to a process.
#[derive(Clone, Copy, Debug, PartialEq, Eq, Structural)]
pub enum Proc {
    /// It exited, with this status.
    Exit(usize),
    Fork,
    Exec,
    /// A tracked process forked this child.
    Track(i32),
    Trackerr,
    /// This child of a tracked process was created.
    Child(i32),
}

/// The payload of an event.
#[derive(Clone, Copy, Debug, PartialEq, Eq, Structural)]
pub enum EventData {
    Vnode(Vnode),
    Proc(Proc),
    /// So many bytes can be read.
    ReadReady(usize),
    /// So much room there is to write.
    WriteReady(usize),
    /// The signal arrived so many times.
    Signal(usize),
    /// The timer fired so many times.
    Timer(usize),
    /// The wait on the kernel queue failed.
    Error(OsError),
}

/// An event: the identity it concerns and what happened.
#[derive(Debug)]
pub struct Event {
    pub ident: Ident,
    pub data: EventData,
}

/// Why a kernel event record could not be decoded.
#[derive(Clone, Copy, Debug, PartialEq, Eq, Structural)]
pub enum DecodeError {
    /// Its filter type or its sub-flags match no known case.
    Unsupported,
    /// It names a descriptor that no registration has.
    Unregistered,
}

/// Whether every bit of `flag` is set in `fflags`.
pub open spec fn has_flag(fflags: u32, flag: u32) -> bool {
    fflags & flag == flag
}

/// The filesystem-node change that sub-flags `fflags` report: the first of
/// delete, write, extend, attribute change, link, rename and revoke that is
/// set.
pub open spec fn vnode_of(fflags: u32) -> Option<Vnode> {
    if has_flag(fflags, NOTE_DELETE) {
        Some(Vnode::Delete)
    } else if has_flag(fflags, NOTE_WRITE) {
        Some(Vnode::Write)
    } else if has_flag(fflags, NOTE_EXTEND) {
        Some(Vnode::Extend)
    } else if has_flag(fflags, NOTE_ATTRIB) {
        Some(Vnode::Attrib)
    } else if has_flag(fflags, NOTE_LINK) {
        Some(Vnode::Link)
    } else if has_flag(fflags, NOTE_RENAME) {
        Some(Vnode::Rename)
    } else if has_flag(fflags, NOTE_REVOKE) {
        Some(Vnode::Revoke)
    } else {
        None
    }
}

/// The process change that sub-flags `fflags` report with `data`: the first
/// of exit, fork, exec, track and child that is set.
pub open spec fn proc_of(fflags: u32, data: i64) -> Option<Proc> {
    if has_flag(fflags, NOTE_EXIT) {
        Some(Proc::Exit(data as usize))
    } else if has_flag(fflags, NOTE_FORK) {
        Some(Proc::Fork)
    } else if has_flag(fflags, NOTE_EXEC) {
        Some(Proc::Exec)
    } else if has_flag(fflags, NOTE_TRACK) {
        Some(Proc::Track(data as i32))
    } else if has_flag(fflags, NOTE_CHILD) {
        Some(Proc::Child(data as i32))
    } else {
        None
    }
}

/// The payload of kernel record `ev`, if its filter and sub-flags are known.
pub open spec fn payload_of(ev: RawEvent) -> Option<EventData> {
    match filter_of_code(ev.filter) {
        Some(EventFilter::EVFILT_READ) => Some(EventData::ReadReady(ev.data as usize)),
        Some(EventFilter::EVFILT_WRITE) => Some(EventData::WriteReady(ev.data as usize)),
        Some(EventFilter::EVFILT_SIGNAL) => Some(EventData::Signal(ev.data as usize)),
        Some(EventFilter::EVFILT_TIMER) => Some(EventData::Timer(ev.data as usize)),
        Some(EventFilter::EVFILT_PROC) => match proc_of(ev.fflags, ev.data) {
            Some(p) => Some(EventData::Proc(p)),
            None => None,
        },
        Some(EventFilter::EVFILT_VNODE) => match vnode_of(ev.fflags) {
            Some(v) => Some(EventData::Vnode(v)),
            None => None,
        },
        None => None,
    }
}

/// The identity that kernel record `ev` concerns, given registrations `s`:
/// for the read, write and filesystem-node filters the registered file with
/// that descriptor; for the others the identity is read off the record.
pub open spec fn ident_of(ev: RawEvent, s: Seq<Watched>) -> Result<Ident, DecodeError> {
    match filter_of_code(ev.filter) {
        Some(EventFilter::EVFILT_READ) | Some(EventFilter::EVFILT_WRITE) | Some(
            EventFilter::EVFILT_VNODE,
        ) => match first_file(s, ev.ident as i32) {
            Some(id) => Ok(id),
            None => Err(DecodeError::Unregistered),
        },
        Some(EventFilter::EVFILT_SIGNAL) => Ok(Ident::Signal(ev.ident as i32)),
        Some(EventFilter::EVFILT_TIMER) => Ok(Ident::Timer(ev.ident as i32)),
        Some(EventFilter::EVFILT_PROC) => Ok(Ident::Pid(ev.ident as i32)),
        None => Err(DecodeError::Unsupported),
    }
}

/// The event that kernel record `ev` reports, given registrations `s`.
pub open spec fn decoded(ev: RawEvent, s: Seq<Watched>) -> Result<Event, DecodeError> {
    match payload_of(ev) {
        None => Err(DecodeError::Unsupported),
        Some(data) => match ident_of(ev, s) {
            Ok(ident) => Ok(Event { ident, data }),
            Err(e) => Err(e),
        },
    }
}

/// The event that reports a failed wait with error `err`, for the identity
/// of record `ev`, given registrations `s`.
pub open spec fn decoded_error(ev: RawEvent, err: OsError, s: Seq<Watched>) -> Result<Event, DecodeError> {
    match ident_of(ev, s) {
        Ok(ident) => Ok(Event { ident, data: EventData::Error(err) }),
        Err(e) => Err(e),
    }
}

/// What a wait that returned `ret` and wrote `ev` yields: a failed wait
/// (`-1`) the error event with `err`, a wait that timed out (`0`) no event,
/// and any other the decoded record.
pub open spec fn polled(ret: i32, ev: RawEvent, err: OsError, s: Seq<Watched>) -> Result<Option<Event>, DecodeError> {
    if ret == -1 {
        match decoded_error(ev, err, s) {
            Ok(e) => Ok(Some(e)),
            Err(e) => Err(e),
        }
    } else if ret == 0 {
        Ok(None)
    } else {
        match decoded(ev, s) {
            Ok(e) => Ok(Some(e)),
            Err(e) => Err(e),
        }
    }
}

/// The identity that kernel record `ev` concerns.
fn event_ident(ev: &RawEvent, watcher: &Watcher) -> (r: Result<Ident, DecodeError>)
    ensures
        r == ident_of(*ev, watcher.registrations()),
{
    match EventFilter::from_code(ev.filter) {
        Some(EventFilter::EVFILT_READ) | Some(EventFilter::EVFILT_WRITE) | Some(
            EventFilter::EVFILT_VNODE,
        ) => match find_file_ident(watcher, #[verifier::truncate] (ev.ident as i32)) {
            Some(id) => Ok(id),
            None => Err(DecodeError::Unregistered),
        },
        Some(EventFilter::EVFILT_SIGNAL) => Ok(Ident::Signal(#[verifier::truncate] (ev.ident as i32))),
        Some(EventFilter::EVFILT_TIMER) => Ok(Ident::Timer(#[verifier::truncate] (ev.ident as i32))),
        Some(EventFilter::EVFILT_PROC) => Ok(Ident::Pid(#[verifier::truncate] (ev.ident as i32))),
        None => Err(DecodeError::Unsupported),
    }
}

/// The payload of kernel record `ev`.
fn event_payload(ev: &RawEvent) -> (r: Option<EventData>)
    ensures
        r == payload_of(*ev),
{
    let count = #[verifier::truncate] (ev.data as usize);
    match EventFilter::from_code(ev.filter) {
        Some(EventFilter::EVFILT_READ) => Some(EventData::ReadReady(count)),
        Some(EventFilter::EVFILT_WRITE) => Some(EventData::WriteReady(count)),
        Some(EventFilter::EVFILT_SIGNAL) => Some(EventData::Signal(count)),
        Some(EventFilter::EVFILT_TIMER) => Some(EventData::Timer(count)),
        Some(EventFilter::EVFILT_PROC) => {
            let f = ev.fflags;
            let pid = #[verifier::truncate] (ev.data as i32);
            if f & NOTE_EXIT == NOTE_EXIT {
                Some(EventData::Proc(Proc::Exit(count)))
            } else if f & NOTE_FORK == NOTE_FORK {
                Some(EventData::Proc(Proc::Fork))
            } else if f & NOTE_EXEC == NOTE_EXEC {
                Some(EventData::Proc(Proc::Exec))
            } else if f & NOTE_TRACK == NOTE_TRACK {
                Some(EventData::Proc(Proc::Track(pid)))
            } else if f & NOTE_CHILD == NOTE_CHILD {
                Some(EventData::Proc(Proc::Child(pid)))
            } else {
                None
            }
        },
        Some(EventFilter::EVFILT_VNODE) => {
            let f = ev.fflags;
            if f & NOTE_DELETE == NOTE_DELETE {
                Some(EventData::Vnode(Vnode::Delete))
            } else if f & NOTE_WRITE == NOTE_WRITE {
                Some(EventData::Vnode(Vnode::Write))
            } else if f & NOTE_EXTEND == NOTE_EXTEND {
                Some(EventData::Vnode(Vnode::Extend))
            } else if f & NOTE_ATTRIB == NOTE_ATTRIB {
                Some(EventData::Vnode(Vnode::Attrib))
            } else if f & NOTE_LINK == NOTE_LINK {
                Some(EventData::Vnode(Vnode::Link))
            } else if f & NOTE_RENAME == NOTE_RENAME {
                Some(EventData::Vnode(Vnode::Rename))
            } else if f & NOTE_REVOKE == NOTE_REVOKE {
                Some(EventData::Vnode(Vnode::Revoke))
            } else {
                None
            }
        },
        None => None,
    }
}

impl Event {
    /// Decodes kernel record `ev` against the registrations of `watcher`.
    /// Fails with `Unsupported` when its filter or sub-flags match no known
    /// case, and with `Unregistered` when it names a descriptor that no
    /// registration has.
    pub fn new(ev: RawEvent, watcher: &Watcher) -> (r: Result<Event, DecodeError>)
        ensures
            r == decoded(ev, watcher.registrations()),
    {
        match event_payload(&ev) {
            None => Err(DecodeError::Unsupported),
            Some(data) => match event_ident(&ev, watcher) {
                Ok(ident) => Ok(Event { ident, data }),
                Err(e) => Err(e),
            },
        }
    }

    /// The event that reports a failed wait with error `err`, for the
    /// identity of record `ev` as `new` would decode it.
    pub fn from_error(ev: RawEvent, err: OsError, watcher: &Watcher) -> (r: Result<Event, DecodeError>)
        ensures
            r == decoded_error(ev, err, watcher.registrations()),
    {
        match event_ident(&ev, watcher) {
            Ok(ident) => Ok(Event { ident, data: EventData::Error(err) }),
            Err(e) => Err(e),
        }
    }

    /// Whether this event reports a failed wait.
    pub fn is_err(&self) -> (r: bool)
        ensures
            r == (self.data is Error),
    {
        match self.data {
            EventData::Error(_) => true,
            _ => false,
        }
    }
}

/// What a wait on the queue of `watcher` yields, from its return value
/// `ret`, the record `kev` it wrote, and the error `err` the system reported
/// when it failed.
pub fn get_event(watcher: &Watcher, ret: i32, kev: RawEvent, err: OsError) -> (r: Result<Option<Event>, DecodeError>)
    ensures
        r == polled(ret, kev, err, watcher.registrations()),
{
    if ret == -1 {
        match Event::from_error(kev, err, watcher) {
            Ok(e) => Ok(Some(e)),
            Err(e) => Err(e),
        }
    } else if ret == 0 {
        Ok(None)
    } else {
        match Event::new(kev, watcher) {
            Ok(e) => Ok(Some(e)),
            Err(e) => Err(e),
        }
    }
}

/// The sub-flag that reports filesystem-node change `v`; `0` for a
/// truncation, which no sub-flag reports.
pub open spec fn vnode_flag(v: Vnode) -> u32 {
    match v {
        Vnode::Delete => NOTE_DELETE,
        Vnode::Write => NOTE_WRITE,
        Vnode::Extend => NOTE_EXTEND,
        Vnode::Attrib => NOTE_ATTRIB,
        Vnode::Link => NOTE_LINK,
        Vnode::Rename => NOTE_RENAME,
        Vnode::Revoke => NOTE_REVOKE,
        Vnode::Truncate => 0,
    }
}

/// The sub-flag that reports process change `p`; `0` for a tracking
/// error, which no sub-flag reports.
pub open spec fn proc_flag(p: Proc) -> u32 {
    match p {
        Proc::Exit(_) => NOTE_EXIT,
        Proc::Fork => NOTE_FORK,
        Proc::Exec => NOTE_EXEC,
        Proc::Track(_) => NOTE_TRACK,
        Proc::Child(_) => NOTE_CHILD,
        Proc::Trackerr => 0,
    }
}

/// Whether record data `data` carries what process change `p` holds.
pub open spec fn proc_data_matches(p: Proc, data: i64) -> bool {
    match p {
        Proc::Exit(status) => status == data as usize,
        Proc::Track(pid) => pid == data as i32,
        Proc::Child(pid) => pid == data as i32,
        _ => true,
    }
}

/// A filesystem-node record whose sub-flags are exactly those of a change
/// decodes to that change and no other.
pub proof fn lemma_vnode_flag_round_trip(v: Vnode, ev: RawEvent)
    requires
        v != Vnode::Truncate,
        ev.filter == filter_code(EventFilter::EVFILT_VNODE),
        ev.fflags == vnode_flag(v),
    ensures
        payload_of(ev) == Some(EventData::Vnode(v)),
{
    match v {
        Vnode::Delete => {
            assert(0x1u32 & 0x1u32 == 0x1u32 && 0x1u32 & 0x2u32 != 0x2u32 && 0x1u32 & 0x4u32 != 0x4u32 && 0x1u32 & 0x8u32 != 0x8u32 && 0x1u32 & 0x10u32 != 0x10u32 && 0x1u32 & 0x20u32 != 0x20u32 && 0x1u32 & 0x40u32 != 0x40u32) by (bit_vector);
        },
        Vnode::Write => {
            assert(0x2u32 & 0x1u32 != 0x1u32 && 0x2u32 & 0x2u32 == 0x2u32 && 0x2u32 & 0x4u32 != 0x4u32 && 0x2u32 & 0x8u32 != 0x8u32 && 0x2u32 & 0x10u32 != 0x10u32 && 0x2u32 & 0x20u32 != 0x20u32 && 0x2u32 & 0x40u32 != 0x40u32) by (bit_vector);
        },
        Vnode::Extend => {
            assert(0x4u32 & 0x1u32 != 0x1u32 && 0x4u32 & 0x2u32 != 0x2u32 && 0x4u32 & 0x4u32 == 0x4u32 && 0x4u32 & 0x8u32 != 0x8u32 && 0x4u32 & 0x10u32 != 0x10u32 && 0x4u32 & 0x20u32 != 0x20u32 && 0x4u32 & 0x40u32 != 0x40u32) by (bit_vector);
        },
        Vnode::Attrib => {
            assert(0x8u32 & 0x1u32 != 0x1u32 && 0x8u32 & 0x2u32 != 0x2u32 && 0x8u32 & 0x4u32 != 0x4u32 && 0x8u32 & 0x8u32 == 0x8u32 && 0x8u32 & 0x10u32 != 0x10u32 && 0x8u32 & 0x20u32 != 0x20u32 && 0x8u32 & 0x40u32 != 0x40u32) by (bit_vector);
        },
        Vnode::Link => {
            assert(0x10u32 & 0x1u32 != 0x1u32 && 0x10u32 & 0x2u32 != 0x2u32 && 0x10u32 & 0x4u32 != 0x4u32 && 0x10u32 & 0x8u32 != 0x8u32 && 0x10u32 & 0x10u32 == 0x10u32 && 0x10u32 & 0x20u32 != 0x20u32 && 0x10u32 & 0x40u32 != 0x40u32) by (bit_vector);
        },
        Vnode::Rename => {
            assert(0x20u32 & 0x1u32 != 0x1u32 && 0x20u32 & 0x2u32 != 0x2u32 && 0x20u32 & 0x4u32 != 0x4u32 && 0x20u32 & 0x8u32 != 0x8u32 && 0x20u32 & 0x10u32 != 0x10u32 && 0x20u32 & 0x20u32 == 0x20u32 && 0x20u32 & 0x40u32 != 0x40u32) by (bit_vector);
        },
        Vnode::Revoke => {
            assert(0x40u32 & 0x1u32 != 0x1u32 && 0x40u32 & 0x2u32 != 0x2u32 && 0x40u32 & 0x4u32 != 0x4u32 && 0x40u32 & 0x8u32 != 0x8u32 && 0x40u32 & 0x10u32 != 0x10u32 && 0x40u32 & 0x20u32 != 0x20u32 && 0x40u32 & 0x40u32 == 0x40u32) by (bit_vector);
        },
        Vnode::Truncate => {},
    }
}

/// A process record whose sub-flags are exactly those of a change, and
/// whose data carries what the change holds, decodes to that change and no
/// other.
pub proof fn lemma_proc_flag_round_trip(p: Proc, ev: RawEvent)
    requires
        p != Proc::Trackerr,
        ev.filter == filter_code(EventFilter::EVFILT_PROC),
        ev.fflags == proc_flag(p),
        proc_data_matches(p, ev.data),
    ensures
        payload_of(ev) == Some(EventData::Proc(p)),
{
    match p {
        Proc::Exit(_) => {
            assert(0x80000000u32 & 0x80000000u32 == 0x80000000u32 && 0x80000000u32 & 0x40000000u32 != 0x40000000u32 && 0x80000000u32 & 0x20000000u32 != 0x20000000u32 && 0x80000000u32 & 0x1u32 != 0x1u32 && 0x80000000u32 & 0x4u32 != 0x4u32) by (bit_vector);
        },
        Proc::Fork => {
            assert(0x40000000u32 & 0x80000000u32 != 0x80000000u32 && 0x40000000u32 & 0x40000000u32 == 0x40000000u32 && 0x40000000u32 & 0x20000000u32 != 0x20000000u32 && 0x40000000u32 & 0x1u32 != 0x1u32 && 0x40000000u32 & 0x4u32 != 0x4u32) by (bit_vector);
        },
        Proc::Exec => {
            assert(0x20000000u32 & 0x80000000u32 != 0x80000000u32 && 0x20000000u32 & 0x40000000u32 != 0x40000000u32 && 0x20000000u32 & 0x20000000u32 == 0x20000000u32 && 0x20000000u32 & 0x1u32 != 0x1u32 && 0x20000000u32 & 0x4u32 != 0x4u32) by (bit_vector);
        },
        Proc::Track(_) => {
            assert(0x1u32 & 0x80000000u32 != 0x80000000u32 && 0x1u32 & 0x40000000u32 != 0x40000000u32 && 0x1u32 & 0x20000000u32 != 0x20000000u32 && 0x1u32 & 0x1u32 == 0x1u32 && 0x1u32 & 0x4u32 != 0x4u32) by (bit_vector);
        },
        Proc::Child(_) => {
            assert(0x4u32 & 0x80000000u32 != 0x80000000u32 && 0x4u32 & 0x40000000u32 != 0x40000000u32 && 0x4u32 & 0x20000000u32 != 0x20000000u32 && 0x4u32 & 0x1u32 != 0x1u32 && 0x4u32 & 0x4u32 == 0x4u32) by (bit_vector);
        },
        Proc::Trackerr => {},
    }
}

/// Records of the read, write, signal and timer filters carry their data as
/// a count, under the matching payload.
pub proof fn lemma_count_payloads(ev: RawEvent)
    ensures
        ev.filter == filter_code(EventFilter::EVFILT_READ) ==> payload_of(ev) == Some(EventData::ReadReady(ev.data as usize)),
        ev.filter == filter_code(EventFilter::EVFILT_WRITE) ==> payload_of(ev) == Some(EventData::WriteReady(ev.data as usize)),
        ev.filter == filter_code(EventFilter::EVFILT_SIGNAL) ==> payload_of(ev) == Some(EventData::Signal(ev.data as usize)),
        ev.filter == filter_code(EventFilter::EVFILT_TIMER) ==> payload_of(ev) == Some(EventData::Timer(ev.data as usize)),
{
}

/// A failed wait reports its error for the same identity that a successful
/// decode of the same record resolves; a record whose identity cannot be
/// resolved fails the same way in both.
pub proof fn lemma_error_event_ident(ev: RawEvent, err: OsError, s: Seq<Watched>)
    ensures
        decoded(ev, s) is Ok ==> decoded_error(ev, err, s) == Ok::<Event, DecodeError>(
            Event { ident: decoded(ev, s)->Ok_0.ident, data: EventData::Error(err) },
        ),
        match ident_of(ev, s) {
            Ok(id) => decoded_error(ev, err, s) == Ok::<Event, DecodeError>(Event { ident: id, data: EventData::Error(err) }),
            Err(e) => decoded_error(ev, err, s) == Err::<Event, DecodeError>(e),
        },
{
}

} // verus!
