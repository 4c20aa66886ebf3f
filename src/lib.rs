//! A client library over the BSD kqueue event-notification facility.
//!
//! The library keeps the registration list of a watcher, builds the change
//! records that are handed to the kernel, decides what each poll asks of the
//! kernel, and decodes the kernel's event records into typed events. The
//! kernel calls themselves are made by the caller with the values that the
//! library hands out.

pub mod kernel;
pub mod ident;
pub mod watcher;
pub mod event;

pub use event::{get_event, DecodeError, Event, EventData, Proc, Vnode};
pub use ident::{Ident, Watched};
pub use kernel::{
    ChangeRecord, EventFilter, OsError, RawEvent, Timeout, EV_ADD, EV_CLEAR, EV_DELETE,
    NOTE_ATTRIB, NOTE_CHILD, NOTE_DELETE, NOTE_EXEC, NOTE_EXIT, NOTE_EXTEND, NOTE_FORK, NOTE_LINK,
    NOTE_RENAME, NOTE_REVOKE, NOTE_TRACK, NOTE_TRACKERR, NOTE_WRITE,
};
pub use watcher::{find_file_ident, EventIter, KqueueOpts, Watcher};
