//! Identities of watched resources and the registrations built on them.

use vstd::prelude::*;
use crate::kernel::EventFilter;

verus! {

/// A resource the kernel queue can watch.
#[derive(Clone, Debug)]
pub enum Ident {
    /// A file the watcher opened itself: its descriptor and its path.
    Filename(i32, String),
    /// A descriptor handed in by the caller.
    Fd(i32),
    /// A process id.
    Pid(i32),
    /// A signal number.
    Signal(i32),
    /// A timer id.
    Timer(i32),
}

impl Ident {
    /// The numeric value the kernel knows this identity by.
    pub open spec fn raw(self) -> i32 {
        match self {
            Ident::Filename(fd, _) => fd,
            Ident::Fd(fd) => fd,
            Ident::Pid(pid) => pid,
            Ident::Signal(sig) => sig,
            Ident::Timer(id) => id,
        }
    }

    /// Equality of identities: two named files are equal when their paths
    /// are, whatever their descriptors; any other identity is equal to one
    /// with the same numeric value.
    pub open spec fn same_as(self, other: Ident) -> bool {
        match self {
            Ident::Filename(_, name) => match other {
                Ident::Filename(_, other_name) => name@ == other_name@,
                _ => false,
            },
            _ => self.raw() == other.raw(),
        }
    }

    /// The numeric value the kernel knows this identity by.
    pub fn number(&self) -> (r: i32)
        ensures
            r == self.raw(),
    {
        match self {
            Ident::Filename(fd, _) => *fd,
            Ident::Fd(fd) => *fd,
            Ident::Pid(pid) => *pid,
            Ident::Signal(sig) => *sig,
            Ident::Timer(id) => *id,
        }
    }

    /// A copy of this identity.
    pub fn duplicate(&self) -> (r: Ident)
        ensures
            r == *self,
    {
        match self {
            Ident::Filename(fd, name) => Ident::Filename(*fd, name.clone()),
            Ident::Fd(fd) => Ident::Fd(*fd),
            Ident::Pid(pid) => Ident::Pid(*pid),
            Ident::Signal(sig) => Ident::Signal(*sig),
            Ident::Timer(id) => Ident::Timer(*id),
        }
    }

    /// The identity as the kernel's unsigned word.
    pub fn as_usize(&self) -> (r: usize)
        ensures
            r == self.raw() as usize,
    {
        match self {
            Ident::Filename(fd, _) => *fd as usize,
            Ident::Fd(fd) => *fd as usize,
            Ident::Pid(pid) => *pid as usize,
            Ident::Signal(sig) => *sig as usize,
            Ident::Timer(id) => *id as usize,
        }
    }
}

impl PartialEq for Ident {
    fn eq(&self, other: &Ident) -> (r: bool) {
        match self {
            Ident::Filename(_, name) => match other {
                Ident::Filename(_, other_name) => name.eq(other_name),
                _ => false,
            },
            _ => self.number() == other.number(),
        }
    }
}

impl vstd::std_specs::cmp::PartialEqSpecImpl for Ident {
    open spec fn obeys_eq_spec() -> bool {
        true
    }

    open spec fn eq_spec(&self, other: &Ident) -> bool {
        self.same_as(*other)
    }
}

impl From<Ident> for usize {
    fn from(id: Ident) -> (r: usize) {
        id.as_usize()
    }
}

impl vstd::std_specs::convert::FromSpecImpl<Ident> for usize {
    open spec fn obeys_from_spec() -> bool {
        true
    }

    open spec fn from_spec(id: Ident) -> usize {
        id.raw() as usize
    }
}

/// A registration: interest in `ident` under `filter`, with the filter's
/// sub-flags `flags`.
#[derive(Clone, Debug)]
pub struct Watched {
    pub filter: EventFilter,
    pub flags: u32,
    pub ident: Ident,
}

impl Watched {
    /// Two registrations are the same when filter, sub-flags and identity are.
    pub open spec fn same_as(self, other: Watched) -> bool {
        &&& self.filter == other.filter
        &&& self.flags == other.flags
        &&& self.ident.same_as(other.ident)
    }
}

impl Watched {
    /// A copy of this registration.
    pub fn duplicate(&self) -> (r: Watched)
        ensures
            r == *self,
    {
        Watched { filter: self.filter, flags: self.flags, ident: self.ident.duplicate() }
    }
}

impl PartialEq for Watched {
    fn eq(&self, other: &Watched) -> (r: bool) {
        self.filter == other.filter && self.flags == other.flags && self.ident == other.ident
    }
}

impl vstd::std_specs::cmp::PartialEqSpecImpl for Watched {
    open spec fn obeys_eq_spec() -> bool {
        true
    }

    open spec fn eq_spec(&self, other: &Watched) -> bool {
        self.same_as(*other)
    }
}

} // verus!
