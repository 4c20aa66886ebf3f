//! The watcher: its registration list, its commit state and its options.

use vstd::prelude::*;
use crate::ident::{Ident, Watched};
use crate::kernel::{ChangeRecord, EventFilter, OsError, Timeout, EV_ADD, EV_CLEAR, EV_DELETE};
use std::time::Duration;

verus! {

/// Options of a watcher.
#[derive(Debug)]
pub struct KqueueOpts {
    clear: bool,
}

impl KqueueOpts {
    /// Whether registrations ask the kernel to clear event state after each
    /// report.
    pub closed spec fn clears(&self) -> bool {
        self.clear
    }
}

impl Default for KqueueOpts {
    fn default() -> (r: KqueueOpts)
        ensures
            r.clears(),
    {
        KqueueOpts { clear: true }
    }
}

/// Whether some registration of `s` is the same as `w`.
pub open spec fn registered(s: Seq<Watched>, w: Watched) -> bool {
    exists|i: int| 0 <= i < s.len() && #[trigger] s[i].same_as(w)
}

/// The registration list after asking to add `w`: unchanged when an equal
/// registration is already there, else `w` appended.
pub open spec fn with_registration(s: Seq<Watched>, w: Watched) -> Seq<Watched> {
    if registered(s, w) {
        s
    } else {
        s.push(w)
    }
}

/// No registration of `s` is the same as a later one.
pub open spec fn distinct_registrations(s: Seq<Watched>) -> bool {
    forall|i: int, j: int| 0 <= i < j < s.len() ==> !(#[trigger] s[i].same_as(#[trigger] s[j]))
}

/// Whether removing `target` drops a registration of `id`: a named file is
/// matched by its path, any other identity by its kind and its value.
pub open spec fn removal_match(id: Ident, target: Ident) -> bool {
    match target {
        Ident::Filename(_, name) => match id {
            Ident::Filename(_, n) => n@ == name@,
            _ => false,
        },
        Ident::Fd(fd) => id == Ident::Fd(fd),
        Ident::Pid(pid) => id == Ident::Pid(pid),
        Ident::Signal(sig) => id == Ident::Signal(sig),
        Ident::Timer(t) => id == Ident::Timer(t),
    }
}

/// The registrations that a removal of `target` keeps.
pub open spec fn survives_removal(target: Ident) -> spec_fn(Watched) -> bool {
    |w: Watched| !removal_match(w.ident, target)
}

/// The registration list after removing every registration of `target`,
/// whatever its filter; the order of the others is kept.
pub open spec fn without(s: Seq<Watched>, target: Ident) -> Seq<Watched> {
    s.filter(survives_removal(target))
}

/// The descriptor of the last registration in `s` that removing `target`
/// drops and that is a named file; `0` when there is none.
pub open spec fn removed_file_fd(s: Seq<Watched>, target: Ident) -> i32
    decreases s.len(),
{
    if s.len() == 0 {
        0
    } else if removal_match(s.last().ident, target) && s.last().ident is Filename {
        s.last().ident.raw()
    } else {
        removed_file_fd(s.drop_last(), target)
    }
}

/// The record that deletes interest in `ident` under `filter`.
pub open spec fn deletion(ident: Ident, filter: EventFilter) -> ChangeRecord {
    ChangeRecord { ident: ident.raw() as usize, filter, flags: EV_DELETE, fflags: 0 }
}

/// The action flags of a commit: add, and clear event state after each
/// report when `clear` holds.
pub open spec fn add_flags(clear: bool) -> u16 {
    if clear {
        EV_ADD | EV_CLEAR
    } else {
        EV_ADD
    }
}

/// The record that a commit hands the kernel for registration `w`.
pub open spec fn change_of(w: Watched, clear: bool) -> ChangeRecord {
    ChangeRecord { ident: w.ident.raw() as usize, filter: w.filter, flags: add_flags(clear), fflags: w.flags }
}

/// The change list of a commit: one record per registration, in order.
pub open spec fn change_list(s: Seq<Watched>, clear: bool) -> Seq<ChangeRecord> {
    s.map_values(|w: Watched| change_of(w, clear))
}

/// The wait a poll asks of the kernel: none before the first successful
/// commit; else the deadline given, or no blocking at all when none is.
pub open spec fn poll_wait(started: bool, timeout: Option<Duration>) -> Option<Timeout> {
    if !started {
        None
    } else {
        match timeout {
            Some(d) => Some(Timeout::Deadline(d)),
            None => Some(Timeout::Immediate),
        }
    }
}

/// Whether `id` is a file identity, named or handed in, with descriptor `fd`.
pub open spec fn is_file_of(id: Ident, fd: i32) -> bool {
    match id {
        Ident::Filename(f, _) => f == fd,
        Ident::Fd(f) => f == fd,
        _ => false,
    }
}

/// The identity of the first registration of `s` that is a file with
/// descriptor `fd`, if any.
pub open spec fn first_file(s: Seq<Watched>, fd: i32) -> Option<Ident>
    decreases s.len(),
{
    if s.len() == 0 {
        None
    } else {
        match first_file(s.drop_last(), fd) {
            Some(id) => Some(id),
            None => if is_file_of(s.last().ident, fd) {
                Some(s.last().ident)
            } else {
                None
            },
        }
    }
}

/// Whether a watcher with queue `queue` and registrations `s` owns
/// descriptor `fd`.
pub open spec fn owns_fd(s: Seq<Watched>, queue: i32, fd: i32) -> bool {
    fd == queue || exists|i: int| 0 <= i < s.len() && is_file_of(#[trigger] s[i].ident, fd)
}

/// Registering the same path twice, under the same filter and sub-flags,
/// leaves as many registrations after the second time as after the first,
/// whatever descriptors the two openings gave. The one exception: when the
/// first registration was absorbed by one that the second does not match
/// (a descriptor registration with the first opening's number).
pub proof fn lemma_filename_registered_once(
    s: Seq<Watched>,
    name: String,
    fd1: i32,
    fd2: i32,
    filter: EventFilter,
    flags: u32,
)
    requires
        registered(s, Watched { filter, flags, ident: Ident::Filename(fd1, name) }) ==> registered(
            s,
            Watched { filter, flags, ident: Ident::Filename(fd2, name) },
        ),
    ensures
        ({
            let once = with_registration(s, Watched { filter, flags, ident: Ident::Filename(fd1, name) });
            with_registration(once, Watched { filter, flags, ident: Ident::Filename(fd2, name) }).len() == once.len()
        }),
{
    let w1 = Watched { filter, flags, ident: Ident::Filename(fd1, name) };
    let w2 = Watched { filter, flags, ident: Ident::Filename(fd2, name) };
    let once = with_registration(s, w1);
    if !registered(s, w1) {
        assert(once[s.len() as int].same_as(w2));
    }
    assert(registered(once, w2));
}

/// A commit before any registration hands the kernel no change record.
pub proof fn lemma_commit_without_registrations(w: Watcher)
    requires
        w.registrations().len() == 0,
    ensures
        change_list(w.registrations(), w.clears()).len() == 0,
{
}

/// Removing a path that no registration has leaves the registrations as
/// they are and deletes interest in descriptor `0`, which the kernel treats
/// as inert.
pub proof fn lemma_remove_absent_path(s: Seq<Watched>, name: String)
    requires
        forall|i: int| 0 <= i < s.len() ==> !removal_match(#[trigger] s[i].ident, Ident::Filename(0, name)),
    ensures
        without(s, Ident::Filename(0, name)) == s,
        removed_file_fd(s, Ident::Filename(0, name)) == 0,
    decreases s.len(),
{
    reveal(Seq::filter);
    if s.len() > 0 {
        lemma_remove_absent_path(s.drop_last(), name);
        assert(s.drop_last().push(s.last()) =~= s);
    }
}

/// A watcher over one kernel event queue.
///
/// The watcher owns its queue descriptor and every descriptor that is
/// registered with it, whether it opened the descriptor itself (a named
/// file) or was handed it (a descriptor): all of them are closed when the
/// watcher is torn down.
#[derive(Debug)]
pub struct Watcher {
    watched: Vec<Watched>,
    queue: i32,
    started: bool,
    opts: KqueueOpts,
}

impl Watcher {
    /// The registrations, in the order they were added.
    pub closed spec fn registrations(&self) -> Seq<Watched> {
        self.watched@
    }

    /// The descriptor of the kernel queue.
    pub closed spec fn queue_fd(&self) -> i32 {
        self.queue
    }

    /// Whether a commit has succeeded.
    pub closed spec fn is_started(&self) -> bool {
        self.started
    }

    /// Whether registrations ask the kernel to clear event state after each
    /// report.
    pub closed spec fn clears(&self) -> bool {
        self.opts.clears()
    }

    /// The watcher's invariant: no two registrations are the same.
    pub closed spec fn wf(&self) -> bool {
        distinct_registrations(self.watched@)
    }

    /// The registrations, in the order they were added.
    pub fn watched(&self) -> (r: &Vec<Watched>)
        ensures
            r@ == self.registrations(),
    {
        &self.watched
    }

    /// Whether a commit has succeeded.
    pub fn started(&self) -> (r: bool)
        ensures
            r == self.is_started(),
    {
        self.started
    }

    /// The descriptor of the kernel queue.
    pub fn queue(&self) -> (r: i32)
        ensures
            r == self.queue_fd(),
    {
        self.queue
    }

    /// A watcher over the kernel queue `queue`, with no registration, not
    /// started, clearing event state after each report.
    pub fn new(queue: i32) -> (r: Watcher)
        ensures
            r.wf(),
            r.registrations() == Seq::<Watched>::empty(),
            r.queue_fd() == queue,
            !r.is_started(),
            r.clears(),
    {
        Watcher { watched: Vec::new(), queue, started: false, opts: KqueueOpts::default() }
    }

    /// Registrations committed from now on do not ask the kernel to clear
    /// event state after each report.
    pub fn disable_clears(&mut self)
        ensures
            final(self).registrations() == old(self).registrations(),
            final(self).queue_fd() == old(self).queue_fd(),
            final(self).is_started() == old(self).is_started(),
            final(self).wf() == old(self).wf(),
            !final(self).clears(),
    {
        self.opts.clear = false;
    }

    /// Appends `watch` unless an equal registration is already there.
    fn insert(&mut self, watch: Watched)
        requires
            old(self).wf(),
        ensures
            final(self).wf(),
            final(self).registrations() == with_registration(old(self).registrations(), watch),
            final(self).queue_fd() == old(self).queue_fd(),
            final(self).is_started() == old(self).is_started(),
            final(self).clears() == old(self).clears(),
    {
        let mut i: usize = 0;
        let mut found = false;
        while i < self.watched.len()
            invariant
                0 <= i <= self.watched.len(),
                self.watched@ == old(self).watched@,
                found <==> registered(self.watched@.subrange(0, i as int), watch),
            decreases self.watched.len() - i,
        {
            if !found && self.watched[i] == watch {
                found = true;
            }
            proof {
                let s = self.watched@;
                if registered(s.subrange(0, i as int), watch) {
                    let k = choose|k: int| 0 <= k < i && #[trigger] s.subrange(0, i as int)[k].same_as(watch);
                    assert(s.subrange(0, i + 1)[k] == s.subrange(0, i as int)[k]);
                }
                if s[i as int].same_as(watch) {
                    assert(s.subrange(0, i + 1)[i as int] == s[i as int]);
                }
                if registered(s.subrange(0, i + 1), watch) {
                    let k = choose|k: int| 0 <= k < i + 1 && #[trigger] s.subrange(0, i + 1)[k].same_as(watch);
                    if k < i {
                        assert(s.subrange(0, i as int)[k] == s.subrange(0, i + 1)[k]);
                    }
                }
            }
            i = i + 1;
        }
        assert(self.watched@.subrange(0, i as int) =~= self.watched@);
        if !found {
            self.watched.push(watch);
        }
    }

    /// Registers interest in process `pid` under `filter` with sub-flags
    /// `flags`; an equal registration already there makes this a no-op.
    pub fn add_pid(&mut self, pid: i32, filter: EventFilter, flags: u32)
        requires
            old(self).wf(),
        ensures
            final(self).wf(),
            final(self).registrations() == with_registration(
                old(self).registrations(),
                Watched { filter, flags, ident: Ident::Pid(pid) },
            ),
            final(self).queue_fd() == old(self).queue_fd(),
            final(self).is_started() == old(self).is_started(),
            final(self).clears() == old(self).clears(),
    {
        self.insert(Watched { filter, flags, ident: Ident::Pid(pid) });
    }

    /// Registers interest in the file at `filename`, which the caller opened
    /// for reading as descriptor `fd` on the watcher's behalf; a registration
    /// with the same path, filter and sub-flags already there makes this a
    /// no-op.
    pub fn add_filename(&mut self, filename: String, fd: i32, filter: EventFilter, flags: u32)
        requires
            old(self).wf(),
        ensures
            final(self).wf(),
            final(self).registrations() == with_registration(
                old(self).registrations(),
                Watched { filter, flags, ident: Ident::Filename(fd, filename) },
            ),
            final(self).queue_fd() == old(self).queue_fd(),
            final(self).is_started() == old(self).is_started(),
            final(self).clears() == old(self).clears(),
    {
        self.insert(Watched { filter, flags, ident: Ident::Filename(fd, filename) });
    }

    /// Registers interest in descriptor `fd`, which the watcher owns from
    /// now on; an equal registration already there makes this a no-op.
    pub fn add_fd(&mut self, fd: i32, filter: EventFilter, flags: u32)
        requires
            old(self).wf(),
        ensures
            final(self).wf(),
            final(self).registrations() == with_registration(
                old(self).registrations(),
                Watched { filter, flags, ident: Ident::Fd(fd) },
            ),
            final(self).queue_fd() == old(self).queue_fd(),
            final(self).is_started() == old(self).is_started(),
            final(self).clears() == old(self).clears(),
    {
        self.insert(Watched { filter, flags, ident: Ident::Fd(fd) });
    }
    /// Drops every registration of `target`, keeping the order of the
    /// others, and returns the descriptor of the last named file dropped
    /// (`0` when none was).
    fn remove_matching(&mut self, target: &Ident) -> (fd: i32)
        requires
            old(self).wf(),
        ensures
            final(self).wf(),
            final(self).registrations() == without(old(self).registrations(), *target),
            fd == removed_file_fd(old(self).registrations(), *target),
            final(self).queue_fd() == old(self).queue_fd(),
            final(self).is_started() == old(self).is_started(),
            final(self).clears() == old(self).clears(),
    {
        let ghost s = self.watched@;
        let ghost pred = survives_removal(*target);
        let mut kept: Vec<Watched> = Vec::new();
        let mut fd: i32 = 0;
        let mut i: usize = 0;
        while i < self.watched.len()
            invariant
                0 <= i <= self.watched.len(),
                self.watched@ == s,
                distinct_registrations(s),
                pred == survives_removal(*target),
                kept@ == s.subrange(0, i as int).filter(pred),
                fd == removed_file_fd(s.subrange(0, i as int), *target),
                distinct_registrations(kept@),
                forall|k: int| 0 <= k < kept@.len() ==> exists|j: int| 0 <= j < i && #[trigger] kept@[k] == s[j],
            decreases self.watched.len() - i,
        {
            let w = &self.watched[i];
            let hit = removal_matches(&w.ident, target);
            let ghost before = kept@;
            if !hit {
                kept.push(w.duplicate());
                proof {
                    assert forall|a: int, b: int| 0 <= a < b < kept@.len() implies !(#[trigger] kept@[a].same_as(#[trigger] kept@[b])) by {
                        if b == kept@.len() - 1 {
                            let j = choose|j: int| 0 <= j < i && #[trigger] kept@[a] == s[j];
                            assert(!s[j].same_as(s[i as int]));
                        }
                    }
                    assert forall|k: int| 0 <= k < kept@.len() implies exists|j: int| 0 <= j < i + 1 && #[trigger] kept@[k] == s[j] by {
                        if k == kept@.len() - 1 {
                            assert(kept@[k] == s[i as int]);
                        } else {
                            let j = choose|j: int| 0 <= j < i && #[trigger] kept@[k] == s[j];
                            assert(kept@[k] == s[j]);
                        }
                    }
                }
            } else {
                if let Ident::Filename(f, _) = &w.ident {
                    fd = *f;
                }
            }
            proof {
                reveal(Seq::filter);
                assert(s.subrange(0, i + 1).drop_last() =~= s.subrange(0, i as int));
                assert(s.subrange(0, i + 1).last() == s[i as int]);
                assert(pred(s[i as int]) == !removal_match(s[i as int].ident, *target));
                if !hit {
                    assert(kept@ =~= before.push(s[i as int]));
                }
            }
            i = i + 1;
        }
        assert(s.subrange(0, i as int) =~= s);
        self.watched = kept;
        fd
    }

    /// The record that deletes interest in `ident` under `filter`.
    fn delete_kevents(ident: &Ident, filter: EventFilter) -> (r: ChangeRecord)
        ensures
            r == deletion(*ident, filter),
    {
        ChangeRecord { ident: ident.as_usize(), filter, flags: EV_DELETE, fflags: 0 }
    }

    /// Registers interest in signal `sig` under `filter` with sub-flags
    /// `flags`; an equal registration already there makes this a no-op.
    pub fn add_signal(&mut self, sig: i32, filter: EventFilter, flags: u32)
        requires
            old(self).wf(),
        ensures
            final(self).wf(),
            final(self).registrations() == with_registration(
                old(self).registrations(),
                Watched { filter, flags, ident: Ident::Signal(sig) },
            ),
            final(self).queue_fd() == old(self).queue_fd(),
            final(self).is_started() == old(self).is_started(),
            final(self).clears() == old(self).clears(),
    {
        self.insert(Watched { filter, flags, ident: Ident::Signal(sig) });
    }

    /// Registers interest in timer `id` under `filter` with sub-flags
    /// `flags`; an equal registration already there makes this a no-op.
    pub fn add_timer(&mut self, id: i32, filter: EventFilter, flags: u32)
        requires
            old(self).wf(),
        ensures
            final(self).wf(),
            final(self).registrations() == with_registration(
                old(self).registrations(),
                Watched { filter, flags, ident: Ident::Timer(id) },
            ),
            final(self).queue_fd() == old(self).queue_fd(),
            final(self).is_started() == old(self).is_started(),
            final(self).clears() == old(self).clears(),
    {
        self.insert(Watched { filter, flags, ident: Ident::Timer(id) });
    }

    /// Drops every registration of process `pid`, whatever its filter, and
    /// returns the record that deletes the kernel's interest in `pid` under
    /// `filter`.
    pub fn remove_pid(&mut self, pid: i32, filter: EventFilter) -> (r: ChangeRecord)
        requires
            old(self).wf(),
        ensures
            final(self).wf(),
            final(self).registrations() == without(old(self).registrations(), Ident::Pid(pid)),
            r == deletion(Ident::Pid(pid), filter),
            final(self).queue_fd() == old(self).queue_fd(),
            final(self).is_started() == old(self).is_started(),
            final(self).clears() == old(self).clears(),
    {
        let target = Ident::Pid(pid);
        self.remove_matching(&target);
        Self::delete_kevents(&target, filter)
    }

    /// Drops every registration of descriptor `fd`, whatever its filter,
    /// and returns the record that deletes the kernel's interest in `fd`
    /// under `filter`.
    pub fn remove_fd(&mut self, fd: i32, filter: EventFilter) -> (r: ChangeRecord)
        requires
            old(self).wf(),
        ensures
            final(self).wf(),
            final(self).registrations() == without(old(self).registrations(), Ident::Fd(fd)),
            r == deletion(Ident::Fd(fd), filter),
            final(self).queue_fd() == old(self).queue_fd(),
            final(self).is_started() == old(self).is_started(),
            final(self).clears() == old(self).clears(),
    {
        let target = Ident::Fd(fd);
        self.remove_matching(&target);
        Self::delete_kevents(&target, filter)
    }

    /// Drops every registration of the file at `filename`, whatever its
    /// filter, and returns the record that deletes the kernel's interest
    /// under `filter` in the descriptor of the last one dropped. When no
    /// registration has that path the list is unchanged and the record
    /// names descriptor `0`, which the kernel treats as inert.
    pub fn remove_filename(&mut self, filename: &String, filter: EventFilter) -> (r: ChangeRecord)
        requires
            old(self).wf(),
        ensures
            final(self).wf(),
            final(self).registrations() == without(
                old(self).registrations(),
                Ident::Filename(0, *filename),
            ),
            r == deletion(
                Ident::Fd(removed_file_fd(old(self).registrations(), Ident::Filename(0, *filename))),
                filter,
            ),
            final(self).queue_fd() == old(self).queue_fd(),
            final(self).is_started() == old(self).is_started(),
            final(self).clears() == old(self).clears(),
    {
        let target = Ident::Filename(0, filename.clone());
        let fd = self.remove_matching(&target);
        Self::delete_kevents(&Ident::Fd(fd), filter)
    }

    /// The change list of a commit: one record per registration, in
    /// order, each adding interest (and clearing event state after each
    /// report unless clears are disabled).
    pub fn changes(&self) -> (r: Vec<ChangeRecord>)
        ensures
            r@ == change_list(self.registrations(), self.clears()),
    {
        let flags: u16 = if self.opts.clear {
            EV_ADD | EV_CLEAR
        } else {
            EV_ADD
        };
        let mut kevs: Vec<ChangeRecord> = Vec::new();
        let mut i: usize = 0;
        while i < self.watched.len()
            invariant
                0 <= i <= self.watched.len(),
                flags == add_flags(self.opts.clear),
                kevs@ == change_list(self.watched@.subrange(0, i as int), self.opts.clear),
            decreases self.watched.len() - i,
        {
            let w = &self.watched[i];
            kevs.push(ChangeRecord { ident: w.ident.as_usize(), filter: w.filter, flags, fflags: w.flags });
            proof {
                assert(self.watched@.subrange(0, i + 1) =~= self.watched@.subrange(0, i as int).push(self.watched@[i as int]));
                assert(kevs@ =~= change_list(self.watched@.subrange(0, i + 1), self.opts.clear));
            }
            i = i + 1;
        }
        assert(self.watched@.subrange(0, i as int) =~= self.watched@);
        kevs
    }

    /// Records the outcome of submitting the change list of a commit: the
    /// watcher is started once a submission has succeeded. The outcome is
    /// handed back.
    pub fn watch(&mut self, submitted: Result<(), OsError>) -> (r: Result<(), OsError>)
        ensures
            r == submitted,
            final(self).is_started() == (old(self).is_started() || submitted is Ok),
            final(self).registrations() == old(self).registrations(),
            final(self).queue_fd() == old(self).queue_fd(),
            final(self).clears() == old(self).clears(),
            final(self).wf() == old(self).wf(),
    {
        if submitted.is_ok() {
            self.started = true;
        }
        submitted
    }

    /// The wait a poll asks of the kernel, or `None` when the poll yields no
    /// event without asking: before the first successful commit. A poll
    /// without a deadline does not block.
    pub fn poll(&self, timeout: Option<Duration>) -> (r: Option<Timeout>)
        ensures
            r == poll_wait(self.is_started(), timeout),
    {
        if !self.started {
            None
        } else {
            match timeout {
                Some(d) => Some(Timeout::Deadline(d)),
                None => Some(Timeout::Immediate),
            }
        }
    }

    /// The sequence of events of this watcher.
    pub fn iter(&self) -> (r: EventIter<'_>)
        ensures
            r.watcher() == *self,
    {
        EventIter { watcher: self }
    }

    /// The descriptors the watcher owns, each once: its queue and every
    /// registered file descriptor. Tearing the watcher down closes them.
    pub fn descriptors_to_close(&self) -> (r: Vec<i32>)
        ensures
            r@.no_duplicates(),
            forall|fd: i32| r@.contains(fd) <==> owns_fd(self.registrations(), self.queue_fd(), fd),
    {
        let mut fds: Vec<i32> = Vec::new();
        fds.push(self.queue);
        proof {
            assert forall|fd: i32| fds@.contains(fd) <==> fd == self.queue by {
                if fd == self.queue {
                    assert(fds@[0] == fd);
                }
            }
        }
        let mut i: usize = 0;
        while i < self.watched.len()
            invariant
                0 <= i <= self.watched.len(),
                fds@.no_duplicates(),
                forall|fd: i32| fds@.contains(fd) <==> (fd == self.queue || exists|j: int| 0 <= j < i && is_file_of(#[trigger] self.watched@[j].ident, fd)),
            decreases self.watched.len() - i,
        {
            let fd: Option<i32> = match &self.watched[i].ident {
                Ident::Filename(f, _) => Some(*f),
                Ident::Fd(f) => Some(*f),
                _ => None,
            };
            let ghost before = fds@;
            if let Some(f) = fd {
                if !holds(&fds, f) {
                    fds.push(f);
                    proof {
                        assert forall|x: i32| fds@.contains(x) <==> (before.contains(x) || x == f) by {
                            if x == f {
                                assert(fds@[fds@.len() - 1] == x);
                            }
                            if before.contains(x) {
                                let k = choose|k: int| 0 <= k < before.len() && before[k] == x;
                                assert(fds@[k] == x);
                            }
                        }
                    }
                }
            }
            proof {
                let w = self.watched@[i as int];
                assert forall|x: i32| is_file_of(w.ident, x) <==> fd == Some(x) by {}
                assert forall|x: i32| fds@.contains(x) <==> (before.contains(x) || fd == Some(x)) by {}
                assert forall|x: i32| fds@.contains(x) <==> (x == self.queue || exists|j: int| 0 <= j < i + 1 && is_file_of(#[trigger] self.watched@[j].ident, x)) by {
                    if exists|j: int| 0 <= j < i + 1 && is_file_of(#[trigger] self.watched@[j].ident, x) {
                        let j = choose|j: int| 0 <= j < i + 1 && is_file_of(#[trigger] self.watched@[j].ident, x);
                        if j == i {
                            assert(fd == Some(x));
                        } else {
                            assert(before.contains(x));
                        }
                    }
                    if fds@.contains(x) && !before.contains(x) && x != self.queue {
                        assert(is_file_of(self.watched@[i as int].ident, x));
                    }
                }
            }
            i = i + 1;
        }
        fds
    }
}

/// The identity under which descriptor `fd` was registered: the first
/// registration of a file with that descriptor, named or handed in.
pub fn find_file_ident(watcher: &Watcher, fd: i32) -> (r: Option<Ident>)
    ensures
        r == first_file(watcher.registrations(), fd),
{
    let ghost s = watcher.watched@;
    let mut found: Option<Ident> = None;
    let mut i: usize = 0;
    while i < watcher.watched.len()
        invariant
            0 <= i <= watcher.watched.len(),
            s == watcher.watched@,
            found == first_file(s.subrange(0, i as int), fd),
        decreases watcher.watched.len() - i,
    {
        if found.is_none() {
            let hit = match &watcher.watched[i].ident {
                Ident::Filename(f, _) => *f == fd,
                Ident::Fd(f) => *f == fd,
                _ => false,
            };
            if hit {
                found = Some(watcher.watched[i].ident.duplicate());
            }
        }
        proof {
            assert(s.subrange(0, i + 1).drop_last() =~= s.subrange(0, i as int));
            assert(s.subrange(0, i + 1).last() == s[i as int]);
        }
        i = i + 1;
    }
    assert(s.subrange(0, i as int) =~= s);
    found
}

/// Whether `v` holds `x`.
fn holds(v: &Vec<i32>, x: i32) -> (r: bool)
    ensures
        r == v@.contains(x),
{
    let mut i: usize = 0;
    while i < v.len()
        invariant
            0 <= i <= v.len(),
            forall|j: int| 0 <= j < i ==> v@[j] != x,
        decreases v.len() - i,
    {
        if v[i] == x {
            return true;
        }
        i = i + 1;
    }
    false
}

/// The sequence of events of a watcher: each step blocks until an event
/// arrives, and the sequence is empty while the watcher is not started.
pub struct EventIter<'a> {
    watcher: &'a Watcher,
}

impl<'a> EventIter<'a> {
    /// The watcher whose events these are.
    pub closed spec fn watcher(&self) -> Watcher {
        *self.watcher
    }

    /// The wait the next step asks of the kernel, or `None` when the
    /// sequence ends: while the watcher is not started.
    pub fn next_wait(&self) -> (r: Option<Timeout>)
        ensures
            r == (if self.watcher().is_started() { Some(Timeout::Block) } else { None::<Timeout> }),
    {
        if self.watcher.started {
            Some(Timeout::Block)
        } else {
            None
        }
    }
}

/// Whether removing `target` drops a registration of `id`.
fn removal_matches(id: &Ident, target: &Ident) -> (r: bool)
    ensures
        r == removal_match(*id, *target),
{
    match target {
        Ident::Filename(_, name) => match id {
            Ident::Filename(_, n) => n.eq(name),
            _ => false,
        },
        Ident::Fd(fd) => match id {
            Ident::Fd(f) => *f == *fd,
            _ => false,
        },
        Ident::Pid(pid) => match id {
            Ident::Pid(p) => *p == *pid,
            _ => false,
        },
        Ident::Signal(sig) => match id {
            Ident::Signal(x) => *x == *sig,
            _ => false,
        },
        Ident::Timer(t) => match id {
            Ident::Timer(x) => *x == *t,
            _ => false,
        },
    }
}

} // verus!
