use kqueue::{
    ChangeRecord, EventFilter, Ident, OsError, Timeout, Watcher, EV_ADD, EV_CLEAR, EV_DELETE,
    NOTE_DELETE, NOTE_WRITE,
};
use std::time::Duration;

const PATH: &str = "/tmp/testing.txt";

#[test]
fn test_new_watcher() {
    let mut watcher = Watcher::new(5);
    watcher.add_fd(3, EventFilter::EVFILT_VNODE, NOTE_WRITE);
    let changes = watcher.changes();
    assert_eq!(
        changes,
        vec![ChangeRecord {
            ident: 3,
            filter: EventFilter::EVFILT_VNODE,
            flags: EV_ADD | EV_CLEAR,
            fflags: NOTE_WRITE,
        }]
    );
    assert!(watcher.watch(Ok(())).is_ok(), "watch failed");
    assert!(watcher.started());
}

#[test]
fn test_dupe() {
    let mut watcher = Watcher::new(5);
    watcher.add_filename(PATH.to_string(), 3, EventFilter::EVFILT_VNODE, NOTE_WRITE);
    watcher.add_filename(PATH.to_string(), 4, EventFilter::EVFILT_VNODE, NOTE_WRITE);
    assert!(watcher.watched().len() == 1);
    assert_eq!(watcher.watched()[0].ident, Ident::Filename(3, PATH.to_string()));
}

#[test]
fn dupe_under_other_flags_is_kept() {
    let mut watcher = Watcher::new(5);
    watcher.add_filename(PATH.to_string(), 3, EventFilter::EVFILT_VNODE, NOTE_WRITE);
    watcher.add_filename(PATH.to_string(), 4, EventFilter::EVFILT_VNODE, NOTE_DELETE);
    watcher.add_pid(77, EventFilter::EVFILT_PROC, 0);
    watcher.add_pid(77, EventFilter::EVFILT_PROC, 0);
    assert_eq!(watcher.watched().len(), 3);
}

#[test]
fn test_delete_filename() {
    let mut watcher = Watcher::new(5);
    watcher.add_filename(PATH.to_string(), 3, EventFilter::EVFILT_VNODE, NOTE_WRITE);
    assert!(watcher.watch(Ok(())).is_ok(), "watch failed");
    let record = watcher.remove_filename(&PATH.to_string(), EventFilter::EVFILT_VNODE);
    assert_eq!(
        record,
        ChangeRecord { ident: 3, filter: EventFilter::EVFILT_VNODE, flags: EV_DELETE, fflags: 0 }
    );
    assert!(watcher.watched().is_empty());
    assert!(watcher.started());
}

#[test]
fn remove_absent_path_is_inert() {
    let mut watcher = Watcher::new(5);
    watcher.add_fd(3, EventFilter::EVFILT_READ, 0);
    let record = watcher.remove_filename(&"/nowhere".to_string(), EventFilter::EVFILT_VNODE);
    assert_eq!(record.ident, 0);
    assert_eq!(record.flags, EV_DELETE);
    assert_eq!(watcher.watched().len(), 1);
}

#[test]
fn remove_filename_names_last_descriptor() {
    let mut watcher = Watcher::new(5);
    watcher.add_filename(PATH.to_string(), 3, EventFilter::EVFILT_VNODE, NOTE_WRITE);
    watcher.add_fd(9, EventFilter::EVFILT_READ, 0);
    watcher.add_filename(PATH.to_string(), 4, EventFilter::EVFILT_VNODE, NOTE_DELETE);
    let record = watcher.remove_filename(&PATH.to_string(), EventFilter::EVFILT_VNODE);
    assert_eq!(record.ident, 4);
    assert_eq!(watcher.watched().len(), 1);
    assert_eq!(watcher.watched()[0].ident, Ident::Fd(9));
}

#[test]
fn remove_pid_and_fd_keep_other_kinds() {
    let mut watcher = Watcher::new(5);
    watcher.add_pid(3, EventFilter::EVFILT_PROC, 0);
    watcher.add_fd(3, EventFilter::EVFILT_READ, 0);
    watcher.add_fd(4, EventFilter::EVFILT_WRITE, 0);
    let record = watcher.remove_pid(3, EventFilter::EVFILT_PROC);
    assert_eq!(
        record,
        ChangeRecord { ident: 3, filter: EventFilter::EVFILT_PROC, flags: EV_DELETE, fflags: 0 }
    );
    assert_eq!(watcher.watched().len(), 2);
    let record = watcher.remove_fd(4, EventFilter::EVFILT_WRITE);
    assert_eq!(record.ident, 4);
    assert_eq!(watcher.watched().len(), 1);
    assert_eq!(watcher.watched()[0].ident, Ident::Fd(3));
}

#[test]
fn commit_without_registrations() {
    let mut watcher = Watcher::new(5);
    assert!(watcher.changes().is_empty());
    assert!(watcher.watch(Ok(())).is_ok());
    assert!(watcher.started());
}

#[test]
fn failed_commit_leaves_watcher_unstarted() {
    let mut watcher = Watcher::new(5);
    watcher.add_pid(1, EventFilter::EVFILT_PROC, 0);
    assert_eq!(watcher.watch(Err(OsError { code: 9 })), Err(OsError { code: 9 }));
    assert!(!watcher.started());
    assert!(watcher.poll(None).is_none());
}

#[test]
fn disable_clears_drops_clear_flag() {
    let mut watcher = Watcher::new(5);
    watcher.disable_clears();
    watcher.add_pid(12, EventFilter::EVFILT_PROC, 0x8000_0000);
    watcher.add_fd(-1, EventFilter::EVFILT_READ, 0);
    let changes = watcher.changes();
    assert_eq!(changes.len(), 2);
    assert_eq!(changes[0].flags, EV_ADD);
    assert_eq!(changes[0].ident, 12);
    assert_eq!(changes[0].fflags, 0x8000_0000);
    assert_eq!(changes[1].ident, usize::MAX);
}

#[test]
fn poll_before_commit_yields_nothing() {
    let mut watcher = Watcher::new(5);
    watcher.add_fd(3, EventFilter::EVFILT_READ, 0);
    assert!(watcher.poll(None).is_none());
    assert!(watcher.poll(Some(Duration::from_millis(10))).is_none());
    assert!(watcher.iter().next_wait().is_none());
}

#[test]
fn poll_after_commit_asks_the_kernel() {
    let mut watcher = Watcher::new(5);
    assert!(watcher.watch(Ok(())).is_ok());
    assert!(matches!(watcher.poll(None), Some(Timeout::Immediate)));
    let d = Duration::from_millis(250);
    match watcher.poll(Some(d)) {
        Some(Timeout::Deadline(got)) => assert_eq!(got, d),
        _ => panic!("expected a deadline"),
    }
    assert!(matches!(watcher.iter().next_wait(), Some(Timeout::Block)));
}

#[test]
fn descriptors_to_close_lists_each_once() {
    let mut watcher = Watcher::new(10);
    watcher.add_fd(3, EventFilter::EVFILT_READ, 0);
    watcher.add_fd(3, EventFilter::EVFILT_WRITE, 0);
    watcher.add_filename(PATH.to_string(), 4, EventFilter::EVFILT_VNODE, NOTE_WRITE);
    watcher.add_pid(8, EventFilter::EVFILT_PROC, 0);
    assert_eq!(watcher.descriptors_to_close(), vec![10, 3, 4]);
    assert_eq!(watcher.queue(), 10);
}

#[test]
fn ident_equality_rules() {
    assert!(Ident::Filename(1, "a".to_string()) == Ident::Filename(2, "a".to_string()));
    assert!(Ident::Filename(1, "a".to_string()) != Ident::Filename(1, "b".to_string()));
    assert!(Ident::Fd(3) == Ident::Pid(3));
    assert!(Ident::Signal(3) != Ident::Timer(4));
    assert!(Ident::Filename(3, "a".to_string()) != Ident::Fd(3));
    assert_eq!(usize::from(Ident::Pid(7)), 7);
    assert_eq!(Ident::Timer(9).as_usize(), 9);
}

#[test]
fn find_file_ident_takes_first_registration() {
    let mut watcher = Watcher::new(5);
    watcher.add_pid(3, EventFilter::EVFILT_PROC, 0);
    watcher.add_filename(PATH.to_string(), 3, EventFilter::EVFILT_VNODE, NOTE_WRITE);
    watcher.add_fd(3, EventFilter::EVFILT_READ, 0);
    assert_eq!(
        kqueue::find_file_ident(&watcher, 3),
        Some(Ident::Filename(3, PATH.to_string()))
    );
    assert_eq!(kqueue::find_file_ident(&watcher, 6), None);
}

#[test]
fn signal_and_timer_registrations() {
    let mut watcher = Watcher::new(5);
    watcher.add_signal(2, EventFilter::EVFILT_SIGNAL, 0);
    watcher.add_timer(2, EventFilter::EVFILT_TIMER, 0);
    watcher.add_signal(2, EventFilter::EVFILT_SIGNAL, 0);
    assert_eq!(watcher.watched().len(), 2);
    let changes = watcher.changes();
    assert_eq!(changes[0].filter, EventFilter::EVFILT_SIGNAL);
    assert_eq!(changes[1].filter, EventFilter::EVFILT_TIMER);
    assert_eq!(changes[1].ident, 2);
    assert_eq!(watcher.descriptors_to_close(), vec![5]);
}
