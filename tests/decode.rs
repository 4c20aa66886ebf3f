use kqueue::{
    get_event, DecodeError, Event, EventData, EventFilter, Ident, OsError, Proc, RawEvent, Vnode,
    Watcher, NOTE_ATTRIB, NOTE_CHILD, NOTE_DELETE, NOTE_EXEC, NOTE_EXIT, NOTE_EXTEND, NOTE_FORK,
    NOTE_LINK, NOTE_RENAME, NOTE_REVOKE, NOTE_TRACK, NOTE_TRACKERR, NOTE_WRITE,
};

const PATH: &str = "/tmp/testing.txt";
const NO_ERROR: OsError = OsError { code: 0 };

fn record(ident: usize, filter: i16, fflags: u32, data: i64) -> RawEvent {
    RawEvent { ident, filter, flags: 0, fflags, data }
}

fn started_watcher() -> Watcher {
    let mut watcher = Watcher::new(5);
    watcher.add_filename(PATH.to_string(), 3, EventFilter::EVFILT_VNODE, NOTE_WRITE);
    watcher.add_fd(4, EventFilter::EVFILT_READ, 0);
    watcher.add_pid(100, EventFilter::EVFILT_PROC, NOTE_EXIT);
    assert!(watcher.watch(Ok(())).is_ok());
    watcher
}

fn decode(watcher: &Watcher, ev: RawEvent) -> Event {
    Event::new(ev, watcher).expect("decode failed")
}

#[test]
fn test_filename() {
    let watcher = started_watcher();
    let ev = get_event(&watcher, 1, record(3, -4, NOTE_WRITE, 3), NO_ERROR)
        .expect("decode failed")
        .expect("no event");
    match ev.data {
        EventData::Vnode(Vnode::Write) => assert!(true),
        _ => assert!(false),
    };
    match ev.ident {
        Ident::Filename(_, name) => assert!(name == PATH),
        _ => assert!(false),
    };
}

#[test]
fn test_file() {
    let mut watcher = Watcher::new(5);
    watcher.add_fd(7, EventFilter::EVFILT_VNODE, NOTE_WRITE);
    assert!(watcher.watch(Ok(())).is_ok());
    let ev = get_event(&watcher, 1, record(7, -4, NOTE_WRITE, 0), NO_ERROR)
        .expect("decode failed")
        .expect("no event");
    match ev.data {
        EventData::Vnode(Vnode::Write) => assert!(true),
        _ => assert!(false),
    };
    match ev.ident {
        Ident::Fd(fd) => assert_eq!(fd, 7),
        _ => assert!(false),
    };
}

#[test]
fn every_vnode_flag_decodes_to_its_change() {
    let watcher = started_watcher();
    let cases = [
        (NOTE_DELETE, Vnode::Delete),
        (NOTE_WRITE, Vnode::Write),
        (NOTE_EXTEND, Vnode::Extend),
        (NOTE_ATTRIB, Vnode::Attrib),
        (NOTE_LINK, Vnode::Link),
        (NOTE_RENAME, Vnode::Rename),
        (NOTE_REVOKE, Vnode::Revoke),
    ];
    for (flag, change) in cases {
        let ev = decode(&watcher, record(3, -4, flag, 0));
        assert_eq!(ev.data, EventData::Vnode(change));
        assert_eq!(ev.ident, Ident::Filename(3, PATH.to_string()));
    }
}

#[test]
fn vnode_flags_decode_by_priority() {
    let watcher = started_watcher();
    let ev = decode(&watcher, record(3, -4, NOTE_WRITE | NOTE_EXTEND, 0));
    assert_eq!(ev.data, EventData::Vnode(Vnode::Write));
    let ev = decode(&watcher, record(3, -4, NOTE_RENAME | NOTE_DELETE, 0));
    assert_eq!(ev.data, EventData::Vnode(Vnode::Delete));
}

#[test]
fn every_proc_flag_decodes_to_its_change() {
    let watcher = started_watcher();
    let cases = [
        (NOTE_EXIT, 256, Proc::Exit(256)),
        (NOTE_FORK, 0, Proc::Fork),
        (NOTE_EXEC, 0, Proc::Exec),
        (NOTE_TRACK, 4242, Proc::Track(4242)),
        (NOTE_CHILD, 4243, Proc::Child(4243)),
    ];
    for (flag, data, change) in cases {
        let ev = decode(&watcher, record(100, -5, flag, data));
        assert_eq!(ev.data, EventData::Proc(change));
        assert_eq!(ev.ident, Ident::Pid(100));
    }
    let ev = decode(&watcher, record(100, -5, NOTE_EXIT | NOTE_FORK, 1));
    assert_eq!(ev.data, EventData::Proc(Proc::Exit(1)));
}

#[test]
fn count_filters_carry_their_data() {
    let watcher = started_watcher();
    let ev = decode(&watcher, record(4, -1, 0, 17));
    assert_eq!(ev.data, EventData::ReadReady(17));
    assert_eq!(ev.ident, Ident::Fd(4));
    let ev = decode(&watcher, record(4, -2, 0, 512));
    assert_eq!(ev.data, EventData::WriteReady(512));
    let ev = decode(&watcher, record(2, -6, 0, 3));
    assert_eq!(ev.data, EventData::Signal(3));
    assert!(matches!(ev.ident, Ident::Signal(2)));
    let ev = decode(&watcher, record(11, -7, 0, 5));
    assert_eq!(ev.data, EventData::Timer(5));
    assert!(matches!(ev.ident, Ident::Timer(11)));
    assert!(!ev.is_err());
}

#[test]
fn unknown_sub_flags_are_unsupported() {
    let watcher = started_watcher();
    assert_eq!(Event::new(record(3, -4, 0x80, 0), &watcher).err(), Some(DecodeError::Unsupported));
    assert_eq!(
        Event::new(record(100, -5, NOTE_TRACKERR, 0), &watcher).err(),
        Some(DecodeError::Unsupported)
    );
}

#[test]
fn unknown_filter_is_unsupported() {
    let watcher = started_watcher();
    assert_eq!(Event::new(record(3, -3, 0, 0), &watcher).err(), Some(DecodeError::Unsupported));
    assert_eq!(Event::new(record(3, 12, 0, 0), &watcher).err(), Some(DecodeError::Unsupported));
    assert_eq!(
        Event::from_error(record(3, 12, 0, 0), OsError { code: 4 }, &watcher).err(),
        Some(DecodeError::Unsupported)
    );
}

#[test]
fn unregistered_descriptor_is_refused() {
    let watcher = started_watcher();
    assert_eq!(
        Event::new(record(9, -4, NOTE_WRITE, 0), &watcher).err(),
        Some(DecodeError::Unregistered)
    );
}

#[test]
fn failed_wait_reports_transport_error() {
    let watcher = started_watcher();
    let ev = get_event(&watcher, -1, record(3, -4, NOTE_WRITE, 0), OsError { code: 4 })
        .expect("decode failed")
        .expect("no event");
    assert_eq!(ev.data, EventData::Error(OsError { code: 4 }));
    assert_eq!(ev.ident, Ident::Filename(3, PATH.to_string()));
    assert!(ev.is_err());
    let ev = get_event(&watcher, -1, record(100, -5, 0, 0), OsError { code: 9 })
        .expect("decode failed")
        .expect("no event");
    assert_eq!(ev.ident, Ident::Pid(100));
    assert_eq!(ev.data, EventData::Error(OsError { code: 9 }));
}

#[test]
fn timed_out_wait_yields_no_event() {
    let watcher = started_watcher();
    assert!(get_event(&watcher, 0, record(0, 12, 0, 0), NO_ERROR).expect("decode failed").is_none());
}

#[test]
fn filter_codes_round_trip() {
    for f in [
        EventFilter::EVFILT_READ,
        EventFilter::EVFILT_WRITE,
        EventFilter::EVFILT_VNODE,
        EventFilter::EVFILT_PROC,
        EventFilter::EVFILT_SIGNAL,
        EventFilter::EVFILT_TIMER,
    ] {
        assert_eq!(EventFilter::from_code(f.code()), Some(f));
    }
    assert_eq!(EventFilter::EVFILT_VNODE.code(), -4);
    assert_eq!(EventFilter::from_code(-3), None);
}
