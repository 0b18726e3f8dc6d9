use libuv::tty::vterm_state_result;
use libuv::{
    dlret, first_title_size, fs_event_args, id_from_raw, poll_args, process_title_step,
    required_size_result, udp_recv_args, ClockId, DLError, Error, Group, SocketAddress,
    StdioContainer, StdioFlags, StdioType, TitleStep, TtyMode, User, VTermState,
};

#[test]
fn process_title_buffer_doubles_until_it_fits() {
    let mut size = first_title_size();
    assert_eq!(size, 32);
    let statuses = [-105, -105, -105, 0];
    let mut offered = vec![];
    for status in statuses.iter() {
        offered.push(size);
        match process_title_step(size, *status, true) {
            TitleStep::Retry(next) => size = next,
            TitleStep::Done => break,
            TitleStep::Fail(e) => panic!("unexpected {:?}", e),
        }
    }
    assert_eq!(offered, vec![32, 64, 128, 256]);
}

#[test]
fn process_title_gives_up_when_setup_args_was_not_called() {
    let size = first_title_size();
    assert_eq!(process_title_step(size, -105, false), TitleStep::Fail(Error::ENOBUFS));
    assert_eq!(process_title_step(1 << 24, -105, false), TitleStep::Fail(Error::ENOBUFS));
}

#[test]
fn process_title_keeps_growing_a_large_buffer() {
    assert_eq!(process_title_step(1 << 24, -105, true), TitleStep::Retry(1 << 25));
    assert_eq!(process_title_step(1 << 30, -105, true), TitleStep::Retry(1 << 31));
}

#[test]
fn process_title_fails_on_other_errors() {
    assert_eq!(process_title_step(32, -22, true), TitleStep::Fail(Error::EINVAL));
    assert_eq!(process_title_step(64, 0, true), TitleStep::Done);
    assert_eq!(process_title_step(64, 0, false), TitleStep::Done);
    assert_eq!(process_title_step(32, -22, false), TitleStep::Fail(Error::EINVAL));
}

#[test]
fn required_size_accepts_enobufs() {
    assert_eq!(required_size_result(0), Ok(()));
    assert_eq!(required_size_result(-105), Ok(()));
    assert_eq!(required_size_result(-2), Err(Error::ENOENT));
}

#[test]
fn ids_from_raw_values() {
    assert_eq!(id_from_raw(1000), Some(1000));
    assert_eq!(id_from_raw(0), Some(0));
    assert_eq!(id_from_raw(-1), None);
}

#[test]
fn user_and_group_records() {
    let u = User::from_raw(
        String::from("alice"),
        1000,
        100,
        Some(String::from("/bin/sh")),
        String::from("/home/alice"),
    );
    assert_eq!(u.username, "alice");
    assert_eq!(u.uid, Some(1000));
    assert_eq!(u.gid, Some(100));
    assert_eq!(u.shell.as_deref(), Some("/bin/sh"));
    assert_eq!(u.homedir, "/home/alice");

    let w = User::from_raw(String::from("bob"), -1, -1, None, String::from("C:\\"));
    assert_eq!(w.uid, None);
    assert_eq!(w.gid, None);
    assert!(w.shell.is_none());

    let g = Group::from_raw(String::from("wheel"), 10, vec![String::from("alice")]);
    assert_eq!(g.groupname, "wheel");
    assert_eq!(g.gid, Some(10));
    assert_eq!(g.members, vec![String::from("alice")]);
}

#[test]
fn dlerror_message() {
    let e = DLError::new(String::from("libfoo.so: cannot open shared object file"));
    assert_eq!(e.message(), "libfoo.so: cannot open shared object file");
    assert!(dlret(0, String::new()).is_ok());
    assert_eq!(dlret(-1, String::from("no such symbol")).unwrap_err().message(), "no such symbol");
}

#[test]
fn callback_arguments() {
    let (events, status) = fs_event_args(3 | 8, 0);
    assert_eq!(events.bits(), 3);
    assert_eq!(status, Ok(0));
    let (status, events) = poll_args(-9, 1);
    assert_eq!(status, Err(Error::EBADF));
    assert_eq!(events.bits(), 1);

    let addr = [0x00, 0x35, 8, 8, 4, 4];
    let (nread, from, flags) = udp_recv_args(12, 2, &addr, 2 | 1).unwrap();
    assert_eq!(nread, Ok(12));
    assert_eq!(from, SocketAddress::V4 { ip: [8, 8, 4, 4], port: 53 });
    assert_eq!(flags.bits(), 2);
    assert!(udp_recv_args(0, 0, &[], 0).is_none());
    let (nread, _, _) = udp_recv_args(-104, 2, &addr, 0).unwrap();
    assert_eq!(nread, Err(Error::ECONNRESET));
}

#[test]
fn tty_and_clock_codes() {
    assert_eq!(TtyMode::Normal.code(), 0);
    assert_eq!(TtyMode::Raw.code(), 1);
    assert_eq!(TtyMode::IO.code(), 2);
    assert_eq!(VTermState::Supported.code(), 0);
    assert_eq!(VTermState::Unsupported.code(), 1);
    assert_eq!(vterm_state_result(0, 0), Ok(VTermState::Supported));
    assert_eq!(vterm_state_result(0, 1), Ok(VTermState::Unsupported));
    assert_eq!(vterm_state_result(-95, 0), Err(Error::ENOTSUP));
    assert_eq!(ClockId::Monotonic.code(), 0);
    assert_eq!(ClockId::Realtime.code(), 1);
}

#[test]
fn stdio_container() {
    let c: StdioContainer<u8> = StdioContainer::new(StdioFlags::INHERIT_FD(), StdioType::Fd(2));
    assert_eq!(c.flags().bits(), 2);
    match c.data() {
        StdioType::Fd(fd) => assert_eq!(*fd, 2),
        StdioType::Stream(_) => panic!("expected a descriptor"),
    }
}
