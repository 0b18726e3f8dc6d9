use libuv::{check_handle_type, init_result, ConversionError, Error, FsType, HandleType, ReqType, RunMode};

#[test]
fn req_type_codes() {
    assert_eq!(ReqType::from_code(0), ReqType::UNKNOWN);
    assert_eq!(ReqType::from_code(1), ReqType::REQ);
    assert_eq!(ReqType::from_code(2), ReqType::CONNECT);
    assert_eq!(ReqType::from_code(3), ReqType::WRITE);
    assert_eq!(ReqType::from_code(4), ReqType::SHUTDOWN);
    assert_eq!(ReqType::from_code(5), ReqType::UDP_SEND);
    assert_eq!(ReqType::from_code(6), ReqType::FS);
    assert_eq!(ReqType::from_code(7), ReqType::WORK);
    assert_eq!(ReqType::from_code(8), ReqType::GETADDRINFO);
    assert_eq!(ReqType::from_code(9), ReqType::GETNAMEINFO);
    assert_eq!(ReqType::from_code(10), ReqType::RANDOM);
    assert_eq!(ReqType::from_code(11), ReqType::UNKNOWN);
    assert_eq!(ReqType::from(8u32), ReqType::GETADDRINFO);
}

#[test]
fn req_type_roundtrip() {
    for code in 0u32..=10 {
        assert_eq!(ReqType::from_code(code).code(), code);
    }
    assert_eq!(ReqType::UNKNOWN.code(), 0);
    assert_eq!(ReqType::from_code(1000).code(), 0);
}

#[test]
fn handle_type_codes() {
    let expected = [
        HandleType::UNKNOWN,
        HandleType::ASYNC,
        HandleType::CHECK,
        HandleType::FS_EVENT,
        HandleType::FS_POLL,
        HandleType::HANDLE,
        HandleType::IDLE,
        HandleType::NAMED_PIPE,
        HandleType::POLL,
        HandleType::PREPARE,
        HandleType::PROCESS,
        HandleType::STREAM,
        HandleType::TCP,
        HandleType::TIMER,
        HandleType::TTY,
        HandleType::UDP,
        HandleType::SIGNAL,
        HandleType::FILE,
    ];
    for (code, t) in expected.iter().enumerate() {
        assert_eq!(HandleType::from_code(code as u32), *t);
        assert_eq!(t.code(), code as u32);
    }
    assert_eq!(HandleType::from_code(18), HandleType::UNKNOWN);
    assert_eq!(HandleType::from(12u32), HandleType::TCP);
}

#[test]
fn handle_type_layouts() {
    assert!(HandleType::TCP.has_layout());
    assert!(HandleType::SIGNAL.has_layout());
    assert!(!HandleType::FILE.has_layout());
    assert!(!HandleType::UNKNOWN.has_layout());
}

#[test]
fn handle_conversion_check() {
    assert_eq!(check_handle_type(HandleType::TCP, HandleType::TCP), Ok(()));
    assert_eq!(
        check_handle_type(HandleType::TCP, HandleType::UDP),
        Err(ConversionError { from: HandleType::TCP, to: HandleType::UDP })
    );
    let e = ConversionError::new(HandleType::TTY, HandleType::NAMED_PIPE);
    assert_eq!(e.from, HandleType::TTY);
    assert_eq!(e.to, HandleType::NAMED_PIPE);
}

#[test]
fn run_mode_codes() {
    assert_eq!(RunMode::Default.into_inner(), 0);
    assert_eq!(RunMode::Once.into_inner(), 1);
    assert_eq!(RunMode::NoWait.into_inner(), 2);
}

#[test]
fn fs_type_codes_and_results() {
    assert_eq!(FsType::from_code(-1), FsType::UNKNOWN);
    assert_eq!(FsType::from_code(0), FsType::CUSTOM);
    assert_eq!(FsType::from_code(1), FsType::OPEN);
    assert_eq!(FsType::from_code(31), FsType::OPENDIR);
    assert_eq!(FsType::from_code(34), FsType::STATFS);
    assert_eq!(FsType::from_code(36), FsType::LUTIME);
    assert_eq!(FsType::from_code(37), FsType::UNKNOWN);
    for code in -1i32..=36 {
        assert_eq!(FsType::from_code(code).code(), code);
    }
    assert!(FsType::OPENDIR.yields_dir());
    assert!(FsType::READDIR.yields_dir());
    assert!(!FsType::CLOSEDIR.yields_dir());
    assert!(FsType::STATFS.yields_statfs());
    assert!(!FsType::STAT.yields_statfs());
    assert!(FsType::READLINK.yields_path());
    assert!(FsType::REALPATH.yields_path());
    assert!(!FsType::SYMLINK.yields_path());
}

#[test]
fn init_result_reports_allocation_and_status() {
    assert_eq!(init_result(false, 0), Err(Error::ENOMEM));
    assert_eq!(init_result(true, 0), Ok(()));
    assert_eq!(init_result(true, -22), Err(Error::EINVAL));
}
