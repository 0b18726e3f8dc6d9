use libuv::{count_result, status_result, uvret, uvret_with, value_result, Error};

const TABLE: &[(Error, i32)] = &[
    (Error::E2BIG, -7),
    (Error::EACCES, -13),
    (Error::EADDRINUSE, -98),
    (Error::EADDRNOTAVAIL, -99),
    (Error::EAFNOSUPPORT, -97),
    (Error::EAGAIN, -11),
    (Error::EAI_ADDRFAMILY, -3000),
    (Error::EAI_AGAIN, -3001),
    (Error::EAI_BADFLAGS, -3002),
    (Error::EAI_BADHINTS, -3013),
    (Error::EAI_CANCELED, -3003),
    (Error::EAI_FAIL, -3004),
    (Error::EAI_FAMILY, -3005),
    (Error::EAI_MEMORY, -3006),
    (Error::EAI_NODATA, -3007),
    (Error::EAI_NONAME, -3008),
    (Error::EAI_OVERFLOW, -3009),
    (Error::EAI_PROTOCOL, -3014),
    (Error::EAI_SERVICE, -3010),
    (Error::EAI_SOCKTYPE, -3011),
    (Error::EALREADY, -114),
    (Error::EBADF, -9),
    (Error::EBUSY, -16),
    (Error::ECANCELED, -125),
    (Error::ECHARSET, -4080),
    (Error::ECONNABORTED, -103),
    (Error::ECONNREFUSED, -111),
    (Error::ECONNRESET, -104),
    (Error::EDESTADDRREQ, -89),
    (Error::EEXIST, -17),
    (Error::EFAULT, -14),
    (Error::EFBIG, -27),
    (Error::EHOSTUNREACH, -113),
    (Error::EINTR, -4),
    (Error::EINVAL, -22),
    (Error::EIO, -5),
    (Error::EISCONN, -106),
    (Error::EISDIR, -21),
    (Error::ELOOP, -40),
    (Error::EMFILE, -24),
    (Error::EMSGSIZE, -90),
    (Error::ENAMETOOLONG, -36),
    (Error::ENETDOWN, -100),
    (Error::ENETUNREACH, -101),
    (Error::ENFILE, -23),
    (Error::ENOBUFS, -105),
    (Error::ENODEV, -19),
    (Error::ENOENT, -2),
    (Error::ENOMEM, -12),
    (Error::ENONET, -64),
    (Error::ENOPROTOOPT, -92),
    (Error::ENOSPC, -28),
    (Error::ENOSYS, -38),
    (Error::ENOTCONN, -107),
    (Error::ENOTDIR, -20),
    (Error::ENOTEMPTY, -39),
    (Error::ENOTSOCK, -88),
    (Error::ENOTSUP, -95),
    (Error::EOVERFLOW, -75),
    (Error::EPERM, -1),
    (Error::EPIPE, -32),
    (Error::EPROTO, -71),
    (Error::EPROTONOSUPPORT, -93),
    (Error::EPROTOTYPE, -91),
    (Error::ERANGE, -34),
    (Error::EROFS, -30),
    (Error::ESHUTDOWN, -108),
    (Error::ESPIPE, -29),
    (Error::ESRCH, -3),
    (Error::ETIMEDOUT, -110),
    (Error::ETXTBSY, -26),
    (Error::EXDEV, -18),
    (Error::UNKNOWN, -4094),
    (Error::EOF, -4095),
    (Error::ENXIO, -6),
    (Error::EMLINK, -31),
    (Error::EHOSTDOWN, -112),
    (Error::EREMOTEIO, -121),
    (Error::ENOTTY, -25),
    (Error::EFTYPE, -4028),
    (Error::EILSEQ, -84),
    (Error::ESOCKTNOSUPPORT, -94),
    (Error::ENODATA, -61),
    (Error::EUNATCH, -49),
    (Error::ENOEXEC, -8),
];

#[test]
fn every_error_has_its_code_and_decodes_back() {
    for (e, code) in TABLE {
        assert_eq!(e.code(), *code);
        assert_eq!(Error::from_code(*code), *e);
        assert!(*code < 0);
    }
}

#[test]
fn codes_are_distinct() {
    for (i, (_, a)) in TABLE.iter().enumerate() {
        for (_, b) in TABLE.iter().skip(i + 1) {
            assert_ne!(a, b);
        }
    }
}

#[test]
fn unknown_code_decodes_to_unknown() {
    assert_eq!(Error::from_code(-1234), Error::UNKNOWN);
    assert_eq!(Error::from_code(-4094), Error::UNKNOWN);
    assert_eq!(Error::from_code(5), Error::UNKNOWN);
}

#[test]
fn uvret_reports_success_and_failure() {
    assert_eq!(uvret(0), Ok(()));
    assert_eq!(uvret(7), Ok(()));
    assert_eq!(uvret(-12), Err(Error::ENOMEM));
    assert_eq!(uvret(-105), Err(Error::ENOBUFS));
    assert_eq!(uvret(-4095), Err(Error::EOF));
    assert_eq!(uvret(Error::ECANCELED.code()), Err(Error::ECANCELED));
}

#[test]
fn status_result_keeps_the_status() {
    assert_eq!(status_result(0), Ok(0));
    assert_eq!(status_result(3), Ok(3));
    assert_eq!(status_result(-125), Err(Error::ECANCELED));
}

#[test]
fn count_result_keeps_the_count() {
    assert_eq!(count_result(0), Ok(0));
    assert_eq!(count_result(4096), Ok(4096));
    assert_eq!(count_result(-4095), Err(Error::EOF));
    assert_eq!(count_result(-2), Err(Error::ENOENT));
}

#[test]
fn value_result_keeps_the_value() {
    assert_eq!(value_result(17), Ok(17));
    assert_eq!(value_result(-11), Err(Error::EAGAIN));
}

#[test]
fn uvret_with_hands_back_the_value() {
    assert_eq!(uvret_with(0, (80, 24)), Ok((80, 24)));
    assert_eq!(uvret_with(-95, 5u64), Err(Error::ENOTSUP));
}
