//! The errors that libuv reports, and the conversion of libuv's integer status codes into
//! them.
//!
//! libuv reports failure as a negative integer. On Unix the codes for the POSIX errors are the
//! negated `errno` values of the platform; the codes given here are the ones of Linux. libuv
//! gives its own codes to the errors that it defines itself (`EOF`, `UNKNOWN`, the `EAI_*`
//! family), and to `ECHARSET` and `EFTYPE` where the platform has no such `errno`, as Linux has
//! none; on a platform that has one (such as the BSDs for `EFTYPE`), libuv uses the platform's.
use vstd::prelude::*;

verus! {

/// An error reported by libuv.
#[allow(non_camel_case_types)]
#[derive(Clone, Copy, Debug, PartialEq, Eq, Structural)]
pub enum Error {
    /// argument list too long
    E2BIG,
    /// permission denied
    EACCES,
    /// address already in use
    EADDRINUSE,
    /// address not available
    EADDRNOTAVAIL,
    /// address family not supported
    EAFNOSUPPORT,
    /// resource temporarily unavailable
    EAGAIN,
    /// address family not supported
    EAI_ADDRFAMILY,
    /// temporary failure
    EAI_AGAIN,
    /// bad ai_flags value
    EAI_BADFLAGS,
    /// invalid value for hints
    EAI_BADHINTS,
    /// request canceled
    EAI_CANCELED,
    /// permanent failure
    EAI_FAIL,
    /// ai_family not supported
    EAI_FAMILY,
    /// out of memory
    EAI_MEMORY,
    /// no address
    EAI_NODATA,
    /// unknown node or service
    EAI_NONAME,
    /// argument buffer overflow
    EAI_OVERFLOW,
    /// resolved protocol is unknown
    EAI_PROTOCOL,
    /// service not available for socket type
    EAI_SERVICE,
    /// socket type not supported
    EAI_SOCKTYPE,
    /// connection already in progress
    EALREADY,
    /// bad file descriptor
    EBADF,
    /// resource busy or locked
    EBUSY,
    /// operation canceled
    ECANCELED,
    /// invalid Unicode character
    ECHARSET,
    /// software caused connection abort
    ECONNABORTED,
    /// connection refused
    ECONNREFUSED,
    /// connection reset by peer
    ECONNRESET,
    /// destination address required
    EDESTADDRREQ,
    /// file already exists
    EEXIST,
    /// bad address in system call argument
    EFAULT,
    /// file too large
    EFBIG,
    /// host is unreachable
    EHOSTUNREACH,
    /// interrupted system call
    EINTR,
    /// invalid argument
    EINVAL,
    /// i/o error
    EIO,
    /// socket is already connected
    EISCONN,
    /// illegal operation on a directory
    EISDIR,
    /// too many symbolic links encountered
    ELOOP,
    /// too many open files
    EMFILE,
    /// message too long
    EMSGSIZE,
    /// name too long
    ENAMETOOLONG,
    /// network is down
    ENETDOWN,
    /// network is unreachable
    ENETUNREACH,
    /// file table overflow
    ENFILE,
    /// no buffer space available
    ENOBUFS,
    /// no such device
    ENODEV,
    /// no such file or directory
    ENOENT,
    /// not enough memory
    ENOMEM,
    /// machine is not on the network
    ENONET,
    /// protocol not available
    ENOPROTOOPT,
    /// no space left on device
    ENOSPC,
    /// function not implemented
    ENOSYS,
    /// socket is not connected
    ENOTCONN,
    /// not a directory
    ENOTDIR,
    /// directory not empty
    ENOTEMPTY,
    /// socket operation on non-socket
    ENOTSOCK,
    /// operation not supported on socket
    ENOTSUP,
    /// value too large for defined data type
    EOVERFLOW,
    /// operation not permitted
    EPERM,
    /// broken pipe
    EPIPE,
    /// protocol error
    EPROTO,
    /// protocol not supported
    EPROTONOSUPPORT,
    /// protocol wrong type for socket
    EPROTOTYPE,
    /// result too large
    ERANGE,
    /// read-only file system
    EROFS,
    /// cannot send after transport endpoint shutdown
    ESHUTDOWN,
    /// invalid seek
    ESPIPE,
    /// no such process
    ESRCH,
    /// connection timed out
    ETIMEDOUT,
    /// text file is busy
    ETXTBSY,
    /// cross-device link not permitted
    EXDEV,
    /// unknown error
    UNKNOWN,
    /// end of file
    EOF,
    /// no such device or address
    ENXIO,
    /// too many links
    EMLINK,
    /// host is down
    EHOSTDOWN,
    /// remote I/O error
    EREMOTEIO,
    /// inappropriate ioctl for device
    ENOTTY,
    /// inappropriate file type or format
    EFTYPE,
    /// illegal byte sequence
    EILSEQ,
    /// socket type not supported
    ESOCKTNOSUPPORT,
    /// no data available
    ENODATA,
    /// protocol driver not attached
    EUNATCH,
    /// exec format error
    ENOEXEC,
}

impl Error {
    /// The integer code by which libuv reports this error.
    pub open spec fn spec_code(self) -> i32 {
        match self {
            Error::E2BIG => -7i32,
            Error::EACCES => -13i32,
            Error::EADDRINUSE => -98i32,
            Error::EADDRNOTAVAIL => -99i32,
            Error::EAFNOSUPPORT => -97i32,
            Error::EAGAIN => -11i32,
            Error::EAI_ADDRFAMILY => -3000i32,
            Error::EAI_AGAIN => -3001i32,
            Error::EAI_BADFLAGS => -3002i32,
            Error::EAI_BADHINTS => -3013i32,
            Error::EAI_CANCELED => -3003i32,
            Error::EAI_FAIL => -3004i32,
            Error::EAI_FAMILY => -3005i32,
            Error::EAI_MEMORY => -3006i32,
            Error::EAI_NODATA => -3007i32,
            Error::EAI_NONAME => -3008i32,
            Error::EAI_OVERFLOW => -3009i32,
            Error::EAI_PROTOCOL => -3014i32,
            Error::EAI_SERVICE => -3010i32,
            Error::EAI_SOCKTYPE => -3011i32,
            Error::EALREADY => -114i32,
            Error::EBADF => -9i32,
            Error::EBUSY => -16i32,
            Error::ECANCELED => -125i32,
            Error::ECHARSET => -4080i32,
            Error::ECONNABORTED => -103i32,
            Error::ECONNREFUSED => -111i32,
            Error::ECONNRESET => -104i32,
            Error::EDESTADDRREQ => -89i32,
            Error::EEXIST => -17i32,
            Error::EFAULT => -14i32,
            Error::EFBIG => -27i32,
            Error::EHOSTUNREACH => -113i32,
            Error::EINTR => -4i32,
            Error::EINVAL => -22i32,
            Error::EIO => -5i32,
            Error::EISCONN => -106i32,
            Error::EISDIR => -21i32,
            Error::ELOOP => -40i32,
            Error::EMFILE => -24i32,
            Error::EMSGSIZE => -90i32,
            Error::ENAMETOOLONG => -36i32,
            Error::ENETDOWN => -100i32,
            Error::ENETUNREACH => -101i32,
            Error::ENFILE => -23i32,
            Error::ENOBUFS => -105i32,
            Error::ENODEV => -19i32,
            Error::ENOENT => -2i32,
            Error::ENOMEM => -12i32,
            Error::ENONET => -64i32,
            Error::ENOPROTOOPT => -92i32,
            Error::ENOSPC => -28i32,
            Error::ENOSYS => -38i32,
            Error::ENOTCONN => -107i32,
            Error::ENOTDIR => -20i32,
            Error::ENOTEMPTY => -39i32,
            Error::ENOTSOCK => -88i32,
            Error::ENOTSUP => -95i32,
            Error::EOVERFLOW => -75i32,
            Error::EPERM => -1i32,
            Error::EPIPE => -32i32,
            Error::EPROTO => -71i32,
            Error::EPROTONOSUPPORT => -93i32,
            Error::EPROTOTYPE => -91i32,
            Error::ERANGE => -34i32,
            Error::EROFS => -30i32,
            Error::ESHUTDOWN => -108i32,
            Error::ESPIPE => -29i32,
            Error::ESRCH => -3i32,
            Error::ETIMEDOUT => -110i32,
            Error::ETXTBSY => -26i32,
            Error::EXDEV => -18i32,
            Error::UNKNOWN => -4094i32,
            Error::EOF => -4095i32,
            Error::ENXIO => -6i32,
            Error::EMLINK => -31i32,
            Error::EHOSTDOWN => -112i32,
            Error::EREMOTEIO => -121i32,
            Error::ENOTTY => -25i32,
            Error::EFTYPE => -4028i32,
            Error::EILSEQ => -84i32,
            Error::ESOCKTNOSUPPORT => -94i32,
            Error::ENODATA => -61i32,
            Error::EUNATCH => -49i32,
            Error::ENOEXEC => -8i32,
        }
    }

    /// The integer code by which libuv reports this error.
    pub fn code(&self) -> (r: i32)
        ensures
            r == self.spec_code(),
    {
        match self {
            Error::E2BIG => -7,
            Error::EACCES => -13,
            Error::EADDRINUSE => -98,
            Error::EADDRNOTAVAIL => -99,
            Error::EAFNOSUPPORT => -97,
            Error::EAGAIN => -11,
            Error::EAI_ADDRFAMILY => -3000,
            Error::EAI_AGAIN => -3001,
            Error::EAI_BADFLAGS => -3002,
            Error::EAI_BADHINTS => -3013,
            Error::EAI_CANCELED => -3003,
            Error::EAI_FAIL => -3004,
            Error::EAI_FAMILY => -3005,
            Error::EAI_MEMORY => -3006,
            Error::EAI_NODATA => -3007,
            Error::EAI_NONAME => -3008,
            Error::EAI_OVERFLOW => -3009,
            Error::EAI_PROTOCOL => -3014,
            Error::EAI_SERVICE => -3010,
            Error::EAI_SOCKTYPE => -3011,
            Error::EALREADY => -114,
            Error::EBADF => -9,
            Error::EBUSY => -16,
            Error::ECANCELED => -125,
            Error::ECHARSET => -4080,
            Error::ECONNABORTED => -103,
            Error::ECONNREFUSED => -111,
            Error::ECONNRESET => -104,
            Error::EDESTADDRREQ => -89,
            Error::EEXIST => -17,
            Error::EFAULT => -14,
            Error::EFBIG => -27,
            Error::EHOSTUNREACH => -113,
            Error::EINTR => -4,
            Error::EINVAL => -22,
            Error::EIO => -5,
            Error::EISCONN => -106,
            Error::EISDIR => -21,
            Error::ELOOP => -40,
            Error::EMFILE => -24,
            Error::EMSGSIZE => -90,
            Error::ENAMETOOLONG => -36,
            Error::ENETDOWN => -100,
            Error::ENETUNREACH => -101,
            Error::ENFILE => -23,
            Error::ENOBUFS => -105,
            Error::ENODEV => -19,
            Error::ENOENT => -2,
            Error::ENOMEM => -12,
            Error::ENONET => -64,
            Error::ENOPROTOOPT => -92,
            Error::ENOSPC => -28,
            Error::ENOSYS => -38,
            Error::ENOTCONN => -107,
            Error::ENOTDIR => -20,
            Error::ENOTEMPTY => -39,
            Error::ENOTSOCK => -88,
            Error::ENOTSUP => -95,
            Error::EOVERFLOW => -75,
            Error::EPERM => -1,
            Error::EPIPE => -32,
            Error::EPROTO => -71,
            Error::EPROTONOSUPPORT => -93,
            Error::EPROTOTYPE => -91,
            Error::ERANGE => -34,
            Error::EROFS => -30,
            Error::ESHUTDOWN => -108,
            Error::ESPIPE => -29,
            Error::ESRCH => -3,
            Error::ETIMEDOUT => -110,
            Error::ETXTBSY => -26,
            Error::EXDEV => -18,
            Error::UNKNOWN => -4094,
            Error::EOF => -4095,
            Error::ENXIO => -6,
            Error::EMLINK => -31,
            Error::EHOSTDOWN => -112,
            Error::EREMOTEIO => -121,
            Error::ENOTTY => -25,
            Error::EFTYPE => -4028,
            Error::EILSEQ => -84,
            Error::ESOCKTNOSUPPORT => -94,
            Error::ENODATA => -61,
            Error::EUNATCH => -49,
            Error::ENOEXEC => -8,
        }
    }

    /// The error that libuv's integer code `code` stands for: the error whose code it is, or
    /// `UNKNOWN` when no error has that code.
    pub fn from_code(code: i32) -> (r: Error)
        ensures
            decodes_to(code, r),
    {
        let r = match code {
            -7 => Error::E2BIG,
            -13 => Error::EACCES,
            -98 => Error::EADDRINUSE,
            -99 => Error::EADDRNOTAVAIL,
            -97 => Error::EAFNOSUPPORT,
            -11 => Error::EAGAIN,
            -3000 => Error::EAI_ADDRFAMILY,
            -3001 => Error::EAI_AGAIN,
            -3002 => Error::EAI_BADFLAGS,
            -3013 => Error::EAI_BADHINTS,
            -3003 => Error::EAI_CANCELED,
            -3004 => Error::EAI_FAIL,
            -3005 => Error::EAI_FAMILY,
            -3006 => Error::EAI_MEMORY,
            -3007 => Error::EAI_NODATA,
            -3008 => Error::EAI_NONAME,
            -3009 => Error::EAI_OVERFLOW,
            -3014 => Error::EAI_PROTOCOL,
            -3010 => Error::EAI_SERVICE,
            -3011 => Error::EAI_SOCKTYPE,
            -114 => Error::EALREADY,
            -9 => Error::EBADF,
            -16 => Error::EBUSY,
            -125 => Error::ECANCELED,
            -4080 => Error::ECHARSET,
            -103 => Error::ECONNABORTED,
            -111 => Error::ECONNREFUSED,
            -104 => Error::ECONNRESET,
            -89 => Error::EDESTADDRREQ,
            -17 => Error::EEXIST,
            -14 => Error::EFAULT,
            -27 => Error::EFBIG,
            -113 => Error::EHOSTUNREACH,
            -4 => Error::EINTR,
            -22 => Error::EINVAL,
            -5 => Error::EIO,
            -106 => Error::EISCONN,
            -21 => Error::EISDIR,
            -40 => Error::ELOOP,
            -24 => Error::EMFILE,
            -90 => Error::EMSGSIZE,
            -36 => Error::ENAMETOOLONG,
            -100 => Error::ENETDOWN,
            -101 => Error::ENETUNREACH,
            -23 => Error::ENFILE,
            -105 => Error::ENOBUFS,
            -19 => Error::ENODEV,
            -2 => Error::ENOENT,
            -12 => Error::ENOMEM,
            -64 => Error::ENONET,
            -92 => Error::ENOPROTOOPT,
            -28 => Error::ENOSPC,
            -38 => Error::ENOSYS,
            -107 => Error::ENOTCONN,
            -20 => Error::ENOTDIR,
            -39 => Error::ENOTEMPTY,
            -88 => Error::ENOTSOCK,
            -95 => Error::ENOTSUP,
            -75 => Error::EOVERFLOW,
            -1 => Error::EPERM,
            -32 => Error::EPIPE,
            -71 => Error::EPROTO,
            -93 => Error::EPROTONOSUPPORT,
            -91 => Error::EPROTOTYPE,
            -34 => Error::ERANGE,
            -30 => Error::EROFS,
            -108 => Error::ESHUTDOWN,
            -29 => Error::ESPIPE,
            -3 => Error::ESRCH,
            -110 => Error::ETIMEDOUT,
            -26 => Error::ETXTBSY,
            -18 => Error::EXDEV,
            -4094 => Error::UNKNOWN,
            -4095 => Error::EOF,
            -6 => Error::ENXIO,
            -31 => Error::EMLINK,
            -112 => Error::EHOSTDOWN,
            -121 => Error::EREMOTEIO,
            -25 => Error::ENOTTY,
            -4028 => Error::EFTYPE,
            -84 => Error::EILSEQ,
            -94 => Error::ESOCKTNOSUPPORT,
            -61 => Error::ENODATA,
            -49 => Error::EUNATCH,
            -8 => Error::ENOEXEC,
            _ => Error::UNKNOWN,
        };
        proof {
            lemma_inverse_of_code(r);
        }
        r
    }
}

/// `e` is the error that the integer status code `code` stands for.
pub open spec fn decodes_to(code: i32, e: Error) -> bool {
    if exists|x: Error| #[trigger] x.spec_code() == code {
        e.spec_code() == code
    } else {
        e == Error::UNKNOWN
    }
}

spec fn inverse_of_code(code: i32) -> Error {
    match code {
        -7 => Error::E2BIG,
        -13 => Error::EACCES,
        -98 => Error::EADDRINUSE,
        -99 => Error::EADDRNOTAVAIL,
        -97 => Error::EAFNOSUPPORT,
        -11 => Error::EAGAIN,
        -3000 => Error::EAI_ADDRFAMILY,
        -3001 => Error::EAI_AGAIN,
        -3002 => Error::EAI_BADFLAGS,
        -3013 => Error::EAI_BADHINTS,
        -3003 => Error::EAI_CANCELED,
        -3004 => Error::EAI_FAIL,
        -3005 => Error::EAI_FAMILY,
        -3006 => Error::EAI_MEMORY,
        -3007 => Error::EAI_NODATA,
        -3008 => Error::EAI_NONAME,
        -3009 => Error::EAI_OVERFLOW,
        -3014 => Error::EAI_PROTOCOL,
        -3010 => Error::EAI_SERVICE,
        -3011 => Error::EAI_SOCKTYPE,
        -114 => Error::EALREADY,
        -9 => Error::EBADF,
        -16 => Error::EBUSY,
        -125 => Error::ECANCELED,
        -4080 => Error::ECHARSET,
        -103 => Error::ECONNABORTED,
        -111 => Error::ECONNREFUSED,
        -104 => Error::ECONNRESET,
        -89 => Error::EDESTADDRREQ,
        -17 => Error::EEXIST,
        -14 => Error::EFAULT,
        -27 => Error::EFBIG,
        -113 => Error::EHOSTUNREACH,
        -4 => Error::EINTR,
        -22 => Error::EINVAL,
        -5 => Error::EIO,
        -106 => Error::EISCONN,
        -21 => Error::EISDIR,
        -40 => Error::ELOOP,
        -24 => Error::EMFILE,
        -90 => Error::EMSGSIZE,
        -36 => Error::ENAMETOOLONG,
        -100 => Error::ENETDOWN,
        -101 => Error::ENETUNREACH,
        -23 => Error::ENFILE,
        -105 => Error::ENOBUFS,
        -19 => Error::ENODEV,
        -2 => Error::ENOENT,
        -12 => Error::ENOMEM,
        -64 => Error::ENONET,
        -92 => Error::ENOPROTOOPT,
        -28 => Error::ENOSPC,
        -38 => Error::ENOSYS,
        -107 => Error::ENOTCONN,
        -20 => Error::ENOTDIR,
        -39 => Error::ENOTEMPTY,
        -88 => Error::ENOTSOCK,
        -95 => Error::ENOTSUP,
        -75 => Error::EOVERFLOW,
        -1 => Error::EPERM,
        -32 => Error::EPIPE,
        -71 => Error::EPROTO,
        -93 => Error::EPROTONOSUPPORT,
        -91 => Error::EPROTOTYPE,
        -34 => Error::ERANGE,
        -30 => Error::EROFS,
        -108 => Error::ESHUTDOWN,
        -29 => Error::ESPIPE,
        -3 => Error::ESRCH,
        -110 => Error::ETIMEDOUT,
        -26 => Error::ETXTBSY,
        -18 => Error::EXDEV,
        -4094 => Error::UNKNOWN,
        -4095 => Error::EOF,
        -6 => Error::ENXIO,
        -31 => Error::EMLINK,
        -112 => Error::EHOSTDOWN,
        -121 => Error::EREMOTEIO,
        -25 => Error::ENOTTY,
        -4028 => Error::EFTYPE,
        -84 => Error::EILSEQ,
        -94 => Error::ESOCKTNOSUPPORT,
        -61 => Error::ENODATA,
        -49 => Error::EUNATCH,
        -8 => Error::ENOEXEC,
        _ => Error::UNKNOWN,
    }
}

proof fn lemma_inverse_of_code(e: Error)
    ensures
        inverse_of_code(e.spec_code()) == e,
{
}

/// The result of a libuv call that reports only success or failure: `Ok` when the status code
/// is not negative, otherwise the error that the code stands for.
pub fn uvret(code: i32) -> (r: Result<(), Error>)
    ensures
        r is Ok <==> code >= 0,
        r matches Err(e) ==> decodes_to(code, e),
{
    if code < 0 {
        Err(Error::from_code(code))
    } else {
        Ok(())
    }
}

/// The status that libuv passes to a completion callback: the status itself when it is not
/// negative, otherwise the error that it stands for.
pub fn status_result(status: i32) -> (r: Result<u32, Error>)
    ensures
        status >= 0 ==> r == Ok::<u32, Error>(status as u32),
        status < 0 ==> (r matches Err(e) && decodes_to(status, e)),
{
    if status < 0 {
        Err(Error::from_code(status))
    } else {
        Ok(status as u32)
    }
}

/// A count that libuv reports with a signed integer (bytes read, the result of a file-system
/// request): the count when it is not negative, otherwise the error that it stands for, whose
/// code libuv keeps in the low 32 bits.
pub fn count_result(count: i64) -> (r: Result<usize, Error>)
    ensures
        count >= 0 ==> r == Ok::<usize, Error>(count as usize),
        count < 0 ==> (r matches Err(e) && decodes_to(count as i32, e)),
{
    if count < 0 {
        Err(Error::from_code(count as i32))
    } else {
        Ok(count as usize)
    }
}

/// The value returned by a libuv call that reports a non-negative value on success (such as the
/// number of bytes written by a non-queued write), or the error when it is negative.
pub fn value_result(code: i32) -> (r: Result<i32, Error>)
    ensures
        code >= 0 ==> r == Ok::<i32, Error>(code),
        code < 0 ==> (r matches Err(e) && decodes_to(code, e)),
{
    match uvret(code) {
        Ok(()) => Ok(code),
        Err(e) => Err(e),
    }
}

/// The value that a libuv call filled in, when the call's status reports success; otherwise the
/// error that the status stands for.
pub fn uvret_with<T>(code: i32, value: T) -> (r: Result<T, Error>)
    ensures
        code >= 0 ==> r == Ok::<T, Error>(value),
        code < 0 ==> (r matches Err(e) && decodes_to(code, e)),
{
    match uvret(code) {
        Ok(()) => Ok(value),
        Err(e) => Err(e),
    }
}

/// The outcome of creating a libuv object: `ENOMEM` when its memory could not be allocated,
/// otherwise the status of its initialisation.
pub fn init_result(allocated: bool, status: i32) -> (r: Result<(), Error>)
    ensures
        !allocated ==> r == Err::<(), Error>(Error::ENOMEM),
        allocated ==> (r is Ok <==> status >= 0),
        allocated ==> (r matches Err(e) ==> decodes_to(status, e)),
{
    if !allocated {
        Err(Error::ENOMEM)
    } else {
        uvret(status)
    }
}

/// Every error has a negative code, and that code stands for that same error and no other.
pub proof fn lemma_code_roundtrip(e: Error, d: Error)
    requires
        decodes_to(e.spec_code(), d),
    ensures
        d == e,
        e.spec_code() < 0,
{
    lemma_inverse_of_code(e);
    lemma_inverse_of_code(d);
}

/// A code that decodes to an error other than `UNKNOWN` is that error's code.
pub proof fn lemma_known_code(code: i32, d: Error)
    requires
        decodes_to(code, d),
        d != Error::UNKNOWN,
    ensures
        d.spec_code() == code,
{
}

/// Two errors with the same code are the same error.
pub proof fn lemma_code_injective(a: Error, b: Error)
    requires
        a.spec_code() == b.spec_code(),
    ensures
        a == b,
{
    lemma_inverse_of_code(a);
    lemma_inverse_of_code(b);
}

} // verus!
