//! The types of file-system requests, libuv's integer codes for them, and which of them
//! produce a directory stream, file-system statistics or a path.
use vstd::prelude::*;

verus! {

/// The type of a file-system request.
#[allow(non_camel_case_types)]
#[derive(Clone, Copy, Debug, PartialEq, Eq, Structural)]
pub enum FsType {
    /// A request of a type that this library does not know.
    UNKNOWN,
    /// A custom request.
    CUSTOM,
    /// The `open` operation.
    OPEN,
    /// The `close` operation.
    CLOSE,
    /// The `read` operation.
    READ,
    /// The `write` operation.
    WRITE,
    /// The `sendfile` operation.
    SENDFILE,
    /// The `stat` operation.
    STAT,
    /// The `lstat` operation.
    LSTAT,
    /// The `fstat` operation.
    FSTAT,
    /// The `ftruncate` operation.
    FTRUNCATE,
    /// The `utime` operation.
    UTIME,
    /// The `futime` operation.
    FUTIME,
    /// The `access` operation.
    ACCESS,
    /// The `chmod` operation.
    CHMOD,
    /// The `fchmod` operation.
    FCHMOD,
    /// The `fsync` operation.
    FSYNC,
    /// The `fdatasync` operation.
    FDATASYNC,
    /// The `unlink` operation.
    UNLINK,
    /// The `rmdir` operation.
    RMDIR,
    /// The `mkdir` operation.
    MKDIR,
    /// The `mkdtemp` operation.
    MKDTEMP,
    /// The `rename` operation.
    RENAME,
    /// The `scandir` operation.
    SCANDIR,
    /// The `link` operation.
    LINK,
    /// The `symlink` operation.
    SYMLINK,
    /// The `readlink` operation.
    READLINK,
    /// The `chown` operation.
    CHOWN,
    /// The `fchown` operation.
    FCHOWN,
    /// The `realpath` operation.
    REALPATH,
    /// The `copyfile` operation.
    COPYFILE,
    /// The `lchown` operation.
    LCHOWN,
    /// The `opendir` operation.
    OPENDIR,
    /// The `readdir` operation.
    READDIR,
    /// The `closedir` operation.
    CLOSEDIR,
    /// The `statfs` operation.
    STATFS,
    /// The `mkstemp` operation.
    MKSTEMP,
    /// The `lutime` operation.
    LUTIME,
}

impl FsType {
    /// The integer by which libuv denotes this type.
    pub open spec fn spec_code(self) -> i32 {
        match self {
            FsType::UNKNOWN => -1i32,
            FsType::CUSTOM => 0i32,
            FsType::OPEN => 1i32,
            FsType::CLOSE => 2i32,
            FsType::READ => 3i32,
            FsType::WRITE => 4i32,
            FsType::SENDFILE => 5i32,
            FsType::STAT => 6i32,
            FsType::LSTAT => 7i32,
            FsType::FSTAT => 8i32,
            FsType::FTRUNCATE => 9i32,
            FsType::UTIME => 10i32,
            FsType::FUTIME => 11i32,
            FsType::ACCESS => 12i32,
            FsType::CHMOD => 13i32,
            FsType::FCHMOD => 14i32,
            FsType::FSYNC => 15i32,
            FsType::FDATASYNC => 16i32,
            FsType::UNLINK => 17i32,
            FsType::RMDIR => 18i32,
            FsType::MKDIR => 19i32,
            FsType::MKDTEMP => 20i32,
            FsType::RENAME => 21i32,
            FsType::SCANDIR => 22i32,
            FsType::LINK => 23i32,
            FsType::SYMLINK => 24i32,
            FsType::READLINK => 25i32,
            FsType::CHOWN => 26i32,
            FsType::FCHOWN => 27i32,
            FsType::REALPATH => 28i32,
            FsType::COPYFILE => 29i32,
            FsType::LCHOWN => 30i32,
            FsType::OPENDIR => 31i32,
            FsType::READDIR => 32i32,
            FsType::CLOSEDIR => 33i32,
            FsType::STATFS => 34i32,
            FsType::MKSTEMP => 35i32,
            FsType::LUTIME => 36i32,
        }
    }

    /// The type that libuv's integer `code` denotes: the type whose code it is, or `UNKNOWN`
    /// when no type has that code.
    pub open spec fn spec_from_code(code: i32) -> FsType {
        if exists|t: FsType| #[trigger] t.spec_code() == code {
            choose|t: FsType| #[trigger] t.spec_code() == code
        } else {
            FsType::UNKNOWN
        }
    }

    /// The integer by which libuv denotes this type.
    pub fn code(&self) -> (r: i32)
        ensures
            r == self.spec_code(),
    {
        match self {
            FsType::UNKNOWN => -1,
            FsType::CUSTOM => 0,
            FsType::OPEN => 1,
            FsType::CLOSE => 2,
            FsType::READ => 3,
            FsType::WRITE => 4,
            FsType::SENDFILE => 5,
            FsType::STAT => 6,
            FsType::LSTAT => 7,
            FsType::FSTAT => 8,
            FsType::FTRUNCATE => 9,
            FsType::UTIME => 10,
            FsType::FUTIME => 11,
            FsType::ACCESS => 12,
            FsType::CHMOD => 13,
            FsType::FCHMOD => 14,
            FsType::FSYNC => 15,
            FsType::FDATASYNC => 16,
            FsType::UNLINK => 17,
            FsType::RMDIR => 18,
            FsType::MKDIR => 19,
            FsType::MKDTEMP => 20,
            FsType::RENAME => 21,
            FsType::SCANDIR => 22,
            FsType::LINK => 23,
            FsType::SYMLINK => 24,
            FsType::READLINK => 25,
            FsType::CHOWN => 26,
            FsType::FCHOWN => 27,
            FsType::REALPATH => 28,
            FsType::COPYFILE => 29,
            FsType::LCHOWN => 30,
            FsType::OPENDIR => 31,
            FsType::READDIR => 32,
            FsType::CLOSEDIR => 33,
            FsType::STATFS => 34,
            FsType::MKSTEMP => 35,
            FsType::LUTIME => 36,
        }
    }

    /// The type that libuv's integer `code` denotes, or `UNKNOWN` when no type has that code.
    pub fn from_code(code: i32) -> (r: FsType)
        ensures
            r == Self::spec_from_code(code),
    {
        let r = match code {
            0 => FsType::CUSTOM,
            1 => FsType::OPEN,
            2 => FsType::CLOSE,
            3 => FsType::READ,
            4 => FsType::WRITE,
            5 => FsType::SENDFILE,
            6 => FsType::STAT,
            7 => FsType::LSTAT,
            8 => FsType::FSTAT,
            9 => FsType::FTRUNCATE,
            10 => FsType::UTIME,
            11 => FsType::FUTIME,
            12 => FsType::ACCESS,
            13 => FsType::CHMOD,
            14 => FsType::FCHMOD,
            15 => FsType::FSYNC,
            16 => FsType::FDATASYNC,
            17 => FsType::UNLINK,
            18 => FsType::RMDIR,
            19 => FsType::MKDIR,
            20 => FsType::MKDTEMP,
            21 => FsType::RENAME,
            22 => FsType::SCANDIR,
            23 => FsType::LINK,
            24 => FsType::SYMLINK,
            25 => FsType::READLINK,
            26 => FsType::CHOWN,
            27 => FsType::FCHOWN,
            28 => FsType::REALPATH,
            29 => FsType::COPYFILE,
            30 => FsType::LCHOWN,
            31 => FsType::OPENDIR,
            32 => FsType::READDIR,
            33 => FsType::CLOSEDIR,
            34 => FsType::STATFS,
            35 => FsType::MKSTEMP,
            36 => FsType::LUTIME,
            _ => FsType::UNKNOWN,
        };
        proof {
            lemma_code_injective(r, Self::spec_from_code(code));
        }
        r
    }
}

impl From<i32> for FsType {
    fn from(code: i32) -> (r: FsType) {
        FsType::from_code(code)
    }
}

impl vstd::std_specs::convert::FromSpecImpl<i32> for FsType {
    open spec fn obeys_from_spec() -> bool {
        true
    }

    open spec fn from_spec(v: i32) -> FsType {
        FsType::spec_from_code(v)
    }
}

spec fn inverse_of_code(code: i32) -> FsType {
    match code {
        0 => FsType::CUSTOM,
        1 => FsType::OPEN,
        2 => FsType::CLOSE,
        3 => FsType::READ,
        4 => FsType::WRITE,
        5 => FsType::SENDFILE,
        6 => FsType::STAT,
        7 => FsType::LSTAT,
        8 => FsType::FSTAT,
        9 => FsType::FTRUNCATE,
        10 => FsType::UTIME,
        11 => FsType::FUTIME,
        12 => FsType::ACCESS,
        13 => FsType::CHMOD,
        14 => FsType::FCHMOD,
        15 => FsType::FSYNC,
        16 => FsType::FDATASYNC,
        17 => FsType::UNLINK,
        18 => FsType::RMDIR,
        19 => FsType::MKDIR,
        20 => FsType::MKDTEMP,
        21 => FsType::RENAME,
        22 => FsType::SCANDIR,
        23 => FsType::LINK,
        24 => FsType::SYMLINK,
        25 => FsType::READLINK,
        26 => FsType::CHOWN,
        27 => FsType::FCHOWN,
        28 => FsType::REALPATH,
        29 => FsType::COPYFILE,
        30 => FsType::LCHOWN,
        31 => FsType::OPENDIR,
        32 => FsType::READDIR,
        33 => FsType::CLOSEDIR,
        34 => FsType::STATFS,
        35 => FsType::MKSTEMP,
        36 => FsType::LUTIME,
        _ => FsType::UNKNOWN,
    }
}

/// Two types with the same code are the same type.
pub proof fn lemma_code_injective(a: FsType, b: FsType)
    requires
        a.spec_code() == b.spec_code(),
    ensures
        a == b,
{
    assert(inverse_of_code(a.spec_code()) == a);
    assert(inverse_of_code(b.spec_code()) == b);
}

/// Decoding a type's code gives back that type.
pub proof fn lemma_from_code_of_code(t: FsType)
    ensures
        FsType::spec_from_code(t.spec_code()) == t,
{
    lemma_code_injective(t, FsType::spec_from_code(t.spec_code()));
}

/// Encoding the type that a code decodes to gives back the code, unless no type has that code.
pub proof fn lemma_code_of_from_code(code: i32)
    ensures
        FsType::spec_from_code(code).spec_code() == code
            || FsType::spec_from_code(code) == FsType::UNKNOWN,
{
}

impl FsType {
    /// Whether a request of this type produces a directory stream (`opendir`, `readdir`).
    pub fn yields_dir(&self) -> (r: bool)
        ensures
            r == (*self == FsType::OPENDIR || *self == FsType::READDIR),
    {
        match self {
            FsType::OPENDIR | FsType::READDIR => true,
            _ => false,
        }
    }

    /// Whether a request of this type produces file-system statistics (`statfs`).
    pub fn yields_statfs(&self) -> (r: bool)
        ensures
            r == (*self == FsType::STATFS),
    {
        match self {
            FsType::STATFS => true,
            _ => false,
        }
    }

    /// Whether a request of this type produces a path (`readlink`, `realpath`).
    pub fn yields_path(&self) -> (r: bool)
        ensures
            r == (*self == FsType::READLINK || *self == FsType::REALPATH),
    {
        match self {
            FsType::READLINK | FsType::REALPATH => true,
            _ => false,
        }
    }
}

} // verus!
