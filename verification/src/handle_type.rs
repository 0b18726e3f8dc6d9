//! The types of libuv handles, libuv's integer codes for them, and the test that a
//! handle has the type that it is converted to.
use vstd::prelude::*;

verus! {

/// The type of a libuv handle.
#[allow(non_camel_case_types)]
#[derive(Clone, Copy, Debug, PartialEq, Eq, Structural)]
pub enum HandleType {
    /// A handle of a type that this library does not know.
    UNKNOWN,
    /// An async handle.
    ASYNC,
    /// A check handle.
    CHECK,
    /// A file-system event handle.
    FS_EVENT,
    /// A file-system poll handle.
    FS_POLL,
    /// The base handle type.
    HANDLE,
    /// An idle handle.
    IDLE,
    /// A pipe handle.
    NAMED_PIPE,
    /// A poll handle.
    POLL,
    /// A prepare handle.
    PREPARE,
    /// A process handle.
    PROCESS,
    /// The base stream type.
    STREAM,
    /// A TCP handle.
    TCP,
    /// A timer handle.
    TIMER,
    /// A TTY handle.
    TTY,
    /// A UDP handle.
    UDP,
    /// A signal handle.
    SIGNAL,
    /// A file.
    FILE,
}

impl HandleType {
    /// The integer by which libuv denotes this type.
    pub open spec fn spec_code(self) -> u32 {
        match self {
            HandleType::UNKNOWN => 0u32,
            HandleType::ASYNC => 1u32,
            HandleType::CHECK => 2u32,
            HandleType::FS_EVENT => 3u32,
            HandleType::FS_POLL => 4u32,
            HandleType::HANDLE => 5u32,
            HandleType::IDLE => 6u32,
            HandleType::NAMED_PIPE => 7u32,
            HandleType::POLL => 8u32,
            HandleType::PREPARE => 9u32,
            HandleType::PROCESS => 10u32,
            HandleType::STREAM => 11u32,
            HandleType::TCP => 12u32,
            HandleType::TIMER => 13u32,
            HandleType::TTY => 14u32,
            HandleType::UDP => 15u32,
            HandleType::SIGNAL => 16u32,
            HandleType::FILE => 17u32,
        }
    }

    /// The type that libuv's integer `code` denotes: the type whose code it is, or `UNKNOWN`
    /// when no type has that code.
    pub open spec fn spec_from_code(code: u32) -> HandleType {
        if exists|t: HandleType| #[trigger] t.spec_code() == code {
            choose|t: HandleType| #[trigger] t.spec_code() == code
        } else {
            HandleType::UNKNOWN
        }
    }

    /// The integer by which libuv denotes this type.
    pub fn code(&self) -> (r: u32)
        ensures
            r == self.spec_code(),
    {
        match self {
            HandleType::UNKNOWN => 0,
            HandleType::ASYNC => 1,
            HandleType::CHECK => 2,
            HandleType::FS_EVENT => 3,
            HandleType::FS_POLL => 4,
            HandleType::HANDLE => 5,
            HandleType::IDLE => 6,
            HandleType::NAMED_PIPE => 7,
            HandleType::POLL => 8,
            HandleType::PREPARE => 9,
            HandleType::PROCESS => 10,
            HandleType::STREAM => 11,
            HandleType::TCP => 12,
            HandleType::TIMER => 13,
            HandleType::TTY => 14,
            HandleType::UDP => 15,
            HandleType::SIGNAL => 16,
            HandleType::FILE => 17,
        }
    }

    /// The type that libuv's integer `code` denotes, or `UNKNOWN` when no type has that code.
    pub fn from_code(code: u32) -> (r: HandleType)
        ensures
            r == Self::spec_from_code(code),
    {
        let r = match code {
            1 => HandleType::ASYNC,
            2 => HandleType::CHECK,
            3 => HandleType::FS_EVENT,
            4 => HandleType::FS_POLL,
            5 => HandleType::HANDLE,
            6 => HandleType::IDLE,
            7 => HandleType::NAMED_PIPE,
            8 => HandleType::POLL,
            9 => HandleType::PREPARE,
            10 => HandleType::PROCESS,
            11 => HandleType::STREAM,
            12 => HandleType::TCP,
            13 => HandleType::TIMER,
            14 => HandleType::TTY,
            15 => HandleType::UDP,
            16 => HandleType::SIGNAL,
            17 => HandleType::FILE,
            _ => HandleType::UNKNOWN,
        };
        proof {
            lemma_code_injective(r, Self::spec_from_code(code));
        }
        r
    }
}

impl From<u32> for HandleType {
    fn from(code: u32) -> (r: HandleType) {
        HandleType::from_code(code)
    }
}

impl vstd::std_specs::convert::FromSpecImpl<u32> for HandleType {
    open spec fn obeys_from_spec() -> bool {
        true
    }

    open spec fn from_spec(v: u32) -> HandleType {
        HandleType::spec_from_code(v)
    }
}

spec fn inverse_of_code(code: u32) -> HandleType {
    match code {
        1 => HandleType::ASYNC,
        2 => HandleType::CHECK,
        3 => HandleType::FS_EVENT,
        4 => HandleType::FS_POLL,
        5 => HandleType::HANDLE,
        6 => HandleType::IDLE,
        7 => HandleType::NAMED_PIPE,
        8 => HandleType::POLL,
        9 => HandleType::PREPARE,
        10 => HandleType::PROCESS,
        11 => HandleType::STREAM,
        12 => HandleType::TCP,
        13 => HandleType::TIMER,
        14 => HandleType::TTY,
        15 => HandleType::UDP,
        16 => HandleType::SIGNAL,
        17 => HandleType::FILE,
        _ => HandleType::UNKNOWN,
    }
}

/// Two types with the same code are the same type.
pub proof fn lemma_code_injective(a: HandleType, b: HandleType)
    requires
        a.spec_code() == b.spec_code(),
    ensures
        a == b,
{
    assert(inverse_of_code(a.spec_code()) == a);
    assert(inverse_of_code(b.spec_code()) == b);
}

/// Decoding a type's code gives back that type.
pub proof fn lemma_from_code_of_code(t: HandleType)
    ensures
        HandleType::spec_from_code(t.spec_code()) == t,
{
    lemma_code_injective(t, HandleType::spec_from_code(t.spec_code()));
}

/// Encoding the type that a code decodes to gives back the code, unless no type has that code.
pub proof fn lemma_code_of_from_code(code: u32)
    ensures
        HandleType::spec_from_code(code).spec_code() == code
            || HandleType::spec_from_code(code) == HandleType::UNKNOWN,
{
}

impl HandleType {
    /// Whether handles of this type are allocated by this library, so that their memory is
    /// released, with the layout of the type, once libuv has closed them.
    pub open spec fn spec_has_layout(self) -> bool {
        self != HandleType::UNKNOWN && self != HandleType::FILE
    }

    /// Whether handles of this type are allocated by this library, so that their memory is
    /// released, with the layout of the type, once libuv has closed them.
    pub fn has_layout(&self) -> (r: bool)
        ensures
            r == self.spec_has_layout(),
    {
        match self {
            HandleType::UNKNOWN | HandleType::FILE => false,
            _ => true,
        }
    }
}

/// The error returned when a handle is converted to a handle type that it does not have.
#[derive(Clone, Copy, Debug, PartialEq, Eq, Structural)]
pub struct ConversionError {
    /// The type that the handle has.
    pub from: HandleType,
    /// The type that it was to be converted to.
    pub to: HandleType,
}

impl ConversionError {
    /// A conversion error from handle type `from` to handle type `to`.
    pub fn new(from: HandleType, to: HandleType) -> (r: ConversionError)
        ensures
            r.from == from,
            r.to == to,
    {
        ConversionError { from, to }
    }
}

/// Checks that a handle of type `actual` may be converted to a handle of type `expected`: it may
/// when the two are the same, and the error names both otherwise.
pub fn check_handle_type(actual: HandleType, expected: HandleType) -> (r: Result<(), ConversionError>)
    ensures
        r is Ok <==> actual == expected,
        r matches Err(e) ==> e.from == actual && e.to == expected,
{
    if actual != expected {
        Err(ConversionError::new(actual, expected))
    } else {
        Ok(())
    }
}

} // verus!
