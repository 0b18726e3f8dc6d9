//! The types of libuv requests and libuv's integer codes for them.
use vstd::prelude::*;

verus! {

/// The type of a libuv request.
#[allow(non_camel_case_types)]
#[derive(Clone, Copy, Debug, PartialEq, Eq, Structural)]
pub enum ReqType {
    /// A request of a type that this library does not know.
    UNKNOWN,
    /// The base request type.
    REQ,
    /// A connect request.
    CONNECT,
    /// A write request.
    WRITE,
    /// A shutdown request.
    SHUTDOWN,
    /// A UDP send request.
    UDP_SEND,
    /// A file-system request.
    FS,
    /// A work request run on the thread pool.
    WORK,
    /// An address lookup.
    GETADDRINFO,
    /// A name lookup.
    GETNAMEINFO,
    /// A request for random bytes.
    RANDOM,
}

impl ReqType {
    /// The integer by which libuv denotes this type.
    pub open spec fn spec_code(self) -> u32 {
        match self {
            ReqType::UNKNOWN => 0u32,
            ReqType::REQ => 1u32,
            ReqType::CONNECT => 2u32,
            ReqType::WRITE => 3u32,
            ReqType::SHUTDOWN => 4u32,
            ReqType::UDP_SEND => 5u32,
            ReqType::FS => 6u32,
            ReqType::WORK => 7u32,
            ReqType::GETADDRINFO => 8u32,
            ReqType::GETNAMEINFO => 9u32,
            ReqType::RANDOM => 10u32,
        }
    }

    /// The type that libuv's integer `code` denotes: the type whose code it is, or `UNKNOWN`
    /// when no type has that code.
    pub open spec fn spec_from_code(code: u32) -> ReqType {
        if exists|t: ReqType| #[trigger] t.spec_code() == code {
            choose|t: ReqType| #[trigger] t.spec_code() == code
        } else {
            ReqType::UNKNOWN
        }
    }

    /// The integer by which libuv denotes this type.
    pub fn code(&self) -> (r: u32)
        ensures
            r == self.spec_code(),
    {
        match self {
            ReqType::UNKNOWN => 0,
            ReqType::REQ => 1,
            ReqType::CONNECT => 2,
            ReqType::WRITE => 3,
            ReqType::SHUTDOWN => 4,
            ReqType::UDP_SEND => 5,
            ReqType::FS => 6,
            ReqType::WORK => 7,
            ReqType::GETADDRINFO => 8,
            ReqType::GETNAMEINFO => 9,
            ReqType::RANDOM => 10,
        }
    }

    /// The type that libuv's integer `code` denotes, or `UNKNOWN` when no type has that code.
    pub fn from_code(code: u32) -> (r: ReqType)
        ensures
            r == Self::spec_from_code(code),
    {
        let r = match code {
            1 => ReqType::REQ,
            2 => ReqType::CONNECT,
            3 => ReqType::WRITE,
            4 => ReqType::SHUTDOWN,
            5 => ReqType::UDP_SEND,
            6 => ReqType::FS,
            7 => ReqType::WORK,
            8 => ReqType::GETADDRINFO,
            9 => ReqType::GETNAMEINFO,
            10 => ReqType::RANDOM,
            _ => ReqType::UNKNOWN,
        };
        proof {
            lemma_code_injective(r, Self::spec_from_code(code));
        }
        r
    }
}

impl From<u32> for ReqType {
    fn from(code: u32) -> (r: ReqType) {
        ReqType::from_code(code)
    }
}

impl vstd::std_specs::convert::FromSpecImpl<u32> for ReqType {
    open spec fn obeys_from_spec() -> bool {
        true
    }

    open spec fn from_spec(v: u32) -> ReqType {
        ReqType::spec_from_code(v)
    }
}

spec fn inverse_of_code(code: u32) -> ReqType {
    match code {
        1 => ReqType::REQ,
        2 => ReqType::CONNECT,
        3 => ReqType::WRITE,
        4 => ReqType::SHUTDOWN,
        5 => ReqType::UDP_SEND,
        6 => ReqType::FS,
        7 => ReqType::WORK,
        8 => ReqType::GETADDRINFO,
        9 => ReqType::GETNAMEINFO,
        10 => ReqType::RANDOM,
        _ => ReqType::UNKNOWN,
    }
}

/// Two types with the same code are the same type.
pub proof fn lemma_code_injective(a: ReqType, b: ReqType)
    requires
        a.spec_code() == b.spec_code(),
    ensures
        a == b,
{
    assert(inverse_of_code(a.spec_code()) == a);
    assert(inverse_of_code(b.spec_code()) == b);
}

/// Decoding a type's code gives back that type.
pub proof fn lemma_from_code_of_code(t: ReqType)
    ensures
        ReqType::spec_from_code(t.spec_code()) == t,
{
    lemma_code_injective(t, ReqType::spec_from_code(t.spec_code()));
}

/// Encoding the type that a code decodes to gives back the code, unless no type has that code.
pub proof fn lemma_code_of_from_code(code: u32)
    ensures
        ReqType::spec_from_code(code).spec_code() == code
            || ReqType::spec_from_code(code) == ReqType::UNKNOWN,
{
}

} // verus!
