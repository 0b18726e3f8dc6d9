//! Socket addresses as libuv hands them over, the records of the network interfaces, and the
//! small enumerations of the networking calls.
//!
//! libuv reports an address as a `sockaddr`: an address family, then the family's data. For
//! IPv4 (`sockaddr_in`) the data is the port in network byte order, then the four bytes of the
//! address; for IPv6 (`sockaddr_in6`) it is the port in network byte order, four bytes of flow
//! information, then the sixteen bytes of the address. The family numbers are those of Linux.
use vstd::prelude::*;
use crate::error::Error;
use crate::flags::{AddrInfoFlagSet, AddrInfoFlags, FlagSet};

verus! {

broadcast use vstd::array::group_array_axioms;

/// The address family of a socket.
#[derive(Clone, Copy, Debug, PartialEq, Eq, Structural)]
pub enum AddrFamily {
    /// IPv4.
    INET,
    /// IPv6.
    INET6,
    /// Unspecified.
    Unspecified,
}

impl AddrFamily {
    /// The number of the family (`AF_INET`, `AF_INET6`, `AF_UNSPEC`).
    pub open spec fn spec_code(self) -> i32 {
        match self {
            AddrFamily::INET => 2,
            AddrFamily::INET6 => 10,
            AddrFamily::Unspecified => 0,
        }
    }

    /// The family whose number is `code`, if any.
    pub fn from_code(code: i32) -> (r: Option<AddrFamily>)
        ensures
            r is Some <==> (code == 2 || code == 10 || code == 0),
            r matches Some(f) ==> f.spec_code() == code,
    {
        if code == 2 {
            Some(AddrFamily::INET)
        } else if code == 10 {
            Some(AddrFamily::INET6)
        } else if code == 0 {
            Some(AddrFamily::Unspecified)
        } else {
            None
        }
    }

    /// The number of the family (`AF_INET`, `AF_INET6`, `AF_UNSPEC`).
    pub fn code(self) -> (r: i32)
        ensures
            r == self.spec_code(),
    {
        match self {
            AddrFamily::INET => 2,
            AddrFamily::INET6 => 10,
            AddrFamily::Unspecified => 0,
        }
    }
}

/// An IP address and a port.
#[derive(Clone, Copy, Debug, PartialEq, Eq)]
pub enum SocketAddress {
    /// An IPv4 address: its four bytes, most significant first, and the port.
    V4 { ip: [u8; 4], port: u16 },
    /// An IPv6 address: its sixteen bytes, most significant first, and the port.
    V6 { ip: [u8; 16], port: u16 },
}

/// The port stored in network byte order in the two bytes `hi`, `lo`.
pub open spec fn port_of_bytes(hi: u8, lo: u8) -> u16 {
    (hi * 256 + lo) as u16
}

/// The address that libuv describes by the family `family` and the family's data `data`, when
/// the family is IPv4 or IPv6.
pub open spec fn decoded_address(family: i32, data: Seq<u8>, a: SocketAddress) -> bool {
    if family == AddrFamily::INET.spec_code() {
        a matches SocketAddress::V4 { ip, port }
            && port == port_of_bytes(data[0], data[1])
            && ip@ == data.subrange(2, 6)
    } else {
        a matches SocketAddress::V6 { ip, port }
            && port == port_of_bytes(data[0], data[1])
            && ip@ == data.subrange(6, 22)
    }
}

/// The family number and the family's data by which libuv describes the address `a`: the port
/// in network byte order and the address bytes, with the IPv6 flow information and every
/// trailing byte (the padding of `sockaddr_in`, the scope id of `sockaddr_in6`) zero.
pub open spec fn encoded_address(a: SocketAddress) -> (i32, Seq<u8>) {
    match a {
        SocketAddress::V4 { ip, port } => (
            AddrFamily::INET.spec_code(),
            seq![(port / 256) as u8, (port % 256) as u8] + ip@ + Seq::new(8, |i: int| 0u8),
        ),
        SocketAddress::V6 { ip, port } => (
            AddrFamily::INET6.spec_code(),
            seq![(port / 256) as u8, (port % 256) as u8] + Seq::new(4, |i: int| 0u8) + ip@
                + Seq::new(4, |i: int| 0u8),
        ),
    }
}

/// Whether the family is one whose addresses can be decoded.
pub open spec fn supported_family(family: i32) -> bool {
    family == AddrFamily::INET.spec_code() || family == AddrFamily::INET6.spec_code()
}

/// The bytes `data` that follow the family are long enough for an address of that family.
pub open spec fn long_enough(family: i32, data: Seq<u8>) -> bool {
    &&& family == AddrFamily::INET.spec_code() ==> data.len() >= 6
    &&& family == AddrFamily::INET6.spec_code() ==> data.len() >= 22
}

/// The address that libuv describes by the family `family` and the bytes `data` that follow the
/// family in the `sockaddr`. A family other than IPv4 and IPv6 is not supported.
pub fn build_socketaddr(family: i32, data: &[u8]) -> (r: Result<SocketAddress, Error>)
    requires
        long_enough(family, data@),
    ensures
        supported_family(family) ==> (r matches Ok(a) && decoded_address(family, data@, a)),
        !supported_family(family) ==> r == Err::<SocketAddress, Error>(Error::ENOTSUP),
        family == 2 ==> (r matches Ok(SocketAddress::V4 { ip, port }) && ip@ == data@.subrange(2, 6)
            && port as int == data@[0] as int * 256 + data@[1] as int),
        family == 10 ==> (r matches Ok(SocketAddress::V6 { ip, port }) && ip@ == data@.subrange(
            6,
            22,
        ) && port as int == data@[0] as int * 256 + data@[1] as int),
{
    if family == AddrFamily::INET.code() {
        let port = (data[0] as u16) * 256 + (data[1] as u16);
        let ip = [data[2], data[3], data[4], data[5]];
        assert(ip@ =~= data@.subrange(2, 6));
        Ok(SocketAddress::V4 { ip, port })
    } else if family == AddrFamily::INET6.code() {
        let port = (data[0] as u16) * 256 + (data[1] as u16);
        let ip = [
            data[6],
            data[7],
            data[8],
            data[9],
            data[10],
            data[11],
            data[12],
            data[13],
            data[14],
            data[15],
            data[16],
            data[17],
            data[18],
            data[19],
            data[20],
            data[21],
        ];
        assert(ip@ =~= data@.subrange(6, 22));
        Ok(SocketAddress::V6 { ip, port })
    } else {
        Err(Error::ENOTSUP)
    }
}

/// The family number and the bytes that follow the family in the `sockaddr` that describes
/// `addr` to libuv.
pub fn fill_sockaddr(addr: &SocketAddress) -> (r: (i32, Vec<u8>))
    ensures
        (r.0, r.1@) == encoded_address(*addr),
{
    match addr {
        SocketAddress::V4 { ip, port } => {
            let mut data: Vec<u8> = Vec::new();
            data.push((*port / 256) as u8);
            data.push((*port % 256) as u8);
            let mut i: usize = 0;
            while i < 4
                invariant
                    0 <= i <= 4,
                    data@ =~= seq![(*port / 256) as u8, (*port % 256) as u8] + ip@.subrange(0, i as int),
                decreases 4 - i,
            {
                data.push(ip[i]);
                i = i + 1;
            }
            let mut j: usize = 0;
            while j < 8
                invariant
                    0 <= j <= 8,
                    data@ =~= seq![(*port / 256) as u8, (*port % 256) as u8] + ip@ + Seq::new(j as nat, |k: int| 0u8),
                decreases 8 - j,
            {
                data.push(0);
                j = j + 1;
            }
            (AddrFamily::INET.code(), data)
        },
        SocketAddress::V6 { ip, port } => {
            let mut data: Vec<u8> = Vec::new();
            data.push((*port / 256) as u8);
            data.push((*port % 256) as u8);
            let mut j: usize = 0;
            while j < 4
                invariant
                    0 <= j <= 4,
                    data@ =~= seq![(*port / 256) as u8, (*port % 256) as u8] + Seq::new(j as nat, |k: int| 0u8),
                decreases 4 - j,
            {
                data.push(0);
                j = j + 1;
            }
            let mut i: usize = 0;
            while i < 16
                invariant
                    0 <= i <= 16,
                    data@ =~= seq![(*port / 256) as u8, (*port % 256) as u8] + Seq::new(4, |k: int| 0u8) + ip@.subrange(0, i as int),
                decreases 16 - i,
            {
                data.push(ip[i]);
                i = i + 1;
            }
            let mut m: usize = 0;
            while m < 4
                invariant
                    0 <= m <= 4,
                    data@ =~= seq![(*port / 256) as u8, (*port % 256) as u8] + Seq::new(4, |k: int| 0u8) + ip@ + Seq::new(m as nat, |k: int| 0u8),
                decreases 4 - m,
            {
                data.push(0);
                m = m + 1;
            }
            (AddrFamily::INET6.code(), data)
        },
    }
}

/// What a `sockaddr` decodes to: for IPv4, the port read big-endian from the first two bytes and
/// the address from the next four; for IPv6, the port from the first two bytes and the address
/// from bytes 6 to 22. Nothing else in the data counts: the padding of `sockaddr_in`, the flow
/// information and the scope id of `sockaddr_in6` leave the address unchanged, so two
/// descriptions that agree on the port and address bytes decode to the same address.
pub proof fn lemma_decoded_address(family: i32, data: Seq<u8>, a: SocketAddress, other: Seq<u8>, b: SocketAddress)
    requires
        supported_family(family),
        long_enough(family, data),
        long_enough(family, other),
        decoded_address(family, data, a),
        decoded_address(family, other, b),
    ensures
        family == 2 ==> (a matches SocketAddress::V4 { ip, port } && ip@ == data.subrange(2, 6)
            && port as int == data[0] as int * 256 + data[1] as int),
        family == 10 ==> (a matches SocketAddress::V6 { ip, port } && ip@ == data.subrange(6, 22)
            && port as int == data[0] as int * 256 + data[1] as int),
        family == 2 && data.subrange(0, 6) == other.subrange(0, 6) ==> a == b,
        family == 10 && data.subrange(0, 2) == other.subrange(0, 2) && data.subrange(6, 22)
            == other.subrange(6, 22) ==> a == b,
{
    assert(data[0] as int * 256 + data[1] as int <= 0xffff);
    assert(other[0] as int * 256 + other[1] as int <= 0xffff);
    if family == 2 && data.subrange(0, 6) == other.subrange(0, 6) {
        assert(data[0] == data.subrange(0, 6)[0] && data[1] == data.subrange(0, 6)[1]);
        assert(other[0] == other.subrange(0, 6)[0] && other[1] == other.subrange(0, 6)[1]);
        assert(data.subrange(2, 6) =~= data.subrange(0, 6).subrange(2, 6));
        assert(other.subrange(2, 6) =~= other.subrange(0, 6).subrange(2, 6));
        if let SocketAddress::V4 { ip: ip1, port: p1 } = a {
            if let SocketAddress::V4 { ip: ip2, port: p2 } = b {
                assert(ip1@ =~= ip2@);
                assert(ip1 == ip2);
            }
        }
    }
    if family == 10 && data.subrange(0, 2) == other.subrange(0, 2) && data.subrange(6, 22)
        == other.subrange(6, 22) {
        assert(data[0] == data.subrange(0, 2)[0] && data[1] == data.subrange(0, 2)[1]);
        assert(other[0] == other.subrange(0, 2)[0] && other[1] == other.subrange(0, 2)[1]);
        if let SocketAddress::V6 { ip: ip1, port: p1 } = a {
            if let SocketAddress::V6 { ip: ip2, port: p2 } = b {
                assert(ip1@ =~= ip2@);
                assert(ip1 == ip2);
            }
        }
    }
}

/// Decoding the description of an address gives back that address.
pub proof fn lemma_address_roundtrip(a: SocketAddress, d: SocketAddress)
    requires
        decoded_address(encoded_address(a).0, encoded_address(a).1, d),
    ensures
        d == a,
{
    let e = encoded_address(a);
    match a {
        SocketAddress::V4 { ip, port } => {
            assert(e.1.subrange(2, 6) =~= ip@);
            if let SocketAddress::V4 { ip: ip2, port: port2 } = d {
                assert(ip2@ == ip@);
                assert(ip2 == ip);
            }
        },
        SocketAddress::V6 { ip, port } => {
            assert(e.1.subrange(6, 22) =~= ip@);
            if let SocketAddress::V6 { ip: ip2, port: port2 } = d {
                assert(ip2@ == ip@);
                assert(ip2 == ip);
            }
        },
    }
}

/// Data type for interface addresses.
#[derive(Debug)]
pub struct InterfaceAddress {
    /// The name of the interface.
    pub name: String,
    /// The physical (MAC) address of the interface.
    pub physical_address: [u8; 6],
    /// Whether the interface is internal (such as a loopback interface).
    pub is_internal: bool,
    /// The address of the interface.
    pub address: SocketAddress,
    /// The netmask of the interface.
    pub netmask: SocketAddress,
}

impl InterfaceAddress {
    /// The record of an interface as libuv describes it: its name, its physical address, the
    /// flag telling whether it is internal (non-zero when it is), and its address and netmask
    /// as families and the bytes that follow them. It fails when the address or the netmask is
    /// of a family other than IPv4 and IPv6.
    pub fn from_raw(
        name: String,
        physical_address: [u8; 6],
        is_internal: i32,
        address_family: i32,
        address: &[u8],
        netmask_family: i32,
        netmask: &[u8],
    ) -> (r: Result<InterfaceAddress, Error>)
        requires
            long_enough(address_family, address@),
            long_enough(netmask_family, netmask@),
        ensures
            r is Ok <==> supported_family(address_family) && supported_family(netmask_family),
            r is Err ==> r == Err::<InterfaceAddress, Error>(Error::ENOTSUP),
            r matches Ok(ia) ==> {
                &&& ia.name@ == name@
                &&& ia.physical_address == physical_address
                &&& ia.is_internal == (is_internal != 0)
                &&& decoded_address(address_family, address@, ia.address)
                &&& decoded_address(netmask_family, netmask@, ia.netmask)
            },
    {
        let address = match build_socketaddr(address_family, address) {
            Ok(a) => a,
            Err(e) => {
                return Err(e);
            },
        };
        let netmask = match build_socketaddr(netmask_family, netmask) {
            Ok(a) => a,
            Err(e) => {
                return Err(e);
            },
        };
        Ok(InterfaceAddress { name, physical_address, is_internal: is_internal != 0, address, netmask })
    }
}

/// One result of an address lookup.
#[derive(Debug)]
pub struct AddrInfo {
    /// The flags of the result.
    pub flags: AddrInfoFlags,
    /// The address family.
    pub family: AddrFamily,
    /// The socket type (`SOCK_STREAM`, `SOCK_DGRAM`, ...).
    pub socktype: i32,
    /// The protocol.
    pub protocol: i32,
    /// The canonical name of the host, when it was asked for.
    pub canonical_name: Option<String>,
    /// The address.
    pub addr: SocketAddress,
}

impl AddrInfo {
    /// The result of an address lookup as libuv describes it: its flags, family, socket type,
    /// protocol and canonical name, and its address as a family and the bytes that follow it.
    /// It fails with `EAI_FAMILY` when the family is not one that this library knows, and with
    /// `ENOTSUP` when the address is of a family other than IPv4 and IPv6.
    pub fn from_raw(
        flags: i32,
        family: i32,
        socktype: i32,
        protocol: i32,
        canonical_name: Option<String>,
        addr_family: i32,
        addr: &[u8],
    ) -> (r: Result<AddrInfo, Error>)
        requires
            long_enough(addr_family, addr@),
        ensures
            !(family == 2 || family == 10 || family == 0) ==> r == Err::<AddrInfo, Error>(
                Error::EAI_FAMILY,
            ),
            (family == 2 || family == 10 || family == 0) && !supported_family(addr_family) ==> r
                == Err::<AddrInfo, Error>(Error::ENOTSUP),
            r matches Ok(ai) ==> {
                &&& ai.flags@ == (flags as u32) & AddrInfoFlagSet::spec_all_bits()
                &&& ai.family.spec_code() == family
                &&& ai.socktype == socktype
                &&& ai.protocol == protocol
                &&& ai.canonical_name == canonical_name
                &&& decoded_address(addr_family, addr@, ai.addr)
            },
            r is Ok <==> (family == 2 || family == 10 || family == 0) && supported_family(
                addr_family,
            ),
    {
        let family = match AddrFamily::from_code(family) {
            Some(f) => f,
            None => {
                return Err(Error::EAI_FAMILY);
            },
        };
        let addr = match build_socketaddr(addr_family, addr) {
            Ok(a) => a,
            Err(e) => {
                return Err(e);
            },
        };
        Ok(AddrInfo {
            flags: AddrInfoFlags::from_bits_truncate(flags as u32),
            family,
            socktype,
            protocol,
            canonical_name,
            addr,
        })
    }
}

/// One result of an address lookup as libuv lists it: its flags, family, socket type, protocol
/// and canonical name, and its address as a family and the bytes that follow it.
pub struct RawAddrInfo {
    /// The flags of the result (`ai_flags`).
    pub flags: i32,
    /// The address family (`ai_family`).
    pub family: i32,
    /// The socket type (`ai_socktype`).
    pub socktype: i32,
    /// The protocol (`ai_protocol`).
    pub protocol: i32,
    /// The canonical name (`ai_canonname`), when there is one.
    pub canonical_name: Option<String>,
    /// The family of the address.
    pub addr_family: i32,
    /// The bytes that follow the family in the address.
    pub addr: Vec<u8>,
}

/// Whether the listed result can be read: its family is one that this library knows and its
/// address is an IPv4 or IPv6 address.
pub open spec fn readable_addr_info(raw: RawAddrInfo) -> bool {
    &&& (raw.family == 2 || raw.family == 10 || raw.family == 0)
    &&& supported_family(raw.addr_family)
}

/// The listed results that can be read, in the order of the list.
pub open spec fn readable_addr_infos(raws: Seq<RawAddrInfo>) -> Seq<RawAddrInfo> {
    raws.filter(|raw: RawAddrInfo| readable_addr_info(raw))
}

/// `ai` is the result that the listed result `raw` describes.
pub open spec fn describes_addr_info(raw: RawAddrInfo, ai: AddrInfo) -> bool {
    &&& ai.flags@ == (raw.flags as u32) & AddrInfoFlagSet::spec_all_bits()
    &&& ai.family.spec_code() == raw.family
    &&& ai.socktype == raw.socktype
    &&& ai.protocol == raw.protocol
    &&& ai.canonical_name == raw.canonical_name
    &&& decoded_address(raw.addr_family, raw.addr@, ai.addr)
}

proof fn lemma_readable_push(raws: Seq<RawAddrInfo>, raw: RawAddrInfo)
    ensures
        readable_addr_infos(raws.push(raw)) == if readable_addr_info(raw) {
            readable_addr_infos(raws).push(raw)
        } else {
            readable_addr_infos(raws)
        },
{
    reveal(Seq::filter);
    assert(raws.push(raw).drop_last() =~= raws);
}

/// Which listed results an address lookup keeps: a result is left out only when its family is
/// not IPv4, IPv6 or unspecified, or when its address is not an IPv4 or IPv6 address; every
/// other result is kept, in the order of the list, whatever its port, socket type, protocol,
/// flags or canonical name. So a list of results that can all be read is kept whole.
pub proof fn lemma_readable_addr_infos(raws: Seq<RawAddrInfo>, raw: RawAddrInfo)
    ensures
        readable_addr_infos(Seq::empty()) == Seq::<RawAddrInfo>::empty(),
        readable_addr_infos(raws.push(raw)) == if (raw.family == 2 || raw.family == 10
            || raw.family == 0) && (raw.addr_family == 2 || raw.addr_family == 10) {
            readable_addr_infos(raws).push(raw)
        } else {
            readable_addr_infos(raws)
        },
        forall|i: int|
            0 <= i < raws.len() && (raws[i].family == 2 || raws[i].family == 10 || raws[i].family
                == 0) && (raws[i].addr_family == 2 || raws[i].addr_family == 10)
                ==> #[trigger] readable_addr_infos(raws).contains(raws[i]),
        (forall|i: int|
            0 <= i < raws.len() ==> (#[trigger] raws[i].family == 2 || raws[i].family == 10
                || raws[i].family == 0) && (raws[i].addr_family == 2 || raws[i].addr_family
                == 10)) ==> readable_addr_infos(raws) == raws,
{
    reveal(Seq::filter);
    lemma_readable_push(raws, raw);
    broadcast use vstd::seq_lib::group_filter_ensures;
    assert forall|i: int|
        0 <= i < raws.len() && (raws[i].family == 2 || raws[i].family == 10 || raws[i].family
            == 0) && (raws[i].addr_family == 2 || raws[i].addr_family == 10)
        implies #[trigger] readable_addr_infos(raws).contains(raws[i]) by {
        raws.lemma_filter_contains(|r: RawAddrInfo| readable_addr_info(r), i);
    }
    if forall|i: int|
        0 <= i < raws.len() ==> (#[trigger] raws[i].family == 2 || raws[i].family == 10
            || raws[i].family == 0) && (raws[i].addr_family == 2 || raws[i].addr_family == 10) {
        lemma_all_readable(raws);
    }
}

proof fn lemma_all_readable(raws: Seq<RawAddrInfo>)
    requires
        forall|i: int| 0 <= i < raws.len() ==> readable_addr_info(#[trigger] raws[i]),
    ensures
        readable_addr_infos(raws) == raws,
    decreases raws.len(),
{
    if raws.len() > 0 {
        let init = raws.drop_last();
        assert forall|i: int| 0 <= i < init.len() implies readable_addr_info(#[trigger] init[i]) by {
            assert(init[i] == raws[i]);
        }
        lemma_all_readable(init);
        lemma_readable_push(init, raws.last());
        assert(init.push(raws.last()) =~= raws);
    } else {
        reveal(Seq::filter);
    }
}

/// The results of an address lookup, from the list that libuv returned: each result that can be
/// read, in the order of the list; the results whose family this library does not know, or
/// whose address is not an IPv4 or IPv6 address, are left out.
pub fn addr_infos(entries: Vec<RawAddrInfo>) -> (r: Vec<AddrInfo>)
    requires
        forall|i: int|
            0 <= i < entries@.len() ==> long_enough(
                #[trigger] entries@[i].addr_family,
                entries@[i].addr@,
            ),
    ensures
        r@.len() == readable_addr_infos(entries@).len(),
        forall|i: int|
            0 <= i < r@.len() ==> describes_addr_info(
                #[trigger] readable_addr_infos(entries@)[i],
                r@[i],
            ),
        (forall|i: int|
            0 <= i < entries@.len() ==> (#[trigger] entries@[i].family == 2 || entries@[i].family
                == 10 || entries@[i].family == 0) && (entries@[i].addr_family == 2
                || entries@[i].addr_family == 10)) ==> r@.len() == entries@.len() && forall|i: int|
            0 <= i < entries@.len() ==> describes_addr_info(#[trigger] entries@[i], r@[i]),
{
    proof {
        lemma_readable_addr_infos(entries@, arbitrary());
    }
    let ghost all = entries@;
    let mut entries = entries;
    let mut out: Vec<AddrInfo> = Vec::new();
    let mut k: usize = 0;
    let n = entries.len();
    while entries.len() > 0
        invariant
            n == all.len(),
            k + entries@.len() == n,
            entries@ == all.subrange(k as int, n as int),
            forall|i: int|
                0 <= i < all.len() ==> long_enough(#[trigger] all[i].addr_family, all[i].addr@),
            out@.len() == readable_addr_infos(all.subrange(0, k as int)).len(),
            forall|i: int|
                0 <= i < out@.len() ==> describes_addr_info(
                    #[trigger] readable_addr_infos(all.subrange(0, k as int))[i],
                    out@[i],
                ),
        decreases entries@.len(),
    {
        let raw = entries.remove(0);
        proof {
            assert(raw == all[k as int]);
            assert(all.subrange(0, k + 1) =~= all.subrange(0, k as int).push(raw));
            lemma_readable_push(all.subrange(0, k as int), raw);
        }
        let ghost before = readable_addr_infos(all.subrange(0, k as int));
        let ghost graw = raw;
        let RawAddrInfo { flags, family, socktype, protocol, canonical_name, addr_family, addr } =
            raw;
        match AddrInfo::from_raw(flags, family, socktype, protocol, canonical_name, addr_family, &addr) {
            Ok(ai) => {
                out.push(ai);
                assert forall|i: int| 0 <= i < out@.len() implies describes_addr_info(
                    #[trigger] before.push(graw)[i],
                    out@[i],
                ) by {
                    if i < out@.len() - 1 {
                        assert(before.push(graw)[i] == before[i]);
                    }
                }
            },
            Err(_) => {},
        }
        k = k + 1;
        assert(entries@ =~= all.subrange(k as int, n as int));
    }
    assert(all.subrange(0, n as int) =~= all);
    out
}

/// Multicast membership.
#[derive(Clone, Copy, Debug, PartialEq, Eq, Structural)]
pub enum Membership {
    /// Leave the group.
    Leave,
    /// Join the group.
    Join,
}

impl Membership {
    /// libuv's integer for the membership (`uv_membership`).
    pub open spec fn spec_code(self) -> u32 {
        match self {
            Membership::Leave => 0,
            Membership::Join => 1,
        }
    }

    /// libuv's integer for the membership (`uv_membership`).
    pub fn code(self) -> (r: u32)
        ensures
            r == self.spec_code(),
    {
        match self {
            Membership::Leave => 0,
            Membership::Join => 1,
        }
    }
}

} // verus!
