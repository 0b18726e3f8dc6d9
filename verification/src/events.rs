//! What the callbacks of handles receive, decoded from what libuv passes to them.
use vstd::prelude::*;
use crate::error::{count_result, decodes_to, status_result, Error};
use crate::flags::{FlagSet, FsEvent, FsEventSet, PollEventSet, PollEvents, UdpRecvFlagSet, UdpRecvFlags};
use crate::net::{build_socketaddr, decoded_address, long_enough, supported_family, SocketAddress};

verus! {

/// The events and status passed to a file-system event callback: the named events among the
/// bits `events`, and the status or the error that it stands for.
pub fn fs_event_args(events: i32, status: i32) -> (r: (FsEvent, Result<u32, Error>))
    ensures
        r.0@ == (events as u32) & FsEventSet::spec_all_bits(),
        status >= 0 ==> r.1 == Ok::<u32, Error>(status as u32),
        status < 0 ==> (r.1 matches Err(e) && decodes_to(status, e)),
{
    (FsEvent::from_bits_truncate(events as u32), status_result(status))
}

/// The status and events passed to a poll callback: the status or the error that it stands
/// for, and the named events among the bits `events`.
pub fn poll_args(status: i32, events: i32) -> (r: (Result<u32, Error>, PollEvents))
    ensures
        status >= 0 ==> r.0 == Ok::<u32, Error>(status as u32),
        status < 0 ==> (r.0 matches Err(e) && decodes_to(status, e)),
        r.1@ == (events as u32) & PollEventSet::spec_all_bits(),
{
    (status_result(status), PollEvents::from_bits_truncate(events as u32))
}

/// What a UDP receive callback is given: the number of bytes read (or the error), the address
/// of the sender, and the named receive flags. Nothing is given, and the callback is not made,
/// when the sender's address is of a family other than IPv4 and IPv6 (libuv reports no address
/// when there was nothing to read).
pub fn udp_recv_args(nread: i64, family: i32, addr: &[u8], flags: u32) -> (r: Option<
    (Result<usize, Error>, SocketAddress, UdpRecvFlags),
>)
    requires
        long_enough(family, addr@),
    ensures
        r is Some <==> supported_family(family),
        r matches Some(args) ==> {
            &&& nread >= 0 ==> args.0 == Ok::<usize, Error>(nread as usize)
            &&& nread < 0 ==> (args.0 matches Err(e) && decodes_to(nread as i32, e))
            &&& decoded_address(family, addr@, args.1)
            &&& args.2@ == flags & UdpRecvFlagSet::spec_all_bits()
        },
{
    match build_socketaddr(family, addr) {
        Ok(sockaddr) => Some((count_result(nread), sockaddr, UdpRecvFlags::from_bits_truncate(flags))),
        Err(_) => None,
    }
}

} // verus!
