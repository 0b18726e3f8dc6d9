use std::collections::HashSet;
use libuv::{
    ChmodFlags, FsEvent, FsEventFlags, PollEvents, ProcessFlags, StdioFlags, TcpFlags, UdpBindFlags,
    UdpFlags, UdpRecvFlags,
};

#[test]
fn named_flag_values() {
    assert_eq!(FsEvent::RENAME().bits(), 1);
    assert_eq!(FsEvent::CHANGE().bits(), 2);
    assert_eq!(FsEventFlags::RECURSIVE().bits(), 4);
    assert_eq!(PollEvents::PRIORITIZED().bits(), 8);
    assert_eq!(StdioFlags::WRITABLE_PIPE().bits(), 0x20);
    assert_eq!(ProcessFlags::DETACHED().bits(), 8);
    assert_eq!(ChmodFlags::WRITABLE().bits(), 2);
    assert_eq!(TcpFlags::AF_INET6().bits(), 10);
    assert_eq!(UdpFlags::RECVMMSG().bits(), 256);
    assert_eq!(UdpBindFlags::RECVERR().bits(), 32);
    assert_eq!(UdpRecvFlags::MMSG_FREE().bits(), 16);
}

#[test]
fn truncate_drops_unnamed_bits() {
    assert_eq!(FsEvent::from_bits_truncate(0xff).bits(), 3);
    assert_eq!(PollEvents::from_bits_truncate(0x13).bits(), 3);
    assert_eq!(UdpRecvFlags::from_bits_truncate(0xffff_ffff).bits(), 26);
    let t = FsEvent::from_bits_truncate(6);
    assert_eq!(FsEvent::from_bits_truncate(t.bits()), t);
}

#[test]
fn from_bits_rejects_unnamed_bits() {
    assert_eq!(FsEvent::from_bits(3).map(|f| f.bits()), Some(3));
    assert!(FsEvent::from_bits(4).is_none());
    assert!(ProcessFlags::from_bits(0x80).is_none());
}

#[test]
fn set_operations() {
    let mut f = PollEvents::READABLE().union(PollEvents::WRITABLE());
    assert_eq!(f.bits(), 3);
    assert!(f.contains(PollEvents::READABLE()));
    assert!(!f.contains(PollEvents::DISCONNECT()));
    f.insert(PollEvents::DISCONNECT());
    assert!(f.contains(PollEvents::DISCONNECT()));
    f.remove(PollEvents::READABLE());
    assert!(!f.intersects(PollEvents::READABLE()));
    assert_eq!(f.bits(), 6);
    assert_eq!(f.intersection(PollEvents::WRITABLE()).bits(), 2);
    assert_eq!(f.difference(PollEvents::WRITABLE()).bits(), 4);
    assert!(PollEvents::empty().is_empty());
    assert!(PollEvents::all().is_all());
    assert_eq!(PollEvents::all().bits(), 15);
    assert!(StdioFlags::IGNORE().is_empty());
}

#[test]
fn flag_operators() {
    let r = PollEvents::READABLE();
    let w = PollEvents::WRITABLE();
    let rw = r | w;
    assert_eq!(rw.bits(), 3);
    assert_eq!((rw & w).bits(), 2);
    assert_eq!((rw ^ PollEvents::DISCONNECT()).bits(), 7);
    assert_eq!((rw ^ r).bits(), 2);
    assert_eq!((rw - r).bits(), 2);
    assert_eq!((!r).bits(), 0xe);
    assert_eq!((!PollEvents::all()).bits(), 0);
    assert_eq!(r.complement().bits(), 0xe);
    assert_eq!(rw.symmetric_difference(w).bits(), 1);
}

#[test]
fn flag_toggle_and_set() {
    let mut f = FsEvent::RENAME();
    f.toggle(FsEvent::CHANGE());
    assert_eq!(f.bits(), 3);
    f.toggle(FsEvent::RENAME());
    assert_eq!(f.bits(), 2);
    f.set(FsEvent::RENAME(), true);
    assert_eq!(f.bits(), 3);
    f.set(FsEvent::CHANGE(), false);
    assert_eq!(f.bits(), 1);
}

#[test]
fn flag_assign_operators() {
    let mut f = PollEvents::READABLE();
    f |= PollEvents::WRITABLE();
    assert_eq!(f.bits(), 3);
    f &= PollEvents::WRITABLE() | PollEvents::DISCONNECT();
    assert_eq!(f.bits(), 2);
    f ^= PollEvents::all();
    assert_eq!(f.bits(), 0xd);
    f -= PollEvents::READABLE();
    assert_eq!(f.bits(), 0xc);
}

#[test]
fn flags_order_and_hash_by_bits() {
    let a = PollEvents::READABLE();
    let b = PollEvents::WRITABLE();
    assert!(a < b);
    assert_eq!(std::cmp::max(a, b), b);
    let set: HashSet<PollEvents> = [a, b, a | PollEvents::empty()].into_iter().collect();
    assert_eq!(set.len(), 2);
}
