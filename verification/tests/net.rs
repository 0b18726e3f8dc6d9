use libuv::{addr_infos, build_socketaddr, AddrInfo, RawAddrInfo, fill_sockaddr, AddrFamily, Error, InterfaceAddress, Membership, SocketAddress};

#[test]
fn decodes_an_ipv4_address() {
    // port 8080 = 0x1f90, address 127.0.0.1
    let data = [0x1f, 0x90, 127, 0, 0, 1, 0, 0, 0, 0, 0, 0, 0, 0];
    assert_eq!(
        build_socketaddr(2, &data),
        Ok(SocketAddress::V4 { ip: [127, 0, 0, 1], port: 8080 })
    );
}

#[test]
fn decodes_an_ipv6_address() {
    let mut data = vec![0x00, 0x50, 0, 0, 0, 0];
    data.extend_from_slice(&[0u8; 15]);
    data.push(1);
    data.extend_from_slice(&[0u8; 4]);
    let mut ip = [0u8; 16];
    ip[15] = 1;
    assert_eq!(build_socketaddr(10, &data), Ok(SocketAddress::V6 { ip, port: 80 }));
}

#[test]
fn other_families_are_not_supported() {
    assert_eq!(build_socketaddr(1, &[0u8; 26]), Err(Error::ENOTSUP));
    assert_eq!(build_socketaddr(0, &[]), Err(Error::ENOTSUP));
}

#[test]
fn encodes_an_ipv4_address() {
    let (family, data) = fill_sockaddr(&SocketAddress::V4 { ip: [192, 168, 1, 20], port: 443 });
    assert_eq!(family, 2);
    assert_eq!(data, vec![1, 187, 192, 168, 1, 20, 0, 0, 0, 0, 0, 0, 0, 0]);
}

#[test]
fn encodes_an_ipv6_address() {
    let ip = [0x20, 0x01, 0x0d, 0xb8, 0, 0, 0, 0, 0, 0, 0, 0, 0, 0, 0, 0x42];
    let (family, data) = fill_sockaddr(&SocketAddress::V6 { ip, port: 65535 });
    assert_eq!(family, 10);
    assert_eq!(data.len(), 26);
    assert_eq!(&data[0..6], &[0xff, 0xff, 0, 0, 0, 0]);
    assert_eq!(&data[6..22], &ip);
    assert_eq!(&data[22..26], &[0, 0, 0, 0]);
}

#[test]
fn address_roundtrip() {
    let addrs = [
        SocketAddress::V4 { ip: [10, 0, 0, 1], port: 0 },
        SocketAddress::V4 { ip: [255, 255, 255, 255], port: 65535 },
        SocketAddress::V6 { ip: [7u8; 16], port: 256 },
    ];
    for a in addrs.iter() {
        let (family, data) = fill_sockaddr(a);
        assert_eq!(build_socketaddr(family, &data), Ok(*a));
    }
}

#[test]
fn family_and_membership_codes() {
    assert_eq!(AddrFamily::INET.code(), 2);
    assert_eq!(AddrFamily::INET6.code(), 10);
    assert_eq!(AddrFamily::Unspecified.code(), 0);
    assert_eq!(Membership::Leave.code(), 0);
    assert_eq!(Membership::Join.code(), 1);
}

#[test]
fn interface_address_record() {
    let addr = [0, 0, 127, 0, 0, 1];
    let mask = [0, 0, 255, 0, 0, 0];
    let ia = InterfaceAddress::from_raw(
        String::from("lo"),
        [0, 1, 2, 3, 4, 5],
        1,
        2,
        &addr,
        2,
        &mask,
    )
    .unwrap();
    assert_eq!(ia.name, "lo");
    assert_eq!(ia.physical_address, [0, 1, 2, 3, 4, 5]);
    assert!(ia.is_internal);
    assert_eq!(ia.address, SocketAddress::V4 { ip: [127, 0, 0, 1], port: 0 });
    assert_eq!(ia.netmask, SocketAddress::V4 { ip: [255, 0, 0, 0], port: 0 });

    let bad = InterfaceAddress::from_raw(String::from("x"), [0; 6], 0, 17, &[], 2, &mask);
    assert_eq!(bad.unwrap_err(), Error::ENOTSUP);
}

#[test]
fn address_family_from_code() {
    assert_eq!(AddrFamily::from_code(2), Some(AddrFamily::INET));
    assert_eq!(AddrFamily::from_code(10), Some(AddrFamily::INET6));
    assert_eq!(AddrFamily::from_code(0), Some(AddrFamily::Unspecified));
    assert_eq!(AddrFamily::from_code(1), None);
}

#[test]
fn addr_info_record() {
    let addr = [0, 80, 93, 184, 216, 34];
    let ai = AddrInfo::from_raw(0, 2, 1, 6, Some(String::from("example.com")), 2, &addr).unwrap();
    assert_eq!(ai.flags.bits(), 0);
    assert_eq!(ai.family, AddrFamily::INET);
    assert_eq!(ai.socktype, 1);
    assert_eq!(ai.protocol, 6);
    assert_eq!(ai.canonical_name.as_deref(), Some("example.com"));
    assert_eq!(ai.addr, SocketAddress::V4 { ip: [93, 184, 216, 34], port: 80 });
    assert_eq!(AddrInfo::from_raw(0, 99, 1, 6, None, 2, &addr).unwrap_err(), Error::EAI_FAMILY);
    assert_eq!(AddrInfo::from_raw(0, 2, 1, 6, None, 1, &[]).unwrap_err(), Error::ENOTSUP);
}

#[test]
fn lookup_results_keep_readable_entries_in_order() {
    let v4 = RawAddrInfo {
        flags: 0,
        family: 2,
        socktype: 1,
        protocol: 6,
        canonical_name: Some(String::from("host")),
        addr_family: 2,
        addr: vec![0, 80, 10, 0, 0, 1, 0, 0, 0, 0, 0, 0, 0, 0],
    };
    let unknown_family = RawAddrInfo {
        flags: 0,
        family: 1,
        socktype: 1,
        protocol: 0,
        canonical_name: None,
        addr_family: 2,
        addr: vec![0, 80, 10, 0, 0, 2, 0, 0, 0, 0, 0, 0, 0, 0],
    };
    let unix_addr = RawAddrInfo {
        flags: 0,
        family: 0,
        socktype: 1,
        protocol: 0,
        canonical_name: None,
        addr_family: 1,
        addr: vec![],
    };
    let mut v6bytes = vec![0x01, 0xbb, 0, 0, 0, 0];
    v6bytes.extend_from_slice(&[0u8; 15]);
    v6bytes.push(1);
    v6bytes.extend_from_slice(&[0u8; 4]);
    let v6 = RawAddrInfo {
        flags: 0,
        family: 10,
        socktype: 2,
        protocol: 17,
        canonical_name: None,
        addr_family: 10,
        addr: v6bytes,
    };
    let out = addr_infos(vec![v4, unknown_family, unix_addr, v6]);
    assert_eq!(out.len(), 2);
    assert_eq!(out[0].addr, SocketAddress::V4 { ip: [10, 0, 0, 1], port: 80 });
    assert_eq!(out[0].canonical_name, Some(String::from("host")));
    assert_eq!(out[0].family, AddrFamily::INET);
    let mut ip = [0u8; 16];
    ip[15] = 1;
    assert_eq!(out[1].addr, SocketAddress::V6 { ip, port: 443 });
    assert_eq!(out[1].protocol, 17);
    assert!(addr_infos(vec![]).is_empty());
}
