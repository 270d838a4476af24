use rsix::net::{
    decode_sockaddr, AddressFamily, Ipv4Addr, Ipv6Addr, SockaddrIn, SockaddrIn6, SockaddrStorage,
    SockaddrUn, SocketAddr, SocketAddrUnix, SocketAddrV4, SocketAddrV6, AF_INET, AF_INET6, AF_UNIX,
    SOCKADDR_IN6_LEN, SOCKADDR_IN_LEN, SOCKADDR_UN_LEN,
};
use rsix::Errno;

fn empty_storage() -> SockaddrStorage {
    SockaddrStorage {
        ss_family: 0,
        in4: SockaddrIn { sin_family: 0, sin_port: [0; 2], sin_addr: [0; 4] },
        in6: SockaddrIn6 {
            sin6_family: 0,
            sin6_port: [0; 2],
            sin6_flowinfo: 0,
            sin6_addr: [0; 16],
            sin6_scope_id: 0,
        },
        un: SockaddrUn { sun_family: 0, sun_path: [0; 108] },
    }
}

#[test]
fn ipv4_predicates() {
    assert!(Ipv4Addr::new(0, 0, 0, 0).is_unspecified());
    assert!(Ipv4Addr::new(127, 1, 2, 3).is_loopback());
    assert!(Ipv4Addr::new(10, 9, 8, 7).is_private());
    assert!(Ipv4Addr::new(172, 16, 0, 1).is_private());
    assert!(Ipv4Addr::new(172, 31, 0, 1).is_private());
    assert!(!Ipv4Addr::new(172, 32, 0, 1).is_private());
    assert!(Ipv4Addr::new(192, 168, 1, 1).is_private());
    assert!(Ipv4Addr::new(169, 254, 3, 3).is_link_local());
    assert!(Ipv4Addr::new(224, 0, 0, 1).is_multicast());
    assert!(Ipv4Addr::new(239, 255, 0, 1).is_multicast());
    assert!(!Ipv4Addr::new(240, 0, 0, 1).is_multicast());
    assert!(Ipv4Addr::new(255, 255, 255, 255).is_broadcast());
    assert!(Ipv4Addr::new(198, 51, 100, 7).is_documentation());
    assert!(!Ipv4Addr::new(8, 8, 8, 8).is_documentation());
    assert_eq!(Ipv4Addr::new(1, 2, 3, 4).octets(), [1, 2, 3, 4]);
}

#[test]
fn ipv6_segments_and_conversions() {
    let a = Ipv6Addr::new(0x2001, 0xdb8, 0, 0, 0, 0, 0xff00, 0x42);
    assert_eq!(a.segments(), [0x2001, 0xdb8, 0, 0, 0, 0, 0xff00, 0x42]);
    assert_eq!(a.octets()[0..4], [0x20, 0x01, 0x0d, 0xb8]);
    assert!(Ipv6Addr::new(0, 0, 0, 0, 0, 0, 0, 0).is_unspecified());
    assert!(!a.is_unspecified());
    assert!(Ipv6Addr::new(0, 0, 0, 0, 0, 0, 0, 1).is_loopback());
    assert!(!a.is_loopback());
    let v4 = Ipv4Addr::new(192, 0, 2, 33);
    let mapped = v4.to_ipv6_mapped();
    assert_eq!(mapped.segments(), [0, 0, 0, 0, 0, 0xffff, 0xc000, 0x0221]);
    assert_eq!(mapped.to_ipv4(), Some(v4));
    assert_eq!(v4.to_ipv6_compatible().to_ipv4(), Some(v4));
    assert_eq!(a.to_ipv4(), None);
}

#[test]
fn encode_v4_layout() {
    let a = SocketAddrV4::new(Ipv4Addr::new(127, 0, 0, 1), 0x1f90);
    let e = a.encode();
    assert_eq!(e.sin_family, AF_INET);
    assert_eq!(e.sin_port, [0x1f, 0x90]);
    assert_eq!(e.sin_addr, [127, 0, 0, 1]);
    assert_eq!(a.port(), 8080);
    assert_eq!(*a.address(), Ipv4Addr::new(127, 0, 0, 1));
}

#[test]
fn round_trip_v4() {
    let a = SocketAddrV4::new(Ipv4Addr::new(10, 1, 2, 3), 443);
    let mut s = empty_storage();
    s.ss_family = AF_INET;
    s.in4 = a.encode();
    assert_eq!(decode_sockaddr(&s, SOCKADDR_IN_LEN), Ok(SocketAddr::V4(a)));
}

#[test]
fn round_trip_v6() {
    let a = SocketAddrV6::new(Ipv6Addr::new(0xfe80, 0, 0, 0, 1, 2, 3, 4), 65535, 7, 3);
    let mut s = empty_storage();
    s.ss_family = AF_INET6;
    s.in6 = a.encode();
    assert_eq!(s.in6.sin6_port, [0xff, 0xff]);
    let back = decode_sockaddr(&s, SOCKADDR_IN6_LEN).unwrap();
    assert_eq!(back, SocketAddr::V6(a));
    assert_eq!(back.address_family(), AddressFamily::Inet6);
    assert_eq!(a.flowinfo(), 7);
    assert_eq!(a.scope_id(), 3);
}

#[test]
fn round_trip_unix() {
    let a = SocketAddrUnix::new("/run/app.sock").unwrap();
    let mut s = empty_storage();
    s.ss_family = AF_UNIX;
    s.un = a.encode();
    assert_eq!(s.un.sun_family, AF_UNIX);
    assert_eq!(&s.un.sun_path[..14], b"/run/app.sock\0");
    assert!(s.un.sun_path[14..].iter().all(|b| *b == 0));
    assert_eq!(a.encoded_len(), 2 + 13 + 1);
    let back = decode_sockaddr(&s, a.encoded_len()).unwrap();
    assert_eq!(back.address_family(), AddressFamily::Unix);
    assert_eq!(back, SocketAddr::Unix(a));
}

#[test]
fn unix_path_limits() {
    assert!(SocketAddrUnix::new(vec![b'a'; 107]).is_ok());
    assert_eq!(SocketAddrUnix::new(vec![b'a'; 108]), Err(Errno::NameTooLong));
    assert_eq!(SocketAddrUnix::new("bad\0path"), Err(Errno::Inval));
    assert_eq!(SocketAddrUnix::new("x").unwrap().path_bytes(), b"x");
}

#[test]
fn decode_refuses_what_it_cannot_read() {
    let mut s = empty_storage();
    assert_eq!(decode_sockaddr(&s, 1), Err(Errno::Inval));
    s.ss_family = 99;
    assert_eq!(decode_sockaddr(&s, 16), Err(Errno::AfNoSupport));
    s.ss_family = AF_INET;
    assert_eq!(decode_sockaddr(&s, SOCKADDR_IN_LEN - 1), Err(Errno::Inval));
    s.ss_family = AF_INET6;
    assert_eq!(decode_sockaddr(&s, SOCKADDR_IN6_LEN - 1), Err(Errno::Inval));
    s.ss_family = AF_UNIX;
    assert_eq!(decode_sockaddr(&s, SOCKADDR_UN_LEN + 1), Err(Errno::Inval));
    s.un.sun_path = [b'z'; 108];
    assert_eq!(decode_sockaddr(&s, SOCKADDR_UN_LEN), Err(Errno::NameTooLong));
}

#[test]
fn decode_unix_stops_at_len_and_nul() {
    let mut s = empty_storage();
    s.ss_family = AF_UNIX;
    s.un.sun_path[..6].copy_from_slice(b"abcdef");
    let back = decode_sockaddr(&s, 2 + 3).unwrap();
    assert_eq!(back, SocketAddr::Unix(SocketAddrUnix::new("abc").unwrap()));
    let unnamed = decode_sockaddr(&s, 2).unwrap();
    assert_eq!(unnamed, SocketAddr::Unix(SocketAddrUnix::new("").unwrap()));
}

#[test]
fn address_family_codes() {
    assert_eq!(AddressFamily::Unix.as_raw(), 1);
    assert_eq!(AddressFamily::Inet.as_raw(), 2);
    assert_eq!(AddressFamily::Inet6.as_raw(), 10);
}
