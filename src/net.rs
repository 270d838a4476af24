//! IPv4, IPv6 and Unix-domain socket addresses, and their layout in the
//! kernel's `sockaddr` structures.
use vstd::prelude::*;

use crate::io::{Errno, Result};
use crate::path::{converted_c_str, find_nul, has_nul, Arg, CStrBuf};

verus! {

/// The big-endian 16-bit value of the bytes `hi`, `lo`.
pub open spec fn be16(hi: u8, lo: u8) -> u16 {
    (hi as int * 256 + lo as int) as u16
}

/// The high byte of `x`.
pub open spec fn hi8(x: u16) -> u8 {
    (x / 256) as u8
}

/// The low byte of `x`.
pub open spec fn lo8(x: u16) -> u8 {
    (x % 256) as u8
}

/// Splits `x` into its high and low bytes.
fn split_u16(x: u16) -> (r: (u8, u8))
    ensures
        r.0 == hi8(x),
        r.1 == lo8(x),
        be16(r.0, r.1) == x,
{
    let hi = (x >> 8) as u8;
    let lo = (x & 0xff) as u8;
    assert(hi == hi8(x) && lo == lo8(x)) by (bit_vector)
        requires
            hi == (x >> 8) as u8,
            lo == (x & 0xff) as u8,
    ;
    (hi, lo)
}

/// Joins a high and a low byte into a 16-bit value.
fn join_u16(hi: u8, lo: u8) -> (r: u16)
    ensures
        r == be16(hi, lo),
        hi8(r) == hi,
        lo8(r) == lo,
{
    let r = ((hi as u16) << 8) | (lo as u16);
    assert(r == be16(hi, lo) && hi8(r) == hi && lo8(r) == lo) by (bit_vector)
        requires
            r == ((hi as u16) << 8) | (lo as u16),
    ;
    r
}

/// `struct in_addr`: an IPv4 address, as its four octets in network order.
#[derive(Clone, Copy, Debug, PartialEq, Eq)]
pub struct Ipv4Addr {
    octets: [u8; 4],
}

impl View for Ipv4Addr {
    type V = Seq<u8>;

    closed spec fn view(&self) -> Seq<u8> {
        self.octets@
    }
}

/// `0.0.0.0`.
pub open spec fn v4_is_unspecified(o: Seq<u8>) -> bool {
    o[0] == 0 && o[1] == 0 && o[2] == 0 && o[3] == 0
}

/// `127.0.0.0/8`.
pub open spec fn v4_is_loopback(o: Seq<u8>) -> bool {
    o[0] == 127
}

/// `10.0.0.0/8`, `172.16.0.0/12` and `192.168.0.0/16`.
pub open spec fn v4_is_private(o: Seq<u8>) -> bool {
    o[0] == 10 || (o[0] == 172 && 16 <= o[1] <= 31) || (o[0] == 192 && o[1] == 168)
}

/// `169.254.0.0/16`.
pub open spec fn v4_is_link_local(o: Seq<u8>) -> bool {
    o[0] == 169 && o[1] == 254
}

/// `224.0.0.0/4`.
pub open spec fn v4_is_multicast(o: Seq<u8>) -> bool {
    224 <= o[0] <= 239
}

/// `255.255.255.255`.
pub open spec fn v4_is_broadcast(o: Seq<u8>) -> bool {
    o[0] == 255 && o[1] == 255 && o[2] == 255 && o[3] == 255
}

/// `192.0.2.0/24`, `198.51.100.0/24` and `203.0.113.0/24`.
pub open spec fn v4_is_documentation(o: Seq<u8>) -> bool {
    (o[0] == 192 && o[1] == 0 && o[2] == 2) || (o[0] == 198 && o[1] == 51 && o[2] == 100) || (
    o[0] == 203 && o[1] == 0 && o[2] == 113)
}

impl Ipv4Addr {
    /// The address `a.b.c.d`.
    pub fn new(a: u8, b: u8, c: u8, d: u8) -> (r: Ipv4Addr)
        ensures
            r@ == seq![a, b, c, d],
    {
        let r = Ipv4Addr { octets: [a, b, c, d] };
        assert(r@ =~= seq![a, b, c, d]);
        r
    }

    /// The address with the given octets.
    pub fn from_octets(octets: [u8; 4]) -> (r: Ipv4Addr)
        ensures
            r@ == octets@,
    {
        Ipv4Addr { octets }
    }

    /// The four octets of the address, in network order.
    pub fn octets(&self) -> (r: [u8; 4])
        ensures
            r@ == self@,
    {
        self.octets
    }

    /// Whether this is the unspecified address `0.0.0.0`.
    pub fn is_unspecified(&self) -> (r: bool)
        ensures
            r == v4_is_unspecified(self@),
    {
        self.octets[0] == 0 && self.octets[1] == 0 && self.octets[2] == 0 && self.octets[3] == 0
    }

    /// Whether this is a loopback address, `127.0.0.0/8`.
    pub fn is_loopback(&self) -> (r: bool)
        ensures
            r == v4_is_loopback(self@),
    {
        self.octets[0] == 127
    }

    /// Whether this is a private address (RFC 1918).
    pub fn is_private(&self) -> (r: bool)
        ensures
            r == v4_is_private(self@),
    {
        let a = self.octets[0];
        let b = self.octets[1];
        a == 10 || (a == 172 && 16 <= b && b <= 31) || (a == 192 && b == 168)
    }

    /// Whether this is a link-local address, `169.254.0.0/16`.
    pub fn is_link_local(&self) -> (r: bool)
        ensures
            r == v4_is_link_local(self@),
    {
        self.octets[0] == 169 && self.octets[1] == 254
    }

    /// Whether this is a multicast address, `224.0.0.0/4`.
    pub fn is_multicast(&self) -> (r: bool)
        ensures
            r == v4_is_multicast(self@),
    {
        let a = self.octets[0];
        assert((a & 0xf0) == 0xe0 <==> 224 <= a <= 239) by (bit_vector);
        a & 0xf0 == 0xe0
    }

    /// Whether this is the broadcast address `255.255.255.255`.
    pub fn is_broadcast(&self) -> (r: bool)
        ensures
            r == v4_is_broadcast(self@),
    {
        self.octets[0] == 255 && self.octets[1] == 255 && self.octets[2] == 255 && self.octets[3]
            == 255
    }

    /// Whether this is in a range reserved for documentation (RFC 5737).
    pub fn is_documentation(&self) -> (r: bool)
        ensures
            r == v4_is_documentation(self@),
    {
        let a = self.octets[0];
        let b = self.octets[1];
        let c = self.octets[2];
        (a == 192 && b == 0 && c == 2) || (a == 198 && b == 51 && c == 100) || (a == 203 && b == 0
            && c == 113)
    }

    /// The IPv4-compatible IPv6 address `::a.b.c.d`.
    pub fn to_ipv6_compatible(&self) -> (r: Ipv6Addr)
        ensures
            r@ == seq![0u8, 0, 0, 0, 0, 0, 0, 0, 0, 0, 0, 0] + self@,
    {
        let o = self.octets;
        let r = Ipv6Addr { octets: [0, 0, 0, 0, 0, 0, 0, 0, 0, 0, 0, 0, o[0], o[1], o[2], o[3]] };
        assert(r@ =~= seq![0u8, 0, 0, 0, 0, 0, 0, 0, 0, 0, 0, 0] + self@);
        r
    }

    /// The IPv4-mapped IPv6 address `::ffff:a.b.c.d`.
    pub fn to_ipv6_mapped(&self) -> (r: Ipv6Addr)
        ensures
            r@ == seq![0u8, 0, 0, 0, 0, 0, 0, 0, 0, 0, 0xff, 0xff] + self@,
    {
        let o = self.octets;
        let r = Ipv6Addr {
            octets: [0, 0, 0, 0, 0, 0, 0, 0, 0, 0, 0xff, 0xff, o[0], o[1], o[2], o[3]],
        };
        assert(r@ =~= seq![0u8, 0, 0, 0, 0, 0, 0, 0, 0, 0, 0xff, 0xff] + self@);
        r
    }
}

/// `struct in6_addr`: an IPv6 address, as its sixteen octets in network
/// order.
#[derive(Clone, Copy, Debug, PartialEq, Eq)]
pub struct Ipv6Addr {
    octets: [u8; 16],
}

impl View for Ipv6Addr {
    type V = Seq<u8>;

    closed spec fn view(&self) -> Seq<u8> {
        self.octets@
    }
}

/// The `i`-th 16-bit segment of the octets `o`.
pub open spec fn segment(o: Seq<u8>, i: int) -> u16 {
    be16(o[2 * i], o[2 * i + 1])
}

/// The octets of the segments `s`, each high byte first.
pub open spec fn octets_of_segments(s: Seq<u16>) -> Seq<u8> {
    Seq::new(16, |i: int| if i % 2 == 0 { hi8(s[i / 2]) } else { lo8(s[i / 2]) })
}

impl Ipv6Addr {
    /// The address with the eight 16-bit segments `a` to `h`.
    pub fn new(a: u16, b: u16, c: u16, d: u16, e: u16, f: u16, g: u16, h: u16) -> (r: Ipv6Addr)
        ensures
            r@ == octets_of_segments(seq![a, b, c, d, e, f, g, h]),
    {
        let (a0, a1) = split_u16(a);
        let (b0, b1) = split_u16(b);
        let (c0, c1) = split_u16(c);
        let (d0, d1) = split_u16(d);
        let (e0, e1) = split_u16(e);
        let (f0, f1) = split_u16(f);
        let (g0, g1) = split_u16(g);
        let (h0, h1) = split_u16(h);
        let r = Ipv6Addr {
            octets: [a0, a1, b0, b1, c0, c1, d0, d1, e0, e1, f0, f1, g0, g1, h0, h1],
        };
        assert(r@ =~= octets_of_segments(seq![a, b, c, d, e, f, g, h]));
        r
    }

    /// The address with the given octets.
    pub fn from_octets(octets: [u8; 16]) -> (r: Ipv6Addr)
        ensures
            r@ == octets@,
    {
        Ipv6Addr { octets }
    }

    /// The sixteen octets of the address, in network order.
    pub fn octets(&self) -> (r: [u8; 16])
        ensures
            r@ == self@,
    {
        self.octets
    }

    /// The eight 16-bit segments of the address.
    pub fn segments(&self) -> (r: [u16; 8])
        ensures
            forall|i: int| 0 <= i < 8 ==> r@[i] == segment(self@, i),
    {
        let o = &self.octets;
        let r = [
            join_u16(o[0], o[1]),
            join_u16(o[2], o[3]),
            join_u16(o[4], o[5]),
            join_u16(o[6], o[7]),
            join_u16(o[8], o[9]),
            join_u16(o[10], o[11]),
            join_u16(o[12], o[13]),
            join_u16(o[14], o[15]),
        ];
        assert forall|i: int| 0 <= i < 8 implies r@[i] == segment(self@, i) by {
            assert(0 <= i < 8);
        }
        r
    }

    /// Whether this is the unspecified address `::`.
    pub fn is_unspecified(&self) -> (r: bool)
        ensures
            r == (forall|i: int| 0 <= i < 16 ==> self@[i] == 0),
    {
        let mut i: usize = 0;
        while i < 16
            invariant
                i <= 16,
                forall|j: int| 0 <= j < i ==> self@[j] == 0,
            decreases 16 - i,
        {
            if self.octets[i] != 0 {
                assert(self@[i as int] != 0);
                return false;
            }
            i = i + 1;
        }
        true
    }

    /// Whether this is the loopback address `::1`.
    pub fn is_loopback(&self) -> (r: bool)
        ensures
            r == (self@ == seq![0u8, 0, 0, 0, 0, 0, 0, 0, 0, 0, 0, 0, 0, 0, 0, 1]),
    {
        let mut i: usize = 0;
        while i < 15
            invariant
                i <= 15,
                forall|j: int| 0 <= j < i ==> self@[j] == 0,
            decreases 15 - i,
        {
            if self.octets[i] != 0 {
                assert(self@[i as int] != seq![0u8, 0, 0, 0, 0, 0, 0, 0, 0, 0, 0, 0, 0, 0, 0, 1][i as int]);
                return false;
            }
            i = i + 1;
        }
        let r = self.octets[15] == 1;
        assert(r == (self@ =~= seq![0u8, 0, 0, 0, 0, 0, 0, 0, 0, 0, 0, 0, 0, 0, 0, 1]));
        r
    }

    /// The IPv4 address that this IPv4-compatible (`::a.b.c.d`) or
    /// IPv4-mapped (`::ffff:a.b.c.d`) address stands for; `None` for any
    /// other address.
    pub fn to_ipv4(&self) -> (r: Option<Ipv4Addr>)
        ensures
            r matches Some(v4) <==> (forall|i: int| 0 <= i < 10 ==> self@[i] == 0) && (
            (self@[10] == 0 && self@[11] == 0) || (self@[10] == 0xff && self@[11] == 0xff)),
            r matches Some(v4) ==> v4@ == self@.subrange(12, 16),
    {
        let mut i: usize = 0;
        while i < 10
            invariant
                i <= 10,
                forall|j: int| 0 <= j < i ==> self@[j] == 0,
            decreases 10 - i,
        {
            if self.octets[i] != 0 {
                return None;
            }
            i = i + 1;
        }
        let o = &self.octets;
        if (o[10] == 0 && o[11] == 0) || (o[10] == 0xff && o[11] == 0xff) {
            let v4 = Ipv4Addr::new(o[12], o[13], o[14], o[15]);
            assert(v4@ =~= self@.subrange(12, 16));
            Some(v4)
        } else {
            None
        }
    }
}

/// `AF_UNIX`.
pub const AF_UNIX: u16 = 1;

/// `AF_INET`.
pub const AF_INET: u16 = 2;

/// `AF_INET6`.
pub const AF_INET6: u16 = 10;

/// The room for a path in `struct sockaddr_un`, its terminating NUL included.
pub const SUN_PATH_LEN: usize = 108;

/// The offset of the path in `struct sockaddr_un`, after the family.
pub const SUN_PATH_OFFSET: usize = 2;

/// The size of `struct sockaddr_in`.
pub const SOCKADDR_IN_LEN: usize = 16;

/// The size of `struct sockaddr_in6`.
pub const SOCKADDR_IN6_LEN: usize = 28;

/// The size of `struct sockaddr_un`.
pub const SOCKADDR_UN_LEN: usize = 110;

/// The family of a socket address.
#[derive(Clone, Copy, Debug, PartialEq, Eq, Structural)]
pub enum AddressFamily {
    /// `AF_UNIX`: Unix-domain sockets.
    Unix,
    /// `AF_INET`: IPv4.
    Inet,
    /// `AF_INET6`: IPv6.
    Inet6,
}

impl AddressFamily {
    /// The kernel's code of the family.
    pub open spec fn spec_raw(&self) -> u16 {
        match self {
            AddressFamily::Unix => AF_UNIX,
            AddressFamily::Inet => AF_INET,
            AddressFamily::Inet6 => AF_INET6,
        }
    }

    /// The kernel's code of the family.
    pub fn as_raw(&self) -> (r: u16)
        ensures
            r == self.spec_raw(),
    {
        match self {
            AddressFamily::Unix => AF_UNIX,
            AddressFamily::Inet => AF_INET,
            AddressFamily::Inet6 => AF_INET6,
        }
    }
}

/// `struct sockaddr_in` as the kernel lays it out: the port and the address
/// hold their bytes in network order.
#[derive(Clone, Copy, Debug, PartialEq, Eq)]
pub struct SockaddrIn {
    /// `sin_family`.
    pub sin_family: u16,
    /// `sin_port`, high byte first.
    pub sin_port: [u8; 2],
    /// `sin_addr`.
    pub sin_addr: [u8; 4],
}

/// `struct sockaddr_in6` as the kernel lays it out.
#[derive(Clone, Copy, Debug, PartialEq, Eq)]
pub struct SockaddrIn6 {
    /// `sin6_family`.
    pub sin6_family: u16,
    /// `sin6_port`, high byte first.
    pub sin6_port: [u8; 2],
    /// `sin6_flowinfo`.
    pub sin6_flowinfo: u32,
    /// `sin6_addr`.
    pub sin6_addr: [u8; 16],
    /// `sin6_scope_id`.
    pub sin6_scope_id: u32,
}

/// `struct sockaddr_un` as the kernel lays it out.
#[derive(Clone, Copy, Debug, PartialEq, Eq)]
pub struct SockaddrUn {
    /// `sun_family`.
    pub sun_family: u16,
    /// `sun_path`.
    pub sun_path: [u8; 108],
}

/// A `struct sockaddr_storage` that the kernel filled in, read as each of the
/// structures it may hold; which one it holds is told by `ss_family`.
#[derive(Clone, Copy, Debug, PartialEq, Eq)]
pub struct SockaddrStorage {
    /// `ss_family`.
    pub ss_family: u16,
    /// The storage read as `struct sockaddr_in`.
    pub in4: SockaddrIn,
    /// The storage read as `struct sockaddr_in6`.
    pub in6: SockaddrIn6,
    /// The storage read as `struct sockaddr_un`.
    pub un: SockaddrUn,
}

/// A socket address as plain values.
pub enum SocketAddrModel {
    /// An IPv4 address and port.
    V4 { addr: Seq<u8>, port: u16 },
    /// An IPv6 address, port, flow information and scope.
    V6 { addr: Seq<u8>, port: u16, flowinfo: u32, scope_id: u32 },
    /// A Unix-domain path, without its NUL.
    Unix { path: Seq<u8> },
}

/// Whether `path` can name a Unix-domain socket: no NUL, and room for the
/// terminating one in `sun_path`.
pub open spec fn unix_path_fits(path: Seq<u8>) -> bool {
    !has_nul(path) && path.len() + 1 <= SUN_PATH_LEN
}

/// `struct sockaddr_in`: an IPv4 address and a port.
#[derive(Clone, Copy, Debug, PartialEq, Eq)]
pub struct SocketAddrV4 {
    addr: Ipv4Addr,
    port: u16,
}

impl View for SocketAddrV4 {
    type V = SocketAddrModel;

    closed spec fn view(&self) -> SocketAddrModel {
        SocketAddrModel::V4 { addr: self.addr@, port: self.port }
    }
}

impl SocketAddrV4 {
    /// The socket address of `addr` and `port`.
    pub fn new(addr: Ipv4Addr, port: u16) -> (r: SocketAddrV4)
        ensures
            r@ == (SocketAddrModel::V4 { addr: addr@, port }),
    {
        SocketAddrV4 { addr, port }
    }

    /// The IPv4 address.
    pub fn address(&self) -> (r: &Ipv4Addr)
        ensures
            self@ matches SocketAddrModel::V4 { addr, .. } && addr == r@,
    {
        &self.addr
    }

    /// The port.
    pub fn port(&self) -> (r: u16)
        ensures
            self@ matches SocketAddrModel::V4 { port, .. } && port == r,
    {
        self.port
    }

    /// This address in the kernel's layout.
    pub fn encode(&self) -> (r: SockaddrIn)
        ensures
            encodes_v4(r, self@),
    {
        let (hi, lo) = split_u16(self.port);
        let r = SockaddrIn { sin_family: AF_INET, sin_port: [hi, lo], sin_addr: self.addr.octets() };
        assert(r.sin_port@ =~= seq![hi8(self.port), lo8(self.port)]);
        r
    }
}

/// Whether `r` lays out the IPv4 socket address `a`.
pub open spec fn encodes_v4(r: SockaddrIn, a: SocketAddrModel) -> bool {
    match a {
        SocketAddrModel::V4 { addr, port } => r.sin_family == AF_INET && r.sin_port@ == seq![
            hi8(port),
            lo8(port),
        ] && r.sin_addr@ == addr,
        _ => false,
    }
}

/// `struct sockaddr_in6`: an IPv6 address, a port, flow information and a
/// scope.
#[derive(Clone, Copy, Debug, PartialEq, Eq)]
pub struct SocketAddrV6 {
    addr: Ipv6Addr,
    port: u16,
    flowinfo: u32,
    scope_id: u32,
}

impl View for SocketAddrV6 {
    type V = SocketAddrModel;

    closed spec fn view(&self) -> SocketAddrModel {
        SocketAddrModel::V6 {
            addr: self.addr@,
            port: self.port,
            flowinfo: self.flowinfo,
            scope_id: self.scope_id,
        }
    }
}

impl SocketAddrV6 {
    /// The socket address of `addr`, `port`, `flowinfo` and `scope_id`.
    pub fn new(addr: Ipv6Addr, port: u16, flowinfo: u32, scope_id: u32) -> (r: SocketAddrV6)
        ensures
            r@ == (SocketAddrModel::V6 { addr: addr@, port, flowinfo, scope_id }),
    {
        SocketAddrV6 { addr, port, flowinfo, scope_id }
    }

    /// The IPv6 address.
    pub fn address(&self) -> (r: &Ipv6Addr)
        ensures
            self@ matches SocketAddrModel::V6 { addr, .. } && addr == r@,
    {
        &self.addr
    }

    /// The port.
    pub fn port(&self) -> (r: u16)
        ensures
            self@ matches SocketAddrModel::V6 { port, .. } && port == r,
    {
        self.port
    }

    /// The flow information.
    pub fn flowinfo(&self) -> (r: u32)
        ensures
            self@ matches SocketAddrModel::V6 { flowinfo, .. } && flowinfo == r,
    {
        self.flowinfo
    }

    /// The scope.
    pub fn scope_id(&self) -> (r: u32)
        ensures
            self@ matches SocketAddrModel::V6 { scope_id, .. } && scope_id == r,
    {
        self.scope_id
    }

    /// This address in the kernel's layout.
    pub fn encode(&self) -> (r: SockaddrIn6)
        ensures
            encodes_v6(r, self@),
    {
        let (hi, lo) = split_u16(self.port);
        let r = SockaddrIn6 {
            sin6_family: AF_INET6,
            sin6_port: [hi, lo],
            sin6_flowinfo: self.flowinfo,
            sin6_addr: self.addr.octets(),
            sin6_scope_id: self.scope_id,
        };
        assert(r.sin6_port@ =~= seq![hi8(self.port), lo8(self.port)]);
        r
    }
}

/// Whether `r` lays out the IPv6 socket address `a`.
pub open spec fn encodes_v6(r: SockaddrIn6, a: SocketAddrModel) -> bool {
    match a {
        SocketAddrModel::V6 { addr, port, flowinfo, scope_id } => r.sin6_family == AF_INET6
            && r.sin6_port@ == seq![hi8(port), lo8(port)] && r.sin6_flowinfo == flowinfo
            && r.sin6_addr@ == addr && r.sin6_scope_id == scope_id,
        _ => false,
    }
}

/// `struct sockaddr_un`: a Unix-domain socket path.
#[derive(Debug, PartialEq, Eq)]
pub struct SocketAddrUnix {
    path: CStrBuf,
}

impl View for SocketAddrUnix {
    type V = SocketAddrModel;

    closed spec fn view(&self) -> SocketAddrModel {
        SocketAddrModel::Unix { path: self.path@ }
    }
}

/// The path of a Unix-domain address.
pub open spec fn unix_path_of(a: SocketAddrModel) -> Seq<u8> {
    match a {
        SocketAddrModel::Unix { path } => path,
        _ => Seq::empty(),
    }
}

/// The `sun_path` field that holds `path`: its bytes, then NULs to the end.
pub open spec fn sun_path_of(path: Seq<u8>) -> Seq<u8> {
    path + Seq::new((SUN_PATH_LEN - path.len()) as nat, |i: int| 0u8)
}

impl SocketAddrUnix {
    /// The path fits in `sun_path` with its NUL.
    #[verifier::type_invariant]
    closed spec fn fits(&self) -> bool {
        self.path@.len() + 1 <= SUN_PATH_LEN
    }

    /// The Unix-domain address of `path`. Fails with `EINVAL` where the path
    /// holds a NUL, and with `ENAMETOOLONG` where it leaves no room for the
    /// terminating NUL in `sun_path`.
    pub fn new<P: Arg>(path: P) -> (r: Result<SocketAddrUnix>)
        ensures
            has_nul(path.arg_bytes()) ==> r == Err::<SocketAddrUnix, Errno>(Errno::Inval),
            !has_nul(path.arg_bytes()) && path.arg_bytes().len() + 1 > SUN_PATH_LEN ==> r
                == Err::<SocketAddrUnix, Errno>(Errno::NameTooLong),
            unix_path_fits(path.arg_bytes()) ==> (r matches Ok(a) && a@ == (SocketAddrModel::Unix {
                path: path.arg_bytes(),
            })),
    {
        let ghost bytes = path.arg_bytes();
        let r = path.into_c_str();
        assert(converted_c_str(bytes, r));
        match r {
            Ok(c) => {
                assert(c@ =~= bytes) by {
                    assert(c.spec_with_nul().drop_last() =~= c@);
                    assert(bytes.push(0).drop_last() =~= bytes);
                }
                Self::new_from_c_str(c)
            },
            Err(e) => Err(e),
        }
    }

    /// The Unix-domain address of a NUL-terminated path; `ENAMETOOLONG` where
    /// it leaves no room for the terminating NUL in `sun_path`.
    fn new_from_c_str(path: CStrBuf) -> (r: Result<SocketAddrUnix>)
        ensures
            path@.len() + 1 > SUN_PATH_LEN ==> r == Err::<SocketAddrUnix, Errno>(Errno::NameTooLong),
            path@.len() + 1 <= SUN_PATH_LEN ==> (r matches Ok(a) && a@ == (SocketAddrModel::Unix {
                path: path@,
            })),
    {
        let len = path.as_bytes().len();
        if len >= SUN_PATH_LEN {
            return Err(Errno::NameTooLong);
        }
        Ok(SocketAddrUnix { path })
    }

    /// The path, without its NUL.
    pub fn path_bytes(&self) -> (r: &[u8])
        ensures
            r@ == unix_path_of(self@),
            unix_path_fits(r@),
    {
        proof {
            use_type_invariant(self);
        }
        self.path.as_bytes()
    }

    /// This address in the kernel's layout.
    pub fn encode(&self) -> (r: SockaddrUn)
        ensures
            encodes_unix(r, self@),
    {
        proof {
            use_type_invariant(self);
        }
        let bytes = self.path.as_bytes();
        let n = bytes.len();
        let mut sun_path: [u8; 108] = [0u8; 108];
        let mut i: usize = 0;
        while i < n
            invariant
                n == bytes@.len(),
                n < 108,
                i <= n,
                forall|j: int| 0 <= j < i ==> sun_path@[j] == bytes@[j],
                forall|j: int| i <= j < 108 ==> sun_path@[j] == 0,
            decreases n - i,
        {
            sun_path[i] = bytes[i];
            i = i + 1;
        }
        assert(sun_path@ =~= sun_path_of(bytes@));
        SockaddrUn { sun_family: AF_UNIX, sun_path }
    }

    /// The length of this address in the kernel's layout: the family, the
    /// path and its terminating NUL.
    pub fn encoded_len(&self) -> (r: usize)
        ensures
            r == SUN_PATH_OFFSET + unix_path_of(self@).len() + 1,
    {
        proof {
            use_type_invariant(self);
        }
        SUN_PATH_OFFSET + self.path.as_bytes().len() + 1
    }
}

impl Clone for SocketAddrUnix {
    fn clone(&self) -> (r: SocketAddrUnix)
        ensures
            r@ == self@,
    {
        proof {
            use_type_invariant(self);
        }
        SocketAddrUnix { path: self.path.clone() }
    }
}

/// Whether `r` lays out the Unix-domain socket address `a`.
pub open spec fn encodes_unix(r: SockaddrUn, a: SocketAddrModel) -> bool {
    match a {
        SocketAddrModel::Unix { path } => r.sun_family == AF_UNIX && r.sun_path@ == sun_path_of(path),
        _ => false,
    }
}

/// `struct sockaddr_storage`: a socket address of any supported family.
#[derive(Clone, Debug, PartialEq, Eq)]
pub enum SocketAddr {
    /// `struct sockaddr_in`.
    V4(SocketAddrV4),
    /// `struct sockaddr_in6`.
    V6(SocketAddrV6),
    /// `struct sockaddr_un`.
    Unix(SocketAddrUnix),
}

impl View for SocketAddr {
    type V = SocketAddrModel;

    open spec fn view(&self) -> SocketAddrModel {
        match self {
            SocketAddr::V4(a) => a@,
            SocketAddr::V6(a) => a@,
            SocketAddr::Unix(a) => a@,
        }
    }
}

/// The family of a socket address.
pub open spec fn family_of(a: SocketAddrModel) -> AddressFamily {
    match a {
        SocketAddrModel::V4 { .. } => AddressFamily::Inet,
        SocketAddrModel::V6 { .. } => AddressFamily::Inet6,
        SocketAddrModel::Unix { .. } => AddressFamily::Unix,
    }
}

impl SocketAddr {
    /// The address family of this socket address.
    pub fn address_family(&self) -> (r: AddressFamily)
        ensures
            r == family_of(self@),
    {
        proof {
            self.lemma_view_matches_variant();
        }
        match self {
            SocketAddr::V4(_) => AddressFamily::Inet,
            SocketAddr::V6(_) => AddressFamily::Inet6,
            SocketAddr::Unix(_) => AddressFamily::Unix,
        }
    }

    /// Each variant's view is a model of the same kind.
    proof fn lemma_view_matches_variant(&self)
        ensures
            self is V4 <==> self@ is V4,
            self is V6 <==> self@ is V6,
            self is Unix <==> self@ is Unix,
    {
        match self {
            SocketAddr::V4(a) => {
                assert(a@ is V4);
            },
            SocketAddr::V6(a) => {
                assert(a@ is V6);
            },
            SocketAddr::Unix(a) => {
                assert(a@ is Unix);
            },
        }
    }
}

/// The index of the first NUL in `b`, where `b` holds one.
pub open spec fn first_nul(b: Seq<u8>) -> int {
    choose|i: int| 0 <= i < b.len() && b[i] == 0 && forall|j: int| 0 <= j < i ==> b[j] != 0
}

/// The bytes of `b` before its first NUL; all of `b` where it holds none.
pub open spec fn before_nul(b: Seq<u8>) -> Seq<u8> {
    if has_nul(b) {
        b.subrange(0, first_nul(b))
    } else {
        b
    }
}

/// What a `struct sockaddr_storage` of which the kernel reported `len` bytes
/// decodes to: the address of the family that `ss_family` names, read no
/// further than `len`. Fails with `EINVAL` where `len` is too short for that
/// family's structure (or, for a Unix-domain address, longer than it), with
/// `ENAMETOOLONG` where a Unix-domain path fills `sun_path` with no NUL, and
/// with `EAFNOSUPPORT` for any other family.
pub open spec fn decode_model(s: SockaddrStorage, len: usize) -> Result<SocketAddrModel> {
    if len < SUN_PATH_OFFSET {
        Err(Errno::Inval)
    } else if s.ss_family == AF_INET {
        if len < SOCKADDR_IN_LEN {
            Err(Errno::Inval)
        } else {
            Ok(
                SocketAddrModel::V4 {
                    addr: s.in4.sin_addr@,
                    port: be16(s.in4.sin_port@[0], s.in4.sin_port@[1]),
                },
            )
        }
    } else if s.ss_family == AF_INET6 {
        if len < SOCKADDR_IN6_LEN {
            Err(Errno::Inval)
        } else {
            Ok(
                SocketAddrModel::V6 {
                    addr: s.in6.sin6_addr@,
                    port: be16(s.in6.sin6_port@[0], s.in6.sin6_port@[1]),
                    flowinfo: s.in6.sin6_flowinfo,
                    scope_id: s.in6.sin6_scope_id,
                },
            )
        }
    } else if s.ss_family == AF_UNIX {
        if len > SOCKADDR_UN_LEN {
            Err(Errno::Inval)
        } else {
            let path = before_nul(s.un.sun_path@.subrange(0, len - SUN_PATH_OFFSET));
            if path.len() + 1 > SUN_PATH_LEN {
                Err(Errno::NameTooLong)
            } else {
                Ok(SocketAddrModel::Unix { path })
            }
        }
    } else {
        Err(Errno::AfNoSupport)
    }
}

/// Whether `r` is the decoding that `decode_model` gives.
pub open spec fn decoded(s: SockaddrStorage, len: usize, r: Result<SocketAddr>) -> bool {
    match r {
        Ok(a) => decode_model(s, len) == Ok::<SocketAddrModel, Errno>(a@),
        Err(e) => decode_model(s, len) == Err::<SocketAddrModel, Errno>(e),
    }
}

/// The bytes of `b` before its first NUL.
fn prefix_before_nul(b: &[u8]) -> (r: &[u8])
    ensures
        r@ == before_nul(b@),
        !has_nul(r@),
{
    match find_nul(b) {
        Some(i) => {
            let (head, _) = b.split_at(i);
            proof {
                let k = first_nul(b@);
                assert(0 <= k < b@.len() && b@[k] == 0 && forall|j: int| 0 <= j < k ==> b@[j] != 0);
                if k < i {
                    assert(b@[k] != 0);
                } else if k > i {
                    assert(b@[i as int] != 0);
                }
                assert(k == i);
            }
            head
        },
        None => b,
    }
}

/// Decodes the socket address in `storage`, of which the kernel reported
/// `len` bytes; see `decode_model`.
pub fn decode_sockaddr(storage: &SockaddrStorage, len: usize) -> (r: Result<SocketAddr>)
    ensures
        decoded(*storage, len, r),
{
    if len < SUN_PATH_OFFSET {
        return Err(Errno::Inval);
    }
    if storage.ss_family == AF_INET {
        if len < SOCKADDR_IN_LEN {
            return Err(Errno::Inval);
        }
        let s = &storage.in4;
        let port = join_u16(s.sin_port[0], s.sin_port[1]);
        let a = SocketAddrV4::new(Ipv4Addr::from_octets(s.sin_addr), port);
        Ok(SocketAddr::V4(a))
    } else if storage.ss_family == AF_INET6 {
        if len < SOCKADDR_IN6_LEN {
            return Err(Errno::Inval);
        }
        let s = &storage.in6;
        let port = join_u16(s.sin6_port[0], s.sin6_port[1]);
        let a = SocketAddrV6::new(
            Ipv6Addr::from_octets(s.sin6_addr),
            port,
            s.sin6_flowinfo,
            s.sin6_scope_id,
        );
        Ok(SocketAddr::V6(a))
    } else if storage.ss_family == AF_UNIX {
        if len > SOCKADDR_UN_LEN {
            return Err(Errno::Inval);
        }
        let (reported, _) = storage.un.sun_path.as_slice().split_at(len - SUN_PATH_OFFSET);
        let path = prefix_before_nul(reported);
        match SocketAddrUnix::new(path) {
            Ok(a) => Ok(SocketAddr::Unix(a)),
            Err(e) => Err(e),
        }
    } else {
        Err(Errno::AfNoSupport)
    }
}

/// Whether `storage`, of which the kernel reported `len` bytes, holds `a` as
/// the kernel hands back an address it was given: in `a`'s own structure,
/// with the length of that structure (for a Unix-domain address, up to and
/// including the path's NUL).
pub open spec fn echoes(storage: SockaddrStorage, len: usize, a: SocketAddrModel) -> bool {
    match a {
        SocketAddrModel::V4 { .. } => storage.ss_family == AF_INET && encodes_v4(storage.in4, a)
            && len == SOCKADDR_IN_LEN,
        SocketAddrModel::V6 { .. } => storage.ss_family == AF_INET6 && encodes_v6(storage.in6, a)
            && len == SOCKADDR_IN6_LEN,
        SocketAddrModel::Unix { path } => storage.ss_family == AF_UNIX && encodes_unix(
            storage.un,
            a,
        ) && len == SUN_PATH_OFFSET + path.len() + 1,
    }
}

/// Joining the two bytes of a 16-bit value gives the value back.
pub proof fn lemma_be16_of_bytes(x: u16)
    ensures
        be16(hi8(x), lo8(x)) == x,
{
    assert(x as int == (x as int / 256) * 256 + x as int % 256) by (nonlinear_arith);
}

/// Encoding a socket address and decoding the kernel's echo of it gives the
/// same address back, for IPv4, IPv6 and Unix-domain addresses alike.
pub proof fn lemma_sockaddr_round_trip(a: SocketAddrModel, storage: SockaddrStorage, len: usize)
    requires
        a is Unix ==> unix_path_fits(unix_path_of(a)),
        echoes(storage, len, a),
    ensures
        decode_model(storage, len) == Ok::<SocketAddrModel, Errno>(a),
{
    match a {
        SocketAddrModel::V4 { addr, port } => {
            lemma_be16_of_bytes(port);
        },
        SocketAddrModel::V6 { addr, port, flowinfo, scope_id } => {
            lemma_be16_of_bytes(port);
        },
        SocketAddrModel::Unix { path } => {
            let reported = storage.un.sun_path@.subrange(0, len - SUN_PATH_OFFSET);
            assert(reported =~= path.push(0));
            let k = first_nul(reported);
            assert(has_nul(reported)) by {
                assert(reported[path.len() as int] == 0);
            }
            assert(k == path.len()) by {
                if k < path.len() {
                    assert(reported[k] == path[k]);
                } else if k > path.len() {
                    assert(reported[path.len() as int] == 0);
                }
            }
            assert(before_nul(reported) =~= path);
        },
    }
}

/// The encoding of every address decodes back to it: `encode`,
/// `encoded_len` and `decode_sockaddr` agree.
pub proof fn lemma_encodings_decode(a: SocketAddr, storage: SockaddrStorage, len: usize, r: Result<SocketAddr>)
    requires
        a is Unix ==> unix_path_fits(unix_path_of(a@)),
        echoes(storage, len, a@),
        decoded(storage, len, r),
    ensures
        r matches Ok(b) && b@ == a@,
{
    lemma_sockaddr_round_trip(a@, storage, len);
}

} // verus!
