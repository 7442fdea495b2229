//! Fixed-layout records exchanged between the ingress classifier and the
//! trace engine, and their byte encodings.
//!
//! Every record has one encoding: fields in declaration order, no padding,
//! integers little-endian. The encoders return arrays whose length is part of
//! their type, so a record's size is fixed by the signature.

use vstd::prelude::*;
use vstd::std_specs::cmp::PartialEqSpecImpl;

verus! {

/// Size in bytes of an encoded [`IPAddr`].
pub const IP_ADDR_SIZE: usize = 17;

/// Size in bytes of an encoded [`SocketAddr`].
pub const SOCKET_ADDR_SIZE: usize = 19;

/// Size in bytes of an encoded [`EbpfConfig`].
pub const EBPF_CONFIG_SIZE: usize = 36;

/// Size in bytes of an encoded [`TraceEvent`].
pub const TRACE_EVENT_SIZE: usize = 40;

/// The two bytes of `x`, least significant first.
pub open spec fn le16(x: u16) -> Seq<u8> {
    seq![(x % 256) as u8, (x / 256) as u8]
}

/// The four bytes of `x`, least significant first.
pub open spec fn le32(x: u32) -> Seq<u8> {
    seq![
        (x % 256) as u8,
        ((x / 0x100) % 256) as u8,
        ((x / 0x1_0000) % 256) as u8,
        (x / 0x100_0000) as u8,
    ]
}

/// The eight bytes of `x`, least significant first.
pub open spec fn le64(x: u64) -> Seq<u8> {
    seq![
        (x % 256) as u8,
        ((x / 0x100) % 256) as u8,
        ((x / 0x1_0000) % 256) as u8,
        ((x / 0x100_0000) % 256) as u8,
        ((x / 0x1_0000_0000) % 256) as u8,
        ((x / 0x100_0000_0000) % 256) as u8,
        ((x / 0x1_0000_0000_0000) % 256) as u8,
        (x / 0x100_0000_0000_0000) as u8,
    ]
}

/// The number whose little-endian bytes are `b[at]`, `b[at + 1]`.
pub open spec fn from_le16(b: Seq<u8>, at: int) -> int {
    b[at] + 0x100 * b[at + 1]
}

/// The number whose little-endian bytes are `b[at]` to `b[at + 3]`.
pub open spec fn from_le32(b: Seq<u8>, at: int) -> int {
    b[at] + 0x100 * b[at + 1] + 0x1_0000 * b[at + 2] + 0x100_0000 * b[at + 3]
}

/// The number whose little-endian bytes are `b[at]` to `b[at + 7]`.
pub open spec fn from_le64(b: Seq<u8>, at: int) -> int {
    from_le32(b, at) + 0x1_0000_0000 * from_le32(b, at + 4)
}

/// The number whose big-endian bytes are `b[at]`, `b[at + 1]`.
pub open spec fn from_be16(b: Seq<u8>, at: int) -> int {
    0x100 * b[at] + b[at + 1]
}

/// The number whose big-endian bytes are `b[at]` to `b[at + 3]`.
pub open spec fn from_be32(b: Seq<u8>, at: int) -> int {
    0x100_0000 * b[at] + 0x1_0000 * b[at + 1] + 0x100 * b[at + 2] + b[at + 3]
}

/// The big-endian number at `b[at]`, `b[at + 1]`, as a `u16`.
pub open spec fn be16(b: Seq<u8>, at: int) -> u16 {
    from_be16(b, at) as u16
}

/// The big-endian number at `b[at]` to `b[at + 3]`, as a `u32`.
pub open spec fn be32(b: Seq<u8>, at: int) -> u32 {
    from_be32(b, at) as u32
}

pub(crate) fn read_le16(b: &[u8], at: usize) -> (r: u16)
    requires
        at + 2 <= b@.len(),
    ensures
        r == from_le16(b@, at as int),
{
    let lo: u16 = b[at] as u16;
    let hi: u16 = b[at + 1] as u16;
    lo + 0x100 * hi
}

pub(crate) fn read_le32(b: &[u8], at: usize) -> (r: u32)
    requires
        at + 4 <= b@.len(),
    ensures
        r == from_le32(b@, at as int),
{
    let b0: u32 = b[at] as u32;
    let b1: u32 = b[at + 1] as u32;
    let b2: u32 = b[at + 2] as u32;
    let b3: u32 = b[at + 3] as u32;
    b0 + 0x100 * b1 + 0x1_0000 * b2 + 0x100_0000 * b3
}

pub(crate) fn read_le64(b: &[u8], at: usize) -> (r: u64)
    requires
        at + 8 <= b@.len(),
    ensures
        r == from_le64(b@, at as int),
{
    let n: usize = b.len();
    let lo: u64 = read_le32(b, at) as u64;
    let hi: u64 = read_le32(b, at + 4) as u64;
    lo + 0x1_0000_0000 * hi
}

pub(crate) fn read_be16(b: &[u8], at: usize) -> (r: u16)
    requires
        at + 2 <= b@.len(),
    ensures
        r == from_be16(b@, at as int),
        r == be16(b@, at as int),
{
    let hi: u16 = b[at] as u16;
    let lo: u16 = b[at + 1] as u16;
    0x100 * hi + lo
}

pub(crate) fn read_be32(b: &[u8], at: usize) -> (r: u32)
    requires
        at + 4 <= b@.len(),
    ensures
        r == from_be32(b@, at as int),
        r == be32(b@, at as int),
{
    let b0: u32 = b[at] as u32;
    let b1: u32 = b[at + 1] as u32;
    let b2: u32 = b[at + 2] as u32;
    let b3: u32 = b[at + 3] as u32;
    0x100_0000 * b0 + 0x1_0000 * b1 + 0x100 * b2 + b3
}

pub(crate) fn write_le16(dst: &mut [u8], at: usize, x: u16)
    requires
        at + 2 <= old(dst)@.len(),
    ensures
        final(dst)@.len() == old(dst)@.len(),
        forall|i: int| 0 <= i < at ==> final(dst)@[i] == old(dst)@[i],
        forall|i: int| 0 <= i < 2 ==> final(dst)@[at + i] == le16(x)[i],
        forall|i: int| at + 2 <= i < old(dst)@.len() ==> final(dst)@[i] == old(dst)@[i],
{
    dst[at] = (x % 256) as u8;
    dst[at + 1] = (x / 256) as u8;
}

pub(crate) fn write_le32(dst: &mut [u8], at: usize, x: u32)
    requires
        at + 4 <= old(dst)@.len(),
    ensures
        final(dst)@.len() == old(dst)@.len(),
        forall|i: int| 0 <= i < at ==> final(dst)@[i] == old(dst)@[i],
        forall|i: int| 0 <= i < 4 ==> final(dst)@[at + i] == le32(x)[i],
        forall|i: int| at + 4 <= i < old(dst)@.len() ==> final(dst)@[i] == old(dst)@[i],
{
    dst[at] = (x % 256) as u8;
    dst[at + 1] = ((x / 0x100) % 256) as u8;
    dst[at + 2] = ((x / 0x1_0000) % 256) as u8;
    dst[at + 3] = (x / 0x100_0000) as u8;
}

pub(crate) fn write_le64(dst: &mut [u8], at: usize, x: u64)
    requires
        at + 8 <= old(dst)@.len(),
    ensures
        final(dst)@.len() == old(dst)@.len(),
        forall|i: int| 0 <= i < at ==> final(dst)@[i] == old(dst)@[i],
        forall|i: int| 0 <= i < 8 ==> final(dst)@[at + i] == le64(x)[i],
        forall|i: int| at + 8 <= i < old(dst)@.len() ==> final(dst)@[i] == old(dst)@[i],
{
    dst[at] = (x % 256) as u8;
    dst[at + 1] = ((x / 0x100) % 256) as u8;
    dst[at + 2] = ((x / 0x1_0000) % 256) as u8;
    dst[at + 3] = ((x / 0x100_0000) % 256) as u8;
    dst[at + 4] = ((x / 0x1_0000_0000) % 256) as u8;
    dst[at + 5] = ((x / 0x100_0000_0000) % 256) as u8;
    dst[at + 6] = ((x / 0x1_0000_0000_0000) % 256) as u8;
    dst[at + 7] = (x / 0x100_0000_0000_0000) as u8;
}

/// Writes `src` into `dst` starting at `at`.
pub(crate) fn copy_into(dst: &mut [u8], at: usize, src: &[u8])
    requires
        at + src@.len() <= old(dst)@.len(),
    ensures
        final(dst)@.len() == old(dst)@.len(),
        forall|i: int| 0 <= i < at ==> final(dst)@[i] == old(dst)@[i],
        forall|i: int| 0 <= i < src@.len() ==> final(dst)@[at + i] == src@[i],
        forall|i: int| at + src@.len() <= i < old(dst)@.len() ==> final(dst)@[i] == old(dst)@[i],
{
    let total: usize = dst.len();
    let mut i: usize = 0;
    while i < src.len()
        invariant
            i <= src@.len(),
            at + src@.len() <= dst@.len(),
            dst@.len() == old(dst)@.len(),
            dst@.len() == total,
            forall|k: int| 0 <= k < at ==> dst@[k] == old(dst)@[k],
            forall|k: int| 0 <= k < i ==> dst@[at + k] == src@[k],
            forall|k: int| at + src@.len() <= k < dst@.len() ==> dst@[k] == old(dst)@[k],
        decreases src@.len() - i,
    {
        dst[at + i] = src[i];
        i += 1;
    }
}

/// Sixteen bytes of `src` starting at `at`.
pub(crate) fn take16(src: &[u8], at: usize) -> (r: [u8; 16])
    requires
        at + 16 <= src@.len(),
    ensures
        r@ == src@.subrange(at as int, at + 16),
{
    let n: usize = src.len();
    let mut out = [0u8; 16];
    let mut i: usize = 0;
    while i < 16
        invariant
            i <= 16,
            at + 16 <= src@.len(),
            src@.len() == n,
            forall|k: int| 0 <= k < i ==> out@[k] == src@[at + k],
        decreases 16 - i,
    {
        out[i] = src[at + i];
        i += 1;
    }
    assert(out@ =~= src@.subrange(at as int, at + 16));
    out
}

/// What the classifier saw.
#[derive(Debug, Copy, Clone, PartialEq, Eq, Structural)]
pub enum TraceEventType {
    TcpAck,
    TcpRst,
    IcmpTimeExceeded,
}

impl TraceEventType {
    /// The byte that stands for this kind on the wire.
    pub open spec fn spec_code(self) -> u8 {
        match self {
            TraceEventType::TcpAck => 0,
            TraceEventType::TcpRst => 1,
            TraceEventType::IcmpTimeExceeded => 2,
        }
    }

    /// The kind that a wire byte stands for, if any.
    pub open spec fn spec_from_code(code: u8) -> Option<TraceEventType> {
        if code == 0 {
            Some(TraceEventType::TcpAck)
        } else if code == 1 {
            Some(TraceEventType::TcpRst)
        } else if code == 2 {
            Some(TraceEventType::IcmpTimeExceeded)
        } else {
            None
        }
    }

    #[verifier::when_used_as_spec(spec_code)]
    pub fn code(self) -> (r: u8)
        ensures
            r == self.spec_code(),
    {
        match self {
            TraceEventType::TcpAck => 0,
            TraceEventType::TcpRst => 1,
            TraceEventType::IcmpTimeExceeded => 2,
        }
    }

    pub fn from_code(code: u8) -> (r: Option<TraceEventType>)
        ensures
            r == TraceEventType::spec_from_code(code),
    {
        if code == 0 {
            Some(TraceEventType::TcpAck)
        } else if code == 1 {
            Some(TraceEventType::TcpRst)
        } else if code == 2 {
            Some(TraceEventType::IcmpTimeExceeded)
        } else {
            None
        }
    }
}

/// Address family tag of an [`IPAddr`].
#[derive(Debug, Copy, Clone, PartialEq, Eq, Structural)]
pub enum IPVersion {
    EMPTY,
    IPV4,
    IPV6,
}

impl Default for IPVersion {
    fn default() -> (r: Self)
        ensures
            r == IPVersion::EMPTY,
    {
        IPVersion::EMPTY
    }
}

impl IPVersion {
    /// The byte that stands for this family on the wire.
    pub open spec fn spec_code(self) -> u8 {
        match self {
            IPVersion::EMPTY => 0,
            IPVersion::IPV4 => 4,
            IPVersion::IPV6 => 6,
        }
    }

    /// The family that a wire byte stands for, if any.
    pub open spec fn spec_from_code(code: u8) -> Option<IPVersion> {
        if code == 0 {
            Some(IPVersion::EMPTY)
        } else if code == 4 {
            Some(IPVersion::IPV4)
        } else if code == 6 {
            Some(IPVersion::IPV6)
        } else {
            None
        }
    }

    #[verifier::when_used_as_spec(spec_code)]
    pub fn code(self) -> (r: u8)
        ensures
            r == self.spec_code(),
    {
        match self {
            IPVersion::EMPTY => 0,
            IPVersion::IPV4 => 4,
            IPVersion::IPV6 => 6,
        }
    }

    pub fn from_code(code: u8) -> (r: Option<IPVersion>)
        ensures
            r == IPVersion::spec_from_code(code),
    {
        if code == 0 {
            Some(IPVersion::EMPTY)
        } else if code == 4 {
            Some(IPVersion::IPV4)
        } else if code == 6 {
            Some(IPVersion::IPV6)
        } else {
            None
        }
    }
}

/// An IPv4 or IPv6 address in a 16-byte buffer, tagged with its family.
///
/// An IPv4 address occupies the first four bytes, in network order.
#[derive(Debug, Copy, Clone)]
pub struct IPAddr {
    pub ip_version: IPVersion,
    pub addr: [u8; 16],
}

impl IPAddr {
    /// The buffer of an IPv4 address: its four bytes, then twelve zeros.
    pub open spec fn v4_buffer(short_addr: Seq<u8>) -> Seq<u8> {
        short_addr + Seq::new(12, |i: int| 0u8)
    }

    /// The canonical form: an IPv4 address leaves the last twelve bytes zero,
    /// an empty one leaves all of them zero.
    pub open spec fn wf(self) -> bool {
        match self.ip_version {
            IPVersion::EMPTY => forall|i: int| 0 <= i < 16 ==> self.addr[i] == 0,
            IPVersion::IPV4 => forall|i: int| 4 <= i < 16 ==> self.addr[i] == 0,
            IPVersion::IPV6 => true,
        }
    }

    /// The encoding: the family byte, then the buffer.
    pub open spec fn spec_bytes(self) -> Seq<u8> {
        seq![self.ip_version.spec_code()] + self.addr@
    }

    /// The address that `b` holds at `at`, if the family byte is known.
    pub open spec fn spec_from_bytes(b: Seq<u8>, at: int) -> Option<IPAddr> {
        match IPVersion::spec_from_code(b[at]) {
            Some(ip_version) => Some(
                IPAddr { ip_version, addr: array_of(b.subrange(at + 1, at + 17)) },
            ),
            None => None,
        }
    }

    /// The IPv4 address whose four bytes, in network order, are `short_addr`.
    pub open spec fn spec_v4(short_addr: Seq<u8>) -> IPAddr {
        IPAddr { ip_version: IPVersion::IPV4, addr: array_of(IPAddr::v4_buffer(short_addr)) }
    }

    /// The IPv6 address whose sixteen bytes are `addr`.
    pub open spec fn spec_v6(addr: Seq<u8>) -> IPAddr {
        IPAddr { ip_version: IPVersion::IPV6, addr: array_of(addr) }
    }

    pub fn new_v4(short_addr: [u8; 4]) -> (r: Self)
        ensures
            r == IPAddr::spec_v4(short_addr@),
            r.ip_version == IPVersion::IPV4,
            r.addr@ == IPAddr::v4_buffer(short_addr@),
            r.wf(),
    {
        let mut addr = [0u8; 16];
        addr[0] = short_addr[0];
        addr[1] = short_addr[1];
        addr[2] = short_addr[2];
        addr[3] = short_addr[3];
        assert(addr@ =~= IPAddr::v4_buffer(short_addr@));
        proof {
            lemma_array_of(addr);
        }
        Self { addr, ip_version: IPVersion::IPV4 }
    }

    pub fn new_v6(addr: [u8; 16]) -> (r: Self)
        ensures
            r == IPAddr::spec_v6(addr@),
            r == (IPAddr { ip_version: IPVersion::IPV6, addr }),
            r.wf(),
    {
        proof {
            lemma_array_of(addr);
        }
        Self { addr, ip_version: IPVersion::IPV6 }
    }

    /// The first four bytes of the buffer.
    pub open spec fn spec_octets_v4(self) -> [u8; 4] {
        array4_of(self.addr@.subrange(0, 4))
    }

    /// The four address bytes, for an IPv4 address.
    pub fn octets_v4(&self) -> (r: Option<[u8; 4]>)
        ensures
            r is Some <==> self.ip_version == IPVersion::IPV4,
            r is Some ==> r->0@ == self.addr@.subrange(0, 4),
            r is Some ==> r->0 == self.spec_octets_v4(),
    {
        match self.ip_version {
            IPVersion::IPV4 => {
                let out = [self.addr[0], self.addr[1], self.addr[2], self.addr[3]];
                assert(out@ =~= self.addr@.subrange(0, 4));
                proof {
                    lemma_array4_of(out);
                }
                Some(out)
            },
            _ => None,
        }
    }

    /// The sixteen address bytes, for an IPv6 address.
    pub fn octets_v6(&self) -> (r: Option<[u8; 16]>)
        ensures
            r == (if self.ip_version == IPVersion::IPV6 {
                Some(self.addr)
            } else {
                None
            }),
    {
        match self.ip_version {
            IPVersion::IPV6 => Some(self.addr),
            _ => None,
        }
    }

    pub fn to_bytes(&self) -> (r: [u8; 17])
        ensures
            r@ == self.spec_bytes(),
    {
        let mut out = [0u8; 17];
        out[0] = self.ip_version.code();
        copy_into(&mut out, 1, &self.addr);
        assert(out@ =~= self.spec_bytes());
        out
    }

    /// Decodes the address that starts at `at`.
    pub(crate) fn read(b: &[u8], at: usize) -> (r: Option<IPAddr>)
        requires
            at + 17 <= b@.len(),
        ensures
            r == IPAddr::spec_from_bytes(b@, at as int),
    {
        match IPVersion::from_code(b[at]) {
            Some(ip_version) => {
                let addr = take16(b, at + 1);
                proof {
                    lemma_array_of(addr);
                }
                Some(IPAddr { ip_version, addr })
            },
            None => None,
        }
    }

    /// Decodes an address from the first 17 bytes of `b`.
    pub fn from_bytes(b: &[u8]) -> (r: Option<IPAddr>)
        ensures
            r == (if b@.len() >= 17 {
                IPAddr::spec_from_bytes(b@, 0)
            } else {
                None
            }),
    {
        if b.len() < 17 {
            None
        } else {
            IPAddr::read(b, 0)
        }
    }
}

/// The array that holds the sixteen bytes of `s`.
pub open spec fn array_of(s: Seq<u8>) -> [u8; 16] {
    choose|a: [u8; 16]| a@ == s
}

/// The array that holds the four bytes of `s`.
pub open spec fn array4_of(s: Seq<u8>) -> [u8; 4] {
    choose|a: [u8; 4]| a@ == s
}

/// An array is the one that holds its own bytes.
pub proof fn lemma_array4_of(a: [u8; 4])
    ensures
        array4_of(a@) == a,
{
    let b = array4_of(a@);
    assert(b@ == a@);
    assert(b =~= a);
}

/// An array is the one that holds its own bytes.
pub proof fn lemma_array_of(a: [u8; 16])
    ensures
        array_of(a@) == a,
{
    let b = array_of(a@);
    assert(b@ == a@);
    assert(b =~= a);
}

impl Default for IPAddr {
    fn default() -> (r: Self)
        ensures
            r.ip_version == IPVersion::EMPTY,
            forall|i: int| 0 <= i < 16 ==> r.addr[i] == 0,
            r.wf(),
    {
        IPAddr { ip_version: IPVersion::EMPTY, addr: [0u8; 16] }
    }
}

impl PartialEq for IPAddr {
    fn eq(&self, other: &IPAddr) -> (r: bool) {
        if self.ip_version != other.ip_version {
            return false;
        }
        let mut i: usize = 0;
        while i < 16
            invariant
                i <= 16,
                self.ip_version == other.ip_version,
                forall|j: int| 0 <= j < i ==> self.addr[j] == other.addr[j],
            decreases 16 - i,
        {
            if self.addr[i] != other.addr[i] {
                return false;
            }
            i += 1;
        }
        assert(self.addr =~= other.addr);
        true
    }
}

impl Eq for IPAddr {

}

impl PartialEqSpecImpl for IPAddr {
    open spec fn obeys_eq_spec() -> bool {
        true
    }

    open spec fn eq_spec(&self, other: &IPAddr) -> bool {
        *self == *other
    }
}

/// An address and a port: the key under which a trace is filed.
///
/// Two keys are equal exactly when their encodings are.
#[derive(Debug, Copy, Clone)]
pub struct SocketAddr {
    pub port: u16,
    pub addr: IPAddr,
}

impl SocketAddr {
    /// The encoding: the port, then the address.
    pub open spec fn spec_bytes(self) -> Seq<u8> {
        le16(self.port) + self.addr.spec_bytes()
    }

    /// The key that `b` holds at `at`, if the family byte is known.
    pub open spec fn spec_from_bytes(b: Seq<u8>, at: int) -> Option<SocketAddr> {
        match IPAddr::spec_from_bytes(b, at + 2) {
            Some(addr) => Some(SocketAddr { port: from_le16(b, at) as u16, addr }),
            None => None,
        }
    }

    pub fn new(addr: IPAddr, port: u16) -> (r: Self)
        ensures
            r == (SocketAddr { port, addr }),
    {
        SocketAddr { port, addr }
    }

    pub fn to_bytes(&self) -> (r: [u8; 19])
        ensures
            r@ == self.spec_bytes(),
    {
        let mut out = [0u8; 19];
        write_le16(&mut out, 0, self.port);
        let addr = self.addr.to_bytes();
        copy_into(&mut out, 2, &addr);
        assert(out@ =~= self.spec_bytes());
        out
    }

    /// Decodes a key from the first 19 bytes of `b`.
    pub fn from_bytes(b: &[u8]) -> (r: Option<SocketAddr>)
        ensures
            r == (if b@.len() >= 19 {
                SocketAddr::spec_from_bytes(b@, 0)
            } else {
                None
            }),
    {
        if b.len() < 19 {
            return None;
        }
        match IPAddr::read(b, 2) {
            Some(addr) => Some(SocketAddr { port: read_le16(b, 0), addr }),
            None => None,
        }
    }
}

impl Default for SocketAddr {
    fn default() -> (r: Self)
        ensures
            r.port == 0,
            r.addr.ip_version == IPVersion::EMPTY,
            forall|i: int| 0 <= i < 16 ==> r.addr.addr[i] == 0,
    {
        SocketAddr { port: 0, addr: IPAddr::default() }
    }
}

impl PartialEq for SocketAddr {
    fn eq(&self, other: &SocketAddr) -> (r: bool) {
        self.port == other.port && self.addr == other.addr
    }
}

impl Eq for SocketAddr {

}

impl PartialEqSpecImpl for SocketAddr {
    open spec fn obeys_eq_spec() -> bool {
        true
    }

    open spec fn eq_spec(&self, other: &SocketAddr) -> bool {
        *self == *other
    }
}

/// What the classifier is told about the local listener: its port and its
/// address in each family.
#[derive(Debug, Copy, Clone)]
pub struct EbpfConfig {
    pub port: u16,
    ipv4: IPAddr,
    ipv6: IPAddr,
}

impl EbpfConfig {
    /// The listener's port.
    pub closed spec fn spec_port(self) -> u16 {
        self.port
    }

    /// The IPv4 slot.
    pub closed spec fn ipv4(self) -> IPAddr {
        self.ipv4
    }

    /// The IPv6 slot.
    pub closed spec fn ipv6(self) -> IPAddr {
        self.ipv6
    }

    /// The encoding: the port, the IPv4 slot, the IPv6 slot.
    pub open spec fn spec_bytes(self) -> Seq<u8> {
        le16(self.spec_port()) + self.ipv4().spec_bytes() + self.ipv6().spec_bytes()
    }

    /// The local IPv4 address as the four bytes that a packet carries, if
    /// the IPv4 slot holds one.
    pub open spec fn local_v4(self) -> Option<Seq<u8>> {
        if self.ipv4().ip_version == IPVersion::IPV4 {
            Some(self.ipv4().addr@.subrange(0, 4))
        } else {
            None
        }
    }

    /// The local IPv6 address as the sixteen bytes that a packet carries, if
    /// the IPv6 slot holds one.
    pub open spec fn local_v6(self) -> Option<Seq<u8>> {
        if self.ipv6().ip_version == IPVersion::IPV6 {
            Some(self.ipv6().addr@)
        } else {
            None
        }
    }

    /// The listener's port.
    pub fn port(&self) -> (r: u16)
        ensures
            r == self.spec_port(),
    {
        self.port
    }

    /// A slot that is not given holds the empty address.
    pub fn new(port: u16, ipv4: Option<IPAddr>, ipv6: Option<IPAddr>) -> (r: Self)
        ensures
            r.spec_port() == port,
            match ipv4 {
                Some(a) => r.ipv4() == a,
                None => r.ipv4().ip_version == IPVersion::EMPTY && r.ipv4().wf(),
            },
            match ipv6 {
                Some(a) => r.ipv6() == a,
                None => r.ipv6().ip_version == IPVersion::EMPTY && r.ipv6().wf(),
            },
    {
        let ipv4 = match ipv4 {
            Some(a) => a,
            None => IPAddr::default(),
        };
        let ipv6 = match ipv6 {
            Some(a) => a,
            None => IPAddr::default(),
        };
        Self { port, ipv4, ipv6 }
    }

    /// The local IPv4 address as the number whose little-endian bytes are
    /// the address in network order.
    pub fn get_ipv4(&self) -> (r: Option<u32>)
        ensures
            r is Some <==> self.ipv4().ip_version == IPVersion::IPV4,
            r is Some ==> r->0 == from_le32(self.ipv4().addr@, 0),
            r is Some ==> le32(r->0) == self.local_v4()->0,
    {
        match self.ipv4.ip_version {
            IPVersion::IPV4 => {
                let v = read_le32(&self.ipv4.addr, 0);
                proof {
                    lemma_le32_of_bytes(
                        self.ipv4.addr[0],
                        self.ipv4.addr[1],
                        self.ipv4.addr[2],
                        self.ipv4.addr[3],
                    );
                    assert(le32(v) =~= self.ipv4.addr@.subrange(0, 4));
                }
                Some(v)
            },
            _ => None,
        }
    }

    pub fn get_ipv6(&self) -> (r: Option<[u8; 16]>)
        ensures
            r == (if self.ipv6().ip_version == IPVersion::IPV6 {
                Some(self.ipv6().addr)
            } else {
                None
            }),
            r is Some ==> r->0@ == self.local_v6()->0,
    {
        match self.ipv6.ip_version {
            IPVersion::IPV6 => Some(self.ipv6.addr),
            _ => None,
        }
    }

    /// Whether `b` holds the local IPv4 address at `at`.
    pub(crate) fn is_local_v4(&self, b: &[u8], at: usize) -> (r: bool)
        requires
            at + 4 <= b@.len(),
        ensures
            r == (self.local_v4() == Some(b@.subrange(at as int, at + 4))),
    {
        match self.ipv4.ip_version {
            IPVersion::IPV4 => {
                let same = b[at] == self.ipv4.addr[0] && b[at + 1] == self.ipv4.addr[1] && b[at
                    + 2] == self.ipv4.addr[2] && b[at + 3] == self.ipv4.addr[3];
                proof {
                    let want = self.ipv4.addr@.subrange(0, 4);
                    let have = b@.subrange(at as int, at + 4);
                    if same {
                        assert(want =~= have);
                    } else {
                        assert(want[0] == self.ipv4.addr[0]);
                        assert(want[1] == self.ipv4.addr[1]);
                        assert(want[2] == self.ipv4.addr[2]);
                        assert(want[3] == self.ipv4.addr[3]);
                        assert(have[0] == b@[at as int]);
                        assert(have[1] == b@[at + 1]);
                        assert(have[2] == b@[at + 2]);
                        assert(have[3] == b@[at + 3]);
                    }
                }
                same
            },
            _ => false,
        }
    }

    /// Whether `b` holds the local IPv6 address at `at`.
    pub(crate) fn is_local_v6(&self, b: &[u8], at: usize) -> (r: bool)
        requires
            at + 16 <= b@.len(),
        ensures
            r == (self.local_v6() == Some(b@.subrange(at as int, at + 16))),
    {
        match self.ipv6.ip_version {
            IPVersion::IPV6 => {
                let ghost have = b@.subrange(at as int, at + 16);
                let n: usize = b.len();
                let mut i: usize = 0;
                while i < 16
                    invariant
                        i <= 16,
                        at + 16 <= b@.len(),
                        b@.len() == n,
                        have == b@.subrange(at as int, at + 16),
                        forall|k: int| 0 <= k < i ==> b@[at + k] == self.ipv6.addr[k],
                    decreases 16 - i,
                {
                    if b[at + i] != self.ipv6.addr[i] {
                        assert(have[i as int] == b@[at + i]);
                        return false;
                    }
                    i += 1;
                }
                assert(self.ipv6.addr@ =~= have);
                true
            },
            _ => false,
        }
    }

    pub fn to_bytes(&self) -> (r: [u8; 36])
        ensures
            r@ == self.spec_bytes(),
    {
        let mut out = [0u8; 36];
        write_le16(&mut out, 0, self.port);
        let v4 = self.ipv4.to_bytes();
        copy_into(&mut out, 2, &v4);
        let v6 = self.ipv6.to_bytes();
        copy_into(&mut out, 19, &v6);
        assert(out@ =~= self.spec_bytes());
        out
    }

    /// The configuration that the first 36 bytes of `b` hold, if both
    /// family bytes are known.
    pub open spec fn spec_from_bytes(b: Seq<u8>) -> Option<(u16, IPAddr, IPAddr)> {
        match (IPAddr::spec_from_bytes(b, 2), IPAddr::spec_from_bytes(b, 19)) {
            (Some(ipv4), Some(ipv6)) => Some((from_le16(b, 0) as u16, ipv4, ipv6)),
            _ => None,
        }
    }

    /// Decodes a configuration from the first 36 bytes of `b`.
    pub fn from_bytes(b: &[u8]) -> (r: Option<EbpfConfig>)
        ensures
            match (if b@.len() >= 36 {
                EbpfConfig::spec_from_bytes(b@)
            } else {
                None
            }) {
                Some((port, ipv4, ipv6)) => r is Some && r->0.spec_port() == port && r->0.ipv4()
                    == ipv4 && r->0.ipv6() == ipv6,
                None => r is None,
            },
    {
        if b.len() < 36 {
            return None;
        }
        match (IPAddr::read(b, 2), IPAddr::read(b, 19)) {
            (Some(ipv4), Some(ipv6)) => Some(EbpfConfig { port: read_le16(b, 0), ipv4, ipv6 }),
            _ => None,
        }
    }
}

impl Default for EbpfConfig {
    fn default() -> (r: Self)
        ensures
            r.spec_port() == 0,
            r.ipv4().ip_version == IPVersion::EMPTY,
            r.ipv6().ip_version == IPVersion::EMPTY,
    {
        EbpfConfig { port: 0, ipv4: IPAddr::default(), ipv6: IPAddr::default() }
    }
}

/// One observation of the classifier, as it reaches the trace engine.
///
/// For `IcmpTimeExceeded`, `ttl` is the identity of the probe that expired
/// and `addr` the router that said so; `ack_seq` and `seq` are meaningful
/// for the two TCP kinds only.
#[derive(Debug, Copy, Clone)]
pub struct TraceEvent {
    pub arrival: u64,
    pub trace_id: u32,
    pub ack_seq: u32,
    pub seq: u32,
    pub event_type: TraceEventType,
    pub ip_version: IPVersion,
    pub ttl: u8,
    pub addr: IPAddr,
}

impl TraceEvent {
    /// The encoding: the fields in order, integers little-endian.
    pub open spec fn spec_bytes(self) -> Seq<u8> {
        le64(self.arrival) + le32(self.trace_id) + le32(self.ack_seq) + le32(self.seq)
            + seq![self.event_type.spec_code(), self.ip_version.spec_code(), self.ttl]
            + self.addr.spec_bytes()
    }

    /// The event that the first 40 bytes of `b` hold, if the kind byte and
    /// both family bytes are known.
    pub open spec fn spec_from_bytes(b: Seq<u8>) -> Option<TraceEvent> {
        match (
            TraceEventType::spec_from_code(b[20]),
            IPVersion::spec_from_code(b[21]),
            IPAddr::spec_from_bytes(b, 23),
        ) {
            (Some(event_type), Some(ip_version), Some(addr)) => Some(
                TraceEvent {
                    arrival: from_le64(b, 0) as u64,
                    trace_id: from_le32(b, 8) as u32,
                    ack_seq: from_le32(b, 12) as u32,
                    seq: from_le32(b, 16) as u32,
                    event_type,
                    ip_version,
                    ttl: b[22],
                    addr,
                },
            ),
            _ => None,
        }
    }

    pub fn to_bytes(&self) -> (r: [u8; 40])
        ensures
            r@ == self.spec_bytes(),
    {
        let mut out = [0u8; 40];
        write_le64(&mut out, 0, self.arrival);
        write_le32(&mut out, 8, self.trace_id);
        write_le32(&mut out, 12, self.ack_seq);
        write_le32(&mut out, 16, self.seq);
        out[20] = self.event_type.code();
        out[21] = self.ip_version.code();
        out[22] = self.ttl;
        let addr = self.addr.to_bytes();
        copy_into(&mut out, 23, &addr);
        assert(out@ =~= self.spec_bytes());
        out
    }

    /// Decodes an event from the first 40 bytes of `b`; what follows them is
    /// not read.
    pub fn from_bytes(b: &[u8]) -> (r: Option<TraceEvent>)
        ensures
            r == (if b@.len() >= 40 {
                TraceEvent::spec_from_bytes(b@)
            } else {
                None
            }),
    {
        if b.len() < 40 {
            return None;
        }
        let event_type = match TraceEventType::from_code(b[20]) {
            Some(t) => t,
            None => {
                return None;
            },
        };
        let ip_version = match IPVersion::from_code(b[21]) {
            Some(v) => v,
            None => {
                return None;
            },
        };
        let addr = match IPAddr::read(b, 23) {
            Some(a) => a,
            None => {
                return None;
            },
        };
        Some(
            TraceEvent {
                arrival: read_le64(b, 0),
                trace_id: read_le32(b, 8),
                ack_seq: read_le32(b, 12),
                seq: read_le32(b, 16),
                event_type,
                ip_version,
                ttl: b[22],
                addr,
            },
        )
    }
}

impl PartialEq for TraceEvent {
    fn eq(&self, other: &TraceEvent) -> (r: bool) {
        self.arrival == other.arrival && self.trace_id == other.trace_id && self.ack_seq
            == other.ack_seq && self.seq == other.seq && self.event_type == other.event_type
            && self.ip_version == other.ip_version && self.ttl == other.ttl && self.addr
            == other.addr
    }
}

impl Eq for TraceEvent {

}

impl PartialEqSpecImpl for TraceEvent {
    open spec fn obeys_eq_spec() -> bool {
        true
    }

    open spec fn eq_spec(&self, other: &TraceEvent) -> bool {
        *self == *other
    }
}

/// There is an array for every four bytes.
pub proof fn lemma_array4_holds(s: Seq<u8>)
    requires
        s.len() == 4,
    ensures
        array4_of(s)@ == s,
{
    broadcast use vstd::array::group_array_axioms;

    let a0 = vstd::array::spec_array_fill_for_copy_type::<u8, 4>(0u8);
    let a1 = vstd::array::spec_array_update(a0, 0, s[0]);
    let a2 = vstd::array::spec_array_update(a1, 1, s[1]);
    let a3 = vstd::array::spec_array_update(a2, 2, s[2]);
    let a4 = vstd::array::spec_array_update(a3, 3, s[3]);
    assert(a4@ =~= s);
}

/// The number made of four bytes, least significant first, has them as its
/// little-endian bytes.
pub proof fn lemma_le32_of_bytes(b0: u8, b1: u8, b2: u8, b3: u8)
    by (bit_vector)
    ensures
        (b0 + 0x100 * b1 + 0x1_0000 * b2 + 0x100_0000 * b3) % 256 == b0,
        ((b0 + 0x100 * b1 + 0x1_0000 * b2 + 0x100_0000 * b3) / 0x100) % 256 == b1,
        ((b0 + 0x100 * b1 + 0x1_0000 * b2 + 0x100_0000 * b3) / 0x1_0000) % 256 == b2,
        (b0 + 0x100 * b1 + 0x1_0000 * b2 + 0x100_0000 * b3) / 0x100_0000 == b3,
{
}

/// The little-endian bytes of a number are two, and stand for it.
pub proof fn lemma_le16(x: u16)
    ensures
        le16(x).len() == 2,
        from_le16(le16(x), 0) == x,
{
}

/// The little-endian bytes of a number are four, and stand for it.
pub proof fn lemma_le32(x: u32)
    ensures
        le32(x).len() == 4,
        from_le32(le32(x), 0) == x,
{
}

/// The little-endian bytes of a number are eight, and stand for it.
pub proof fn lemma_le64(x: u64)
    ensures
        le64(x).len() == 8,
        from_le64(le64(x), 0) == x,
{
    assert(x % 256 + 0x100 * ((x / 0x100) % 256) + 0x1_0000 * ((x / 0x1_0000) % 256) + 0x100_0000
        * ((x / 0x100_0000) % 256) + 0x1_0000_0000 * ((x / 0x1_0000_0000) % 256)
        + 0x100_0000_0000 * ((x / 0x100_0000_0000) % 256) + 0x1_0000_0000_0000 * ((x
        / 0x1_0000_0000_0000) % 256) + 0x100_0000_0000_0000 * (x / 0x100_0000_0000_0000) == x)
        by (bit_vector);
}

/// Every record has its fixed size: an address 17 bytes, a socket address
/// 19, the classifier's configuration 36, an event 40.
pub proof fn law_record_sizes(addr: IPAddr, key: SocketAddr, config: EbpfConfig, event: TraceEvent)
    ensures
        addr.spec_bytes().len() == IP_ADDR_SIZE,
        key.spec_bytes().len() == SOCKET_ADDR_SIZE,
        config.spec_bytes().len() == EBPF_CONFIG_SIZE,
        event.spec_bytes().len() == TRACE_EVENT_SIZE,
{
}

/// Decoding an encoded address gives the address back.
pub proof fn law_ip_addr_round_trip(addr: IPAddr)
    ensures
        IPAddr::spec_from_bytes(addr.spec_bytes(), 0) == Some(addr),
{
    let b = addr.spec_bytes();
    assert(b.subrange(1, 17) =~= addr.addr@);
    lemma_array_of(addr.addr);
}

/// Decoding an encoded configuration gives its port and its two slots back.
pub proof fn law_ebpf_config_round_trip(config: EbpfConfig)
    ensures
        EbpfConfig::spec_from_bytes(config.spec_bytes()) == Some(
            (config.spec_port(), config.ipv4(), config.ipv6()),
        ),
{
    let b = config.spec_bytes();
    assert(b.subrange(3, 19) =~= config.ipv4().addr@);
    assert(b.subrange(20, 36) =~= config.ipv6().addr@);
    lemma_array_of(config.ipv4().addr);
    lemma_array_of(config.ipv6().addr);
    lemma_le16(config.spec_port());
    assert(b[0] == le16(config.spec_port())[0]);
    assert(b[1] == le16(config.spec_port())[1]);
}

/// Decoding an encoded socket address gives it back.
pub proof fn law_socket_addr_round_trip(key: SocketAddr)
    ensures
        SocketAddr::spec_from_bytes(key.spec_bytes(), 0) == Some(key),
{
    let b = key.spec_bytes();
    assert(b.subrange(3, 19) =~= key.addr.addr@);
    lemma_array_of(key.addr.addr);
    lemma_le16(key.port);
    assert(b[0] == le16(key.port)[0]);
    assert(b[1] == le16(key.port)[1]);
}

/// Where an encoded event holds what.
proof fn lemma_trace_event_layout(event: TraceEvent)
    ensures
        ({
            let b = event.spec_bytes();
            &&& b.len() == 40
            &&& b.subrange(0, 8) == le64(event.arrival)
            &&& b.subrange(8, 12) == le32(event.trace_id)
            &&& b.subrange(12, 16) == le32(event.ack_seq)
            &&& b.subrange(16, 20) == le32(event.seq)
            &&& b[20] == event.event_type.spec_code()
            &&& b[21] == event.ip_version.spec_code()
            &&& b[22] == event.ttl
            &&& b[23] == event.addr.ip_version.spec_code()
            &&& b.subrange(24, 40) == event.addr.addr@
        }),
{
    let b = event.spec_bytes();
    assert(b.subrange(0, 8) =~= le64(event.arrival));
    assert(b.subrange(8, 12) =~= le32(event.trace_id));
    assert(b.subrange(12, 16) =~= le32(event.ack_seq));
    assert(b.subrange(16, 20) =~= le32(event.seq));
    assert(b.subrange(24, 40) =~= event.addr.addr@);
}

/// Four bytes that are the little-endian bytes of `x` stand for `x`,
/// wherever they are.
proof fn lemma_from_le32_at(b: Seq<u8>, at: int, x: u32)
    requires
        0 <= at,
        at + 4 <= b.len(),
        b.subrange(at, at + 4) == le32(x),
    ensures
        from_le32(b, at) == x,
{
    lemma_le32(x);
    let part = b.subrange(at, at + 4);
    assert(part[0] == b[at]);
    assert(part[1] == b[at + 1]);
    assert(part[2] == b[at + 2]);
    assert(part[3] == b[at + 3]);
}

/// Eight bytes that are the little-endian bytes of `x` stand for `x`,
/// wherever they are.
proof fn lemma_from_le64_at(b: Seq<u8>, at: int, x: u64)
    requires
        0 <= at,
        at + 8 <= b.len(),
        b.subrange(at, at + 8) == le64(x),
    ensures
        from_le64(b, at) == x,
{
    lemma_le64(x);
    let part = b.subrange(at, at + 8);
    assert(part[0] == b[at]);
    assert(part[1] == b[at + 1]);
    assert(part[2] == b[at + 2]);
    assert(part[3] == b[at + 3]);
    assert(part[4] == b[at + 4]);
    assert(part[5] == b[at + 5]);
    assert(part[6] == b[at + 6]);
    assert(part[7] == b[at + 7]);
}

/// Two keys are equal exactly when their encodings are.
pub proof fn law_keys_equal_as_their_bytes(a: SocketAddr, b: SocketAddr)
    ensures
        a == b <==> a.spec_bytes() == b.spec_bytes(),
{
    law_socket_addr_round_trip(a);
    law_socket_addr_round_trip(b);
}

/// Decoding an encoded event gives the event back.
pub proof fn law_trace_event_round_trip(event: TraceEvent)
    ensures
        TraceEvent::spec_from_bytes(event.spec_bytes()) == Some(event),
{
    let b = event.spec_bytes();
    lemma_trace_event_layout(event);
    lemma_from_le64_at(b, 0, event.arrival);
    lemma_from_le32_at(b, 8, event.trace_id);
    lemma_from_le32_at(b, 12, event.ack_seq);
    lemma_from_le32_at(b, 16, event.seq);
    lemma_array_of(event.addr.addr);
}

} // verus!
