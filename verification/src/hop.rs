//! A hop: what a trace reports for one step of its TTL sweep.

use crate::dns::{hex_char, hex_digit};
use crate::wire::IPAddr;
use vstd::prelude::*;
use vstd::string::*;

verus! {

/// Nanoseconds in a millisecond.
pub const NS_PER_MS: u64 = 1_000_000;

/// Why a hop was reported.
#[derive(Debug, Clone, Copy, PartialEq, Eq, Structural)]
pub enum HopType {
    /// Nothing came back for the probe in time.
    Timeout,
    /// The peer reset the connection.
    TcpRst,
    /// The peer acknowledged the probe: the destination was reached.
    TcpAck,
    /// A router on the path dropped the probe and said so.
    IcmpTimeExceeded,
    /// The server itself, before any probe is sent.
    Origin,
}

impl HopType {
    /// The words by which this kind is shown.
    pub open spec fn spec_label(self) -> Seq<char> {
        match self {
            HopType::Timeout => "[timeout]"@,
            HopType::TcpRst => "TCP Reset"@,
            HopType::TcpAck => "TCP ACK"@,
            HopType::IcmpTimeExceeded => "ICMP Time Exceeded"@,
            HopType::Origin => "[this server]"@,
        }
    }

    pub fn label(&self) -> (r: &'static str)
        ensures
            r@ == self.spec_label(),
    {
        match self {
            HopType::Timeout => "[timeout]",
            HopType::TcpRst => "TCP Reset",
            HopType::TcpAck => "TCP ACK",
            HopType::IcmpTimeExceeded => "ICMP Time Exceeded",
            HopType::Origin => "[this server]",
        }
    }
}

/// What an IP database knows of an address: the network it belongs to and
/// where that network is.
#[derive(Debug, Clone, Copy, PartialEq, Eq)]
pub struct IpinfoCountryASN<'a> {
    pub as_domain: Option<&'a str>,
    pub as_name: Option<&'a str>,
    pub asn: Option<&'a str>,
    pub continent: Option<&'a str>,
    pub continent_code: Option<&'a str>,
    pub country: Option<&'a str>,
    pub country_code: Option<&'a str>,
    pub ip: Option<&'a str>,
}

/// One entry of a trace.
#[derive(Debug, Clone, Copy, PartialEq, Eq)]
pub struct Hop {
    pub ttl: u8,
    pub hop_type: HopType,
    /// Who answered, where anyone did.
    pub addr: Option<IPAddr>,
    /// Nanoseconds from sending the probe to the arrival of the answer.
    pub rtt: Option<u64>,
    /// What the IP database knows of `addr`. The sweep leaves it empty.
    pub enriched_info: Option<IpinfoCountryASN<'static>>,
}

impl Hop {
    pub fn new(
        ttl: u8,
        hop_type: HopType,
        addr: Option<IPAddr>,
        rtt: Option<u64>,
        enriched_info: Option<IpinfoCountryASN<'static>>,
    ) -> (r: Self)
        ensures
            r == (Hop { ttl, hop_type, addr, rtt, enriched_info }),
    {
        Self { ttl, hop_type, addr, rtt, enriched_info }
    }

    /// The hop with what the IP database knows of its address.
    pub fn enriched(self, info: Option<IpinfoCountryASN<'static>>) -> (r: Self)
        ensures
            r == (Hop { enriched_info: info, ..self }),
    {
        Hop { enriched_info: info, ..self }
    }

    /// The line that shows the hop: the TTL, a colon and the kind; then
    /// ` from ` and the address, where one is given; then the round-trip
    /// time in whole milliseconds, where there is one.
    pub open spec fn spec_line(self, addr_text: Option<Seq<char>>) -> Seq<char> {
        digits(self.ttl as nat) + ": "@ + self.hop_type.spec_label() + (match addr_text {
            Some(text) => " from "@ + text,
            None => Seq::empty(),
        }) + (match self.rtt {
            Some(ns) => " (rtt "@ + digits((ns / NS_PER_MS) as nat) + "ms)"@,
            None => Seq::empty(),
        })
    }

    /// The line that shows the hop, with `addr_text` as the address.
    pub fn line(&self, addr_text: Option<&str>) -> (r: String)
        ensures
            r@ == self.spec_line(
                match addr_text {
                    Some(text) => Some(text@),
                    None => None,
                },
            ),
    {
        let mut out = String::new();
        push_digits(&mut out, self.ttl as u64);
        out.append(": ");
        out.append(self.hop_type.label());
        let ghost head = out@;
        match addr_text {
            Some(text) => {
                out.append(" from ");
                out.append(text);
            },
            None => {
                assert(out@ =~= head + Seq::<char>::empty());
            },
        }
        let ghost middle = out@;
        match self.rtt {
            Some(ns) => {
                out.append(" (rtt ");
                push_digits(&mut out, ns / NS_PER_MS);
                out.append("ms)");
            },
            None => {
                assert(out@ =~= middle + Seq::<char>::empty());
            },
        }
        assert(out@ =~= self.spec_line(
            match addr_text {
                Some(text) => Some(text@),
                None => None,
            },
        ));
        out
    }

    /// The round-trip time in whole milliseconds, rounded down.
    pub fn rtt_ms(&self) -> (r: Option<u64>)
        ensures
            r == (match self.rtt {
                Some(ns) => Some(ns / NS_PER_MS),
                None => None,
            }),
    {
        match self.rtt {
            Some(ns) => Some(ns / NS_PER_MS),
            None => None,
        }
    }
}

/// A number in decimal, without leading zeros.
pub open spec fn digits(n: nat) -> Seq<char>
    decreases n,
{
    if n < 10 {
        seq![hex_char(n as u8)]
    } else {
        digits(n / 10).push(hex_char((n % 10) as u8))
    }
}

/// Writes `n` in decimal at the end of `out`.
fn push_digits(out: &mut String, n: u64)
    ensures
        final(out)@ == old(out)@ + digits(n as nat),
    decreases n,
{
    let ghost before = out@;
    if n >= 10 {
        push_digits(out, n / 10);
    }
    out.append(hex_digit((n % 10) as u8));
    assert(out@ =~= before + digits(n as nat));
}

} // verus!
