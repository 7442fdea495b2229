//! Reverse DNS: the name under which the PTR record of an address is asked
//! for.

use crate::wire::{IPAddr, IPVersion};
use vstd::prelude::*;
use vstd::string::*;

verus! {

/// The character for one hexadecimal digit, in lower case.
pub open spec fn hex_char(d: u8) -> char {
    if d == 0 {
        '0'
    } else if d == 1 {
        '1'
    } else if d == 2 {
        '2'
    } else if d == 3 {
        '3'
    } else if d == 4 {
        '4'
    } else if d == 5 {
        '5'
    } else if d == 6 {
        '6'
    } else if d == 7 {
        '7'
    } else if d == 8 {
        '8'
    } else if d == 9 {
        '9'
    } else if d == 10 {
        'a'
    } else if d == 11 {
        'b'
    } else if d == 12 {
        'c'
    } else if d == 13 {
        'd'
    } else if d == 14 {
        'e'
    } else {
        'f'
    }
}

/// A byte in decimal, without leading zeros.
pub open spec fn decimal(n: u8) -> Seq<char> {
    if n >= 100 {
        seq![hex_char(n / 100), hex_char((n / 10) % 10), hex_char(n % 10)]
    } else if n >= 10 {
        seq![hex_char(n / 10), hex_char(n % 10)]
    } else {
        seq![hex_char(n)]
    }
}

/// The name for an IPv4 address: its four bytes in decimal, last byte
/// first, under `in-addr.arpa.`.
pub open spec fn ptr_name_v4(octets: Seq<u8>) -> Seq<char> {
    decimal(octets[3]) + "."@ + decimal(octets[2]) + "."@ + decimal(octets[1]) + "."@ + decimal(
        octets[0],
    ) + ".in-addr.arpa."@
}

/// The labels for the last `n` bytes of an IPv6 address: for each byte,
/// last byte first, its low nibble and then its high nibble, a dot after
/// each.
pub open spec fn nibble_labels(octets: Seq<u8>, n: nat) -> Seq<char>
    decreases n,
{
    if n == 0 {
        Seq::empty()
    } else {
        let b = octets[16 - n];
        nibble_labels(octets, (n - 1) as nat) + seq![hex_char(b % 16), '.', hex_char(b / 16), '.']
    }
}

/// The name for an IPv6 address: its 32 nibbles, last nibble first, under
/// `ip6.arpa.`.
pub open spec fn ptr_name_v6(octets: Seq<u8>) -> Seq<char> {
    nibble_labels(octets, 16) + "ip6.arpa."@
}

/// The name under which the PTR record of `ip` is found, if `ip` is an
/// address.
pub open spec fn spec_ptr_name(ip: IPAddr) -> Option<Seq<char>> {
    match ip.ip_version {
        IPVersion::IPV4 => Some(ptr_name_v4(ip.addr@)),
        IPVersion::IPV6 => Some(ptr_name_v6(ip.addr@)),
        IPVersion::EMPTY => None,
    }
}

pub(crate) fn hex_digit(d: u8) -> (r: &'static str)
    requires
        d < 16,
    ensures
        r@ == seq![hex_char(d)],
{
    proof {
        reveal_strlit("0");
        reveal_strlit("1");
        reveal_strlit("2");
        reveal_strlit("3");
        reveal_strlit("4");
        reveal_strlit("5");
        reveal_strlit("6");
        reveal_strlit("7");
        reveal_strlit("8");
        reveal_strlit("9");
        reveal_strlit("a");
        reveal_strlit("b");
        reveal_strlit("c");
        reveal_strlit("d");
        reveal_strlit("e");
        reveal_strlit("f");
    }
    let r = if d == 0 {
        "0"
    } else if d == 1 {
        "1"
    } else if d == 2 {
        "2"
    } else if d == 3 {
        "3"
    } else if d == 4 {
        "4"
    } else if d == 5 {
        "5"
    } else if d == 6 {
        "6"
    } else if d == 7 {
        "7"
    } else if d == 8 {
        "8"
    } else if d == 9 {
        "9"
    } else if d == 10 {
        "a"
    } else if d == 11 {
        "b"
    } else if d == 12 {
        "c"
    } else if d == 13 {
        "d"
    } else if d == 14 {
        "e"
    } else {
        "f"
    };
    assert(r@ =~= seq![hex_char(d)]);
    r
}

fn push_decimal(out: &mut String, n: u8)
    ensures
        final(out)@ == old(out)@ + decimal(n),
{
    if n >= 100 {
        out.append(hex_digit(n / 100));
        out.append(hex_digit((n / 10) % 10));
        out.append(hex_digit(n % 10));
    } else if n >= 10 {
        out.append(hex_digit(n / 10));
        out.append(hex_digit(n % 10));
    } else {
        out.append(hex_digit(n));
    }
    assert(out@ =~= old(out)@ + decimal(n));
}

/// The name under which the PTR record of `ip` is found; `None` for the
/// empty address.
pub fn ip_to_ptr_name(ip: &IPAddr) -> (r: Option<String>)
    ensures
        match spec_ptr_name(*ip) {
            Some(name) => r is Some && r->0@ == name,
            None => r is None,
        },
{
    match ip.ip_version {
        IPVersion::EMPTY => None,
        IPVersion::IPV4 => {
            proof {
                reveal_strlit(".");
            }
            let mut out = String::new();
            push_decimal(&mut out, ip.addr[3]);
            out.append(".");
            push_decimal(&mut out, ip.addr[2]);
            out.append(".");
            push_decimal(&mut out, ip.addr[1]);
            out.append(".");
            push_decimal(&mut out, ip.addr[0]);
            out.append(".in-addr.arpa.");
            assert(out@ =~= ptr_name_v4(ip.addr@));
            Some(out)
        },
        IPVersion::IPV6 => {
            proof {
                reveal_strlit(".");
            }
            let mut out = String::new();
            let mut n: usize = 0;
            while n < 16
                invariant
                    n <= 16,
                    "."@ == seq!['.'],
                    out@ == nibble_labels(ip.addr@, n as nat),
                decreases 16 - n,
            {
                let b: u8 = ip.addr[15 - n];
                out.append(hex_digit(b % 16));
                out.append(".");
                out.append(hex_digit(b / 16));
                out.append(".");
                n += 1;
                assert(out@ =~= nibble_labels(ip.addr@, n as nat));
            }
            out.append("ip6.arpa.");
            Some(out)
        },
    }
}

} // verus!
