//! Rules of the delivery surface that need no network: which names the
//! server answers to and which origins may read a trace.

use vstd::prelude::*;
use vstd::string::*;

verus! {

/// Whether `s` begins with `prefix`.
pub open spec fn has_prefix(s: Seq<u8>, prefix: Seq<u8>) -> bool {
    prefix.len() <= s.len() && s.subrange(0, prefix.len() as int) == prefix
}

/// Whether `s` ends with `suffix`.
pub open spec fn has_suffix(s: Seq<u8>, suffix: Seq<u8>) -> bool {
    suffix.len() <= s.len() && s.subrange(s.len() - suffix.len(), s.len() as int) == suffix
}

/// An origin may read a trace if it is a page served from localhost over
/// plain HTTP, on any port, or the project's site or one of its subdomains.
pub open spec fn spec_origin_allowed(origin: Seq<u8>) -> bool {
    ||| has_prefix(origin, "http://localhost:".spec_bytes())
    ||| has_suffix(origin, ".inband-traceroute.net".spec_bytes())
    ||| origin == "https://inband-traceroute.net".spec_bytes()
}

fn starts_with(s: &[u8], prefix: &[u8]) -> (r: bool)
    ensures
        r == has_prefix(s@, prefix@),
{
    if prefix.len() > s.len() {
        return false;
    }
    let mut i: usize = 0;
    while i < prefix.len()
        invariant
            i <= prefix@.len(),
            prefix@.len() <= s@.len(),
            forall|k: int| 0 <= k < i ==> s@[k] == prefix@[k],
        decreases prefix@.len() - i,
    {
        if s[i] != prefix[i] {
            assert(s@.subrange(0, prefix@.len() as int)[i as int] == s@[i as int]);
            return false;
        }
        i += 1;
    }
    assert(s@.subrange(0, prefix@.len() as int) =~= prefix@);
    true
}

fn ends_with(s: &[u8], suffix: &[u8]) -> (r: bool)
    ensures
        r == has_suffix(s@, suffix@),
{
    if suffix.len() > s.len() {
        return false;
    }
    let total: usize = s.len();
    let start: usize = total - suffix.len();
    let mut i: usize = 0;
    while i < suffix.len()
        invariant
            i <= suffix@.len(),
            suffix@.len() <= s@.len(),
            s@.len() == total,
            start == s@.len() - suffix@.len(),
            forall|k: int| 0 <= k < i ==> s@[start + k] == suffix@[k],
        decreases suffix@.len() - i,
    {
        if s[start + i] != suffix[i] {
            assert(s@.subrange(start as int, s@.len() as int)[i as int] == s@[start + i]);
            return false;
        }
        i += 1;
    }
    assert(s@.subrange(start as int, s@.len() as int) =~= suffix@);
    true
}

fn same_bytes(s: &[u8], other: &[u8]) -> (r: bool)
    ensures
        r == (s@ == other@),
{
    if s.len() != other.len() {
        return false;
    }
    let r = starts_with(s, other);
    assert(s@.subrange(0, s@.len() as int) =~= s@);
    r
}

/// Whether a page of `origin` may read a trace.
pub fn origin_allowed(origin: &[u8]) -> (r: bool)
    ensures
        r == spec_origin_allowed(origin@),
{
    starts_with(origin, "http://localhost:".as_bytes()) || ends_with(
        origin,
        ".inband-traceroute.net".as_bytes(),
    ) || same_bytes(origin, "https://inband-traceroute.net".as_bytes())
}

/// The names that the server answers to: the domain and, where asked for,
/// its subdomains `ipv4.` and `ipv6.`.
pub open spec fn spec_served_domains(domain: Seq<char>, subdomains: bool) -> Seq<Seq<char>> {
    if subdomains {
        seq![domain, "ipv4."@ + domain, "ipv6."@ + domain]
    } else {
        seq![domain]
    }
}

/// The names that the server answers to.
pub fn served_domains(domain: &str, subdomains: bool) -> (r: Vec<String>)
    ensures
        r@.len() == spec_served_domains(domain@, subdomains).len(),
        forall|i: int|
            0 <= i < r@.len() ==> #[trigger] r@[i]@ == spec_served_domains(domain@, subdomains)[i],
{
    let mut out: Vec<String> = Vec::new();
    out.push(String::from_str(domain));
    if subdomains {
        out.push(String::from_str("ipv4.").concat(domain));
        out.push(String::from_str("ipv6.").concat(domain));
    }
    out
}

/// The ACME contact for an e-mail address.
pub fn contact(email: &str) -> (r: String)
    ensures
        r@ == "mailto:"@ + email@,
{
    String::from_str("mailto:").concat(email)
}

} // verus!
