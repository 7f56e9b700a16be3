use vstd::prelude::*;

verus! {

/// `10.0.0.0/8`, `172.16.0.0/12` or `192.168.0.0/16` (`Ipv4Addr::is_private`).
pub open spec fn ipv4_is_private(o: Seq<u8>) -> bool {
    o[0] == 10 || (o[0] == 172 && 16 <= o[1] <= 31) || (o[0] == 192 && o[1] == 168)
}

/// `127.0.0.0/8` (`Ipv4Addr::is_loopback`).
pub open spec fn ipv4_is_loopback(o: Seq<u8>) -> bool {
    o[0] == 127
}

/// `169.254.0.0/16` (`Ipv4Addr::is_link_local`).
pub open spec fn ipv4_is_link_local(o: Seq<u8>) -> bool {
    o[0] == 169 && o[1] == 254
}

/// `0.0.0.0` (`Ipv4Addr::is_unspecified`).
pub open spec fn ipv4_is_unspecified(o: Seq<u8>) -> bool {
    o[0] == 0 && o[1] == 0 && o[2] == 0 && o[3] == 0
}

/// An IPv4 address that must not be reached over HTTPS from the OAuth flow: private,
/// loopback, link-local or unspecified.
pub open spec fn ipv4_is_internal(o: Seq<u8>) -> bool {
    ipv4_is_private(o) || ipv4_is_loopback(o) || ipv4_is_link_local(o) || ipv4_is_unspecified(o)
}

/// `::1` (`Ipv6Addr::is_loopback`).
pub open spec fn ipv6_is_loopback(s: Seq<u16>) -> bool {
    s[0] == 0 && s[1] == 0 && s[2] == 0 && s[3] == 0 && s[4] == 0 && s[5] == 0 && s[6] == 0 && s[7] == 1
}

/// `::` (`Ipv6Addr::is_unspecified`).
pub open spec fn ipv6_is_unspecified(s: Seq<u16>) -> bool {
    s[0] == 0 && s[1] == 0 && s[2] == 0 && s[3] == 0 && s[4] == 0 && s[5] == 0 && s[6] == 0 && s[7] == 0
}

/// A unique local address, `fc00::/7`.
pub open spec fn ipv6_is_unique_local(s: Seq<u16>) -> bool {
    0xfc00 <= s[0] <= 0xfdff
}

/// A link-local unicast address, `fe80::/10`.
pub open spec fn ipv6_is_link_local(s: Seq<u16>) -> bool {
    0xfe80 <= s[0] <= 0xfebf
}

/// The IPv4 address that an IPv4-mapped IPv6 address `::ffff:a.b.c.d` stands for
/// (`Ipv6Addr::to_ipv4_mapped`).
pub open spec fn ipv6_mapped_ipv4(s: Seq<u16>) -> Option<Seq<u8>> {
    if s[0] == 0 && s[1] == 0 && s[2] == 0 && s[3] == 0 && s[4] == 0 && s[5] == 0xffff {
        Some(seq![(s[6] / 256) as u8, (s[6] % 256) as u8, (s[7] / 256) as u8, (s[7] % 256) as u8])
    } else {
        None
    }
}

/// An IPv6 address that must not be reached over HTTPS from the OAuth flow: loopback,
/// unspecified, unique local, link-local, or mapping an internal IPv4 address.
pub open spec fn ipv6_is_internal(s: Seq<u16>) -> bool {
    ||| ipv6_is_loopback(s)
    ||| ipv6_is_unspecified(s)
    ||| ipv6_is_unique_local(s)
    ||| ipv6_is_link_local(s)
    ||| (ipv6_mapped_ipv4(s) matches Some(o) && ipv4_is_internal(o))
}

/// Whether an IPv4 address is private, loopback, link-local or unspecified.
pub fn is_private_ipv4(ip: [u8; 4]) -> (r: bool)
    ensures
        r == ipv4_is_internal(ip@),
{
    let a = ip[0];
    let b = ip[1];
    let private = a == 10 || (a == 172 && 16 <= b && b <= 31) || (a == 192 && b == 168);
    let loopback = a == 127;
    let link_local = a == 169 && b == 254;
    let unspecified = a == 0 && b == 0 && ip[2] == 0 && ip[3] == 0;
    private || loopback || link_local || unspecified
}

/// The IPv4 address behind an IPv4-mapped IPv6 address, if `seg` is one.
pub fn ipv6_to_ipv4_mapped(seg: [u16; 8]) -> (r: Option<[u8; 4]>)
    ensures
        match r {
            Some(o) => ipv6_mapped_ipv4(seg@) == Some(o@),
            None => ipv6_mapped_ipv4(seg@) is None,
        },
{
    if seg[0] == 0 && seg[1] == 0 && seg[2] == 0 && seg[3] == 0 && seg[4] == 0 && seg[5] == 0xffff {
        let o = [(seg[6] / 256) as u8, (seg[6] % 256) as u8, (seg[7] / 256) as u8, (seg[7] % 256) as u8];
        assert(o@ =~= seq![(seg@[6] / 256) as u8, (seg@[6] % 256) as u8, (seg@[7] / 256) as u8, (seg@[7] % 256) as u8]);
        Some(o)
    } else {
        None
    }
}

/// Whether an IPv6 address is loopback, unspecified, unique local, link-local, or maps
/// an internal IPv4 address.
pub fn is_internal_ipv6(seg: [u16; 8]) -> (r: bool)
    ensures
        r == ipv6_is_internal(seg@),
{
    let s0 = seg[0];
    assert(((s0 & 0xfe00) == 0xfc00) == (0xfc00 <= s0 && s0 <= 0xfdff)) by (bit_vector);
    assert(((s0 & 0xffc0) == 0xfe80) == (0xfe80 <= s0 && s0 <= 0xfebf)) by (bit_vector);
    let zero_prefix = seg[0] == 0 && seg[1] == 0 && seg[2] == 0 && seg[3] == 0 && seg[4] == 0
        && seg[5] == 0 && seg[6] == 0;
    if zero_prefix && (seg[7] == 1 || seg[7] == 0) {
        return true;
    }
    if s0 & 0xfe00 == 0xfc00 || s0 & 0xffc0 == 0xfe80 {
        return true;
    }
    match ipv6_to_ipv4_mapped(seg) {
        Some(o) => is_private_ipv4(o),
        None => false,
    }
}

} // verus!
